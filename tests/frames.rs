use uinput_core::event::{InputEvent, EV_KEY, EV_REL, REL_X};
use uinput_core::stream::EventStream;

#[test]
fn stream_delivers_whole_frames_in_order() {
    let events = vec![
        InputEvent::new(EV_REL, REL_X, 1),
        InputEvent::new(EV_REL, 1, -1),
        InputEvent::sync_report(),
        InputEvent::new(EV_KEY, 30, 1),
        InputEvent::sync_report(),
        InputEvent::new(EV_KEY, 30, 0),
    ];
    let mut s = EventStream::new();
    for e in &events {
        s.post(*e);
    }
    assert_eq!(s.delivered(), events[..5].to_vec());
    assert_eq!(s.pending(), events[5..].to_vec());
    let mut all = s.delivered();
    all.extend(s.pending());
    assert_eq!(all, events);
}

#[test]
fn nothing_visible_before_sync() {
    let mut s = EventStream::new();
    s.post(InputEvent::new(EV_KEY, 30, 1));
    s.post(InputEvent::new(EV_KEY, 31, 1));
    assert!(s.delivered().is_empty());
    assert_eq!(s.pending().len(), 2);
    s.post(InputEvent::sync_report());
    assert_eq!(s.delivered().len(), 3);
    assert!(s.pending().is_empty());
}

#[test]
fn empty_stream_shows_nothing() {
    let s = EventStream::new();
    assert!(s.delivered().is_empty());
    assert!(s.pending().is_empty());
}
