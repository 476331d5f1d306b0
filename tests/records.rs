use uinput_core::error::{errno_from_return, reply_result, DeviceError};
use uinput_core::event::{InputEvent, EV_KEY, EV_REL, EV_SYN, RECORD_LEN, REL_X, SYN_REPORT};

#[test]
fn sync_report_closes_a_frame() {
    let e = InputEvent::sync_report();
    assert_eq!(e, InputEvent::new(EV_SYN, SYN_REPORT, 0));
    assert!(e.is_sync());
    assert!(!InputEvent::new(EV_SYN, 2, 0).is_sync());
    assert!(!InputEvent::new(EV_REL, REL_X, 0).is_sync());
}

#[test]
fn record_layout_is_exact() {
    let r = InputEvent::new(EV_REL, REL_X, 5).to_record();
    let mut expected = vec![0u8; 16];
    expected.extend_from_slice(&[2, 0, 0, 0, 5, 0, 0, 0]);
    assert_eq!(r, expected);
    assert_eq!(r.len(), RECORD_LEN);
}

#[test]
fn record_of_negative_value_and_wide_code() {
    let r = InputEvent::new(EV_KEY, 0x2ff, -2).to_record();
    assert_eq!(&r[16..], &[1, 0, 0xff, 0x02, 0xfe, 0xff, 0xff, 0xff]);
}

#[test]
fn record_round_trip() {
    for e in [
        InputEvent::new(EV_REL, REL_X, 5),
        InputEvent::new(EV_KEY, 0x110, 1),
        InputEvent::new(0xffff, 0xffff, i32::MIN),
        InputEvent::new(3, 0x35, i32::MAX),
        InputEvent::sync_report(),
    ] {
        assert_eq!(InputEvent::from_record(&e.to_record()), Some(e));
    }
}

#[test]
fn record_ignores_timestamp_and_checks_length() {
    let mut r = InputEvent::new(EV_REL, REL_X, -7).to_record();
    for b in r.iter_mut().take(16) {
        *b = 0xaa;
    }
    assert_eq!(InputEvent::from_record(&r), Some(InputEvent::new(EV_REL, REL_X, -7)));
    assert_eq!(InputEvent::from_record(&r[..23]), None);
    assert_eq!(InputEvent::from_record(&[]), None);
}

#[test]
fn errno_sign_is_normalized() {
    assert_eq!(errno_from_return(-22), 22);
    assert_eq!(errno_from_return(19), 19);
    assert_eq!(errno_from_return(0), 0);
    assert_eq!(errno_from_return(i32::MIN), 2147483648);
}

#[test]
fn reply_maps_to_result() {
    assert_eq!(reply_result(0), Ok(()));
    assert_eq!(reply_result(-19), Err(DeviceError::Os(19)));
    assert_eq!(reply_result(13), Err(DeviceError::Os(13)));
}
