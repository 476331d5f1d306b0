use uinput_core::paths::{devnode_from_entries, guess_sysname, is_event_name, syspath_for, SysfsEntry};

#[test]
fn syspath_joins_sysname() {
    assert_eq!(syspath_for(&b"input12".to_vec()), b"/sys/devices/virtual/input/input12".to_vec());
    assert_eq!(syspath_for(&Vec::new()), b"/sys/devices/virtual/input/".to_vec());
}

#[test]
fn event_names() {
    assert!(is_event_name(&b"event0".to_vec()));
    assert!(is_event_name(&b"event".to_vec()));
    assert!(!is_event_name(&b"even".to_vec()));
    assert!(!is_event_name(&b"mouse0".to_vec()));
}

#[test]
fn devnode_takes_first_event_entry() {
    let entries = vec![b"uevent_x".to_vec(), b"event9".to_vec(), b"event2".to_vec()];
    assert_eq!(devnode_from_entries(&entries), Some(b"/dev/input/event9".to_vec()));
    assert_eq!(devnode_from_entries(&vec![b"power".to_vec()]), None);
    assert_eq!(devnode_from_entries(&Vec::new()), None);
}

fn entry(sysname: &[u8], name: &[u8], created: u64) -> SysfsEntry {
    SysfsEntry { sysname: sysname.to_vec(), name: name.to_vec(), created }
}

#[test]
fn guess_takes_the_one_recent_device_of_that_name() {
    let entries = vec![
        entry(b"input1", b"pad", 100),
        entry(b"input2", b"pad", 200),
        entry(b"input3", b"mouse", 210),
        entry(b"mice", b"pad", 220),
    ];
    assert_eq!(guess_sysname(&b"pad".to_vec(), 150, &entries), Some(b"input2".to_vec()));
    assert_eq!(guess_sysname(&b"mouse".to_vec(), 150, &entries), Some(b"input3".to_vec()));
}

#[test]
fn guess_gives_up_when_ambiguous_or_absent() {
    let entries = vec![entry(b"input1", b"pad", 100), entry(b"input2", b"pad", 200)];
    assert_eq!(guess_sysname(&b"pad".to_vec(), 50, &entries), None);
    assert_eq!(guess_sysname(&b"pad".to_vec(), 300, &entries), None);
    assert_eq!(guess_sysname(&b"pen".to_vec(), 0, &entries), None);
    assert_eq!(guess_sysname(&b"pad".to_vec(), 0, &Vec::new()), None);
}
