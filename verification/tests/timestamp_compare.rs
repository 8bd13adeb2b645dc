use wg_handshake::timestamp::{compare, Tai64N};

fn ts(secs: u64, nanos: u32) -> Tai64N {
    Tai64N { secs, nanos }
}

#[test]
fn strictly_newer_seconds() {
    assert!(compare(&ts(10, 999), &ts(11, 0)));
    assert!(!compare(&ts(11, 0), &ts(10, 999)));
}

#[test]
fn same_seconds_ordered_by_nanos() {
    assert!(compare(&ts(10, 5), &ts(10, 6)));
    assert!(!compare(&ts(10, 6), &ts(10, 5)));
}

#[test]
fn equal_is_not_newer() {
    assert!(!compare(&ts(10, 5), &ts(10, 5)));
    assert!(!compare(&ts(0, 0), &ts(0, 0)));
}

#[test]
fn extremes() {
    assert!(compare(&ts(0, 0), &ts(u64::MAX, u32::MAX)));
    assert!(!compare(&ts(u64::MAX, u32::MAX), &ts(u64::MAX, u32::MAX)));
    assert!(compare(&ts(u64::MAX, u32::MAX - 1), &ts(u64::MAX, u32::MAX)));
}
