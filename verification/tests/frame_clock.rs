use fightcore::time::Frame;

#[test]
fn new_clock_is_zero() {
    let f = Frame::new();
    assert_eq!(f.frame_with_freeze, 0);
    assert_eq!(f.frame_without_freeze, 0);
}

#[test]
fn counters_track_freeze_flags_exactly() {
    let mut f = Frame::new();
    let flags = [false, true, true, false, false, true, false];
    let mut with = 0usize;
    let mut without = 0usize;
    for frozen in flags {
        let before = f;
        f.tick(frozen);
        with += 1;
        if !frozen {
            without += 1;
        }
        // both counters are non-decreasing, and the without-freeze counter
        // moves exactly on unfrozen calls
        assert!(f.frame_with_freeze >= before.frame_with_freeze);
        assert!(f.frame_without_freeze >= before.frame_without_freeze);
        assert_eq!(f.frame_with_freeze, with);
        assert_eq!(f.frame_without_freeze, without);
    }
    assert_eq!(f.frame_with_freeze, 7);
    assert_eq!(f.frame_without_freeze, 4);
}

#[test]
fn elapsed_frames_are_counter_differences() {
    let mut start = Frame::new();
    start.tick(false);
    let mark = start;
    start.tick(true);
    start.tick(false);
    assert_eq!(start.since_with_freeze(mark), 2);
    assert_eq!(start.since_without_freeze(mark), 1);
}
