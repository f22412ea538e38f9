use pyxis_fs::attr::{EpochOffset, Timestamp, NANOS_PER_SEC};

#[test]
fn instants_after_the_epoch() {
    assert_eq!(Timestamp::after_epoch(0, 0), Some(Timestamp { secs: 0, nanos: 0 }));
    assert_eq!(
        Timestamp::after_epoch(1_600_000_000, 123_456_789),
        Some(Timestamp { secs: 1_600_000_000, nanos: 123_456_789 })
    );
    assert_eq!(
        Timestamp::after_epoch(i64::MAX as u64, 999_999_999),
        Some(Timestamp { secs: i64::MAX, nanos: 999_999_999 })
    );
    assert_eq!(Timestamp::after_epoch(i64::MAX as u64 + 1, 0), None);
    assert_eq!(Timestamp::after_epoch(u64::MAX, 0), None);
}

#[test]
fn instants_before_the_epoch() {
    assert_eq!(Timestamp::before_epoch(0, 0), Some(Timestamp { secs: 0, nanos: 0 }));
    assert_eq!(Timestamp::before_epoch(5, 0), Some(Timestamp { secs: -5, nanos: 0 }));
    // a quarter of a second before the epoch: the second before, and three quarters
    assert_eq!(
        Timestamp::before_epoch(0, 250_000_000),
        Some(Timestamp { secs: -1, nanos: 750_000_000 })
    );
    assert_eq!(Timestamp::before_epoch(1, 1), Some(Timestamp { secs: -2, nanos: 999_999_999 }));
    assert_eq!(
        Timestamp::before_epoch(1 << 63, 0),
        Some(Timestamp { secs: i64::MIN, nanos: 0 })
    );
    assert_eq!(
        Timestamp::before_epoch(i64::MAX as u64, 1),
        Some(Timestamp { secs: i64::MIN, nanos: 999_999_999 })
    );
    assert_eq!(Timestamp::before_epoch(1 << 63, 1), None);
    assert_eq!(Timestamp::before_epoch(u64::MAX, 0), None);
    assert_eq!(Timestamp::before_epoch(0, NANOS_PER_SEC), None);
    assert_eq!(Timestamp::before_epoch(0, u32::MAX), None);
}

#[test]
fn distance_from_the_epoch() {
    assert_eq!(
        Timestamp { secs: 0, nanos: 0 }.epoch_offset(),
        EpochOffset { before: false, secs: 0, nanos: 0 }
    );
    assert_eq!(
        Timestamp { secs: 7, nanos: 8 }.epoch_offset(),
        EpochOffset { before: false, secs: 7, nanos: 8 }
    );
    assert_eq!(
        Timestamp { secs: -1, nanos: 750_000_000 }.epoch_offset(),
        EpochOffset { before: true, secs: 0, nanos: 250_000_000 }
    );
    assert_eq!(
        Timestamp { secs: -5, nanos: 0 }.epoch_offset(),
        EpochOffset { before: true, secs: 5, nanos: 0 }
    );
    assert_eq!(
        Timestamp { secs: i64::MIN, nanos: 0 }.epoch_offset(),
        EpochOffset { before: true, secs: 1 << 63, nanos: 0 }
    );
    assert_eq!(
        Timestamp { secs: i64::MAX, nanos: 999_999_999 }.epoch_offset(),
        EpochOffset { before: false, secs: i64::MAX as u64, nanos: 999_999_999 }
    );
    // nanoseconds of a second or more carry into the seconds
    assert_eq!(
        Timestamp { secs: 1, nanos: 2_500_000_000 }.epoch_offset(),
        EpochOffset { before: false, secs: 3, nanos: 500_000_000 }
    );
    assert_eq!(
        Timestamp { secs: -1, nanos: 1_000_000_001 }.epoch_offset(),
        EpochOffset { before: false, secs: 0, nanos: 1 }
    );
}

#[test]
fn offsets_and_instants_agree() {
    let cases: [(u64, u32); 5] =
        [(0, 1), (1, 0), (1_600_000_000, 999_999_999), (86_400, 500), (1 << 62, 7)];
    for (secs, nanos) in cases {
        let after = Timestamp::after_epoch(secs, nanos).expect("an instant");
        assert_eq!(after.epoch_offset(), EpochOffset { before: false, secs, nanos });
        let before = Timestamp::before_epoch(secs, nanos).expect("an instant");
        assert_eq!(before.epoch_offset(), EpochOffset { before: true, secs, nanos });
    }
}
