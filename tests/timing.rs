use capacitor_ffmpeg::timebase::{rescale, rescale_timing, PacketTiming, TimeBase};

fn tb(num: i32, den: i32) -> TimeBase {
    TimeBase { num, den }
}

#[test]
fn rescale_exact_values() {
    assert_eq!(rescale(90_000, tb(1, 90_000), tb(1, 1_000)), Some(1_000));
    assert_eq!(rescale(1_000, tb(1, 1_000), tb(1, 90_000)), Some(90_000));
    assert_eq!(rescale(3, tb(1, 25), tb(1, 12_800)), Some(1_536));
    assert_eq!(rescale(0, tb(1, 25), tb(1, 90_000)), Some(0));
}

#[test]
fn rescale_rounds_half_away_from_zero() {
    assert_eq!(rescale(1, tb(1, 2), tb(1, 1)), Some(1));
    assert_eq!(rescale(-1, tb(1, 2), tb(1, 1)), Some(-1));
    assert_eq!(rescale(1, tb(1, 3), tb(1, 1)), Some(0));
    assert_eq!(rescale(2, tb(1, 3), tb(1, 1)), Some(1));
    assert_eq!(rescale(-2, tb(1, 3), tb(1, 1)), Some(-1));
}

#[test]
fn rescale_rejects_unusable_time_base() {
    assert_eq!(rescale(10, tb(0, 0), tb(1, 1_000)), None);
    assert_eq!(rescale(10, tb(1, 1_000), tb(1, 0)), None);
    assert_eq!(rescale(10, tb(-1, 1_000), tb(1, 1_000)), None);
}

#[test]
fn rescale_overflow_gives_no_timestamp() {
    assert_eq!(rescale(i64::MAX, tb(1, 1), tb(1, 1_000)), None);
    assert_eq!(rescale(i64::MIN, tb(1, 1), tb(1, 2)), None);
    assert_eq!(rescale(i64::MAX, tb(1, 1), tb(1, 1)), Some(i64::MAX));
    assert_eq!(rescale(i64::MIN, tb(1, 1), tb(1, 1)), Some(i64::MIN));
}

#[test]
fn timing_rescale_keeps_missing_timestamps() {
    let t = PacketTiming { pts: Some(3_000), dts: None, duration: 1_500 };
    let r = rescale_timing(t, tb(1, 1_000), tb(1, 90_000));
    assert_eq!(r, PacketTiming { pts: Some(270_000), dts: None, duration: 135_000 });
    let t = PacketTiming { pts: None, dts: Some(40), duration: 0 };
    let r = rescale_timing(t, tb(1, 25), tb(1, 1_000));
    assert_eq!(r, PacketTiming { pts: None, dts: Some(1_600), duration: 0 });
    let t = PacketTiming { pts: Some(1), dts: Some(1), duration: -3 };
    let r = rescale_timing(t, tb(1, 1), tb(1, 10));
    assert_eq!(r, PacketTiming { pts: Some(10), dts: Some(10), duration: -3 });
}
