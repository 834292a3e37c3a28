use ntp64::NTP64;
use std::time::{Duration, UNIX_EPOCH};

/// The timestamp in seconds as a float: seconds plus fraction over 2^32.
fn secs_f64(t: &NTP64) -> f64 {
    let secs: f64 = t.as_secs() as f64;
    let subsec: f64 = ((t.as_u64() & 0xFFFF_FFFFu64) as f64) / (1u64 << 32) as f64;
    secs + subsec
}

#[test]
fn as_secs_f64() {
    let epoch = NTP64::default();
    assert_eq!(secs_f64(&epoch), 0f64);

    let epoch_plus_1 = NTP64(1);
    assert!(epoch_plus_1 > epoch);
    assert!(secs_f64(&epoch_plus_1) > secs_f64(&epoch));

    // the precision stays under 3.5 ns even with the four low bits taken
    let epoch_plus_counter_max = NTP64((1u64 << 4) - 1);
    println!(
        "Time precision = {} ns",
        secs_f64(&epoch_plus_counter_max) * (1_000_000_000u64 as f64)
    );
    assert!(secs_f64(&epoch_plus_counter_max) < 0.0000000035f64);
}

#[test]
fn default_is_zero() {
    assert_eq!(NTP64::default().as_u64(), 0);
    assert_eq!(NTP64::default().as_secs(), 0);
    assert_eq!(NTP64::default().subsec_nanos(), 0);
    assert!(NTP64::default() == NTP64(0));
}

#[test]
fn accessors_split_the_raw_value() {
    let t = NTP64(7386690599959157260);
    assert_eq!(t.as_u64(), 7386690599959157260);
    assert_eq!(t.as_secs(), 1719847926);
    assert_eq!(t.subsec_nanos(), 860479000);
    assert_eq!(NTP64(u64::MAX).as_secs(), u32::MAX);
    assert_eq!(NTP64(0xFFFF_FFFF).as_secs(), 0);
    assert_eq!(NTP64(0x1_0000_0000).as_secs(), 1);
}

#[test]
fn subsec_nanos_rounds_down() {
    assert_eq!(NTP64(0).subsec_nanos(), 0);
    assert_eq!(NTP64(1).subsec_nanos(), 0);
    assert_eq!(NTP64(4).subsec_nanos(), 0);
    assert_eq!(NTP64(5).subsec_nanos(), 1);
    assert_eq!(NTP64(0x8000_0000).subsec_nanos(), 500_000_000);
    assert_eq!(NTP64(0xFFFF_FFFF).subsec_nanos(), 999_999_999);
    assert_eq!(NTP64(0x7_FFFF_FFFF).subsec_nanos(), 999_999_999);
}

#[test]
fn from_duration_adds_one_unit() {
    let t = NTP64::from(Duration::new(10000, 500_000_000));
    assert_eq!(t.as_secs(), 10000);
    assert_eq!(t.subsec_nanos(), 500_000_000);
    assert!(t.subsec_nanos().abs_diff(500_000_000) <= 1);
    assert_eq!(t.as_u64(), (10000u64 << 32) + (1u64 << 31) + 1);

    assert_eq!(NTP64::from(Duration::new(0, 0)).as_u64(), 1);
    assert_eq!(NTP64::from(Duration::new(0, 1)).as_u64(), 5);
    assert_eq!(
        NTP64::from(Duration::new(u32::MAX as u64, 999_999_999)).as_u64(),
        ((u32::MAX as u64) << 32) + 4_294_967_292
    );
}

#[test]
fn duration_survives_the_timestamp() {
    for (secs, nanos) in [
        (0u64, 0u32),
        (0, 1),
        (1, 999_999_999),
        (10000, 500_000_000),
        (1719847926, 860479000),
        (u32::MAX as u64, 999_999_999),
    ] {
        let d = Duration::new(secs, nanos);
        assert_eq!(NTP64::from(d).to_duration(), d);
    }
}

#[test]
fn timestamp_nearly_survives_the_duration() {
    for raw in [0u64, 1, 4, 5, 0xFFFF_FFFF, 7386690599959157260, u64::MAX] {
        let back = NTP64::from(NTP64(raw).to_duration()).as_u64();
        assert!(back as i128 >= raw as i128 - 4);
        assert!(back as i128 <= raw as i128 + 1);
    }
}

#[test]
fn to_duration_takes_both_parts() {
    assert_eq!(
        NTP64(7386690599959157260).to_duration(),
        Duration::new(1719847926, 860479000)
    );
    assert_eq!(NTP64(0).to_duration(), Duration::new(0, 0));
}

#[test]
fn to_system_time_counts_from_the_epoch() {
    let t = NTP64(7386690599959157260);
    assert_eq!(
        t.to_system_time(),
        UNIX_EPOCH + Duration::new(1719847926, 860479000)
    );
    assert_eq!(
        t.to_system_time().duration_since(UNIX_EPOCH).unwrap(),
        t.to_duration()
    );
    assert_eq!(NTP64(0).to_system_time(), UNIX_EPOCH);
}

#[test]
fn order_is_that_of_the_raw_value() {
    let pairs = [
        (0u64, 1u64),
        (1, 0),
        (5, 5),
        (0xFFFF_FFFF, 0x1_0000_0000),
        (u64::MAX, 0),
        (u64::MAX - 1, u64::MAX),
    ];
    for (a, b) in pairs {
        assert_eq!(a < b, NTP64(a) < NTP64(b));
        assert_eq!(a <= b, NTP64(a) <= NTP64(b));
        assert_eq!(a > b, NTP64(a) > NTP64(b));
        assert_eq!(a >= b, NTP64(a) >= NTP64(b));
        assert_eq!(a == b, NTP64(a) == NTP64(b));
        assert_eq!(a.partial_cmp(&b), NTP64(a).partial_cmp(&NTP64(b)));
        assert_eq!(a.cmp(&b), NTP64(a).cmp(&NTP64(b)));
    }
}
