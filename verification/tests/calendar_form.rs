use ntp64::calendar::read_rfc3339;
use ntp64::NTP64;
use regex::Regex;
use std::time::{Duration, SystemTime, UNIX_EPOCH};

fn calendar_pattern() -> Regex {
    Regex::new(
        r"^[0-9][0-9][0-9][0-9]-[0-9][0-9]-[0-9][0-9]T[0-9][0-9]:[0-9][0-9]:[0-9][0-9].[0-9][0-9][0-9][0-9][0-9][0-9][0-9][0-9][0-9]Z$"
    ).unwrap()
}

#[test]
fn rfc3339_conversion() {
    let rfc3339_regex = Regex::new(
        r"^[0-9][0-9][0-9][0-9]-[0-9][0-9]-[0-9][0-9]T[0-9][0-9]:[0-9][0-9]:[0-9][0-9].[0-9][0-9][0-9][0-9][0-9][0-9][0-9][0-9][0-9]Z$"
    ).unwrap();

    let now = SystemTime::now();
    let t = NTP64::from(now.duration_since(UNIX_EPOCH).unwrap());

    let rfc3339 = t.to_string_rfc3339_lossy();
    assert_eq!(rfc3339, humantime::format_rfc3339_nanos(now).to_string());
    assert!(rfc3339_regex.is_match(&rfc3339));

    // The alternate form, which a format string asks for with "{t:#}".
    let rfc3339_2 = t.fmt(true);
    assert_eq!(rfc3339_2, humantime::format_rfc3339_nanos(now).to_string());
    assert!(rfc3339_regex.is_match(&rfc3339_2));
}

#[test]
fn calendar_rendering_of_known_value() {
    let t = NTP64(7386690599959157260);
    assert_eq!(t.to_string(), "7386690599959157260");
    assert_eq!(t.to_string_rfc3339_lossy(), "2024-07-01T15:32:06.860479000Z");
    assert_eq!(t.fmt(true), "2024-07-01T15:32:06.860479000Z");
}

#[test]
fn calendar_rendering_has_the_shape() {
    let strict = Regex::new(r"^\d{4}-\d{2}-\d{2}T\d{2}:\d{2}:\d{2}\.\d{9}Z$").unwrap();
    for raw in [
        0u64,
        1,
        0xFFFF_FFFF,
        0x1_0000_0000,
        7386690599959157260,
        u64::MAX - 1,
        u64::MAX,
    ] {
        let text = NTP64(raw).to_string_rfc3339_lossy();
        assert_eq!(text.len(), 30);
        assert!(calendar_pattern().is_match(&text));
        assert!(strict.is_match(&text));
    }
    assert_eq!(
        NTP64(0).to_string_rfc3339_lossy(),
        "1970-01-01T00:00:00.000000000Z"
    );
    assert_eq!(
        NTP64(u64::MAX).to_string_rfc3339_lossy(),
        "2106-02-07T06:28:15.999999999Z"
    );
}

#[test]
fn the_two_renderings_differ() {
    for raw in [0u64, 1, 42, 7386690599959157260, u64::MAX] {
        let t = NTP64(raw);
        assert_ne!(t.fmt(false), t.fmt(true));
        assert_ne!(t.to_string(), t.to_string_rfc3339_lossy());
    }
}

#[test]
fn calendar_parse_refuses_what_is_no_date() {
    let e = NTP64::parse_rfc3339("not-a-date").err().unwrap();
    assert_eq!(
        e.cause,
        "Failed to parse 'not-a-date' : invalid RFC3339 format"
    );
    assert!(e.cause.contains("invalid RFC3339 format"));
    assert!(e.cause.contains("not-a-date"));
    for text in ["", "2024-07-01", "2024-13-01T00:00:00Z", "1969-12-31T23:59:59Z"] {
        let e = NTP64::parse_rfc3339(text).err().unwrap();
        assert_eq!(
            e.cause,
            format!("Failed to parse '{}' : invalid RFC3339 format", text)
        );
    }
}

#[test]
fn calendar_parse_reads_the_instant() {
    let t = NTP64::parse_rfc3339("2024-07-01T15:32:06.860479000Z")
        .ok()
        .unwrap();
    assert_eq!(t.as_secs(), 1719847926);
    assert_eq!(t.subsec_nanos(), 860479000);
    assert!(t == NTP64::from(Duration::new(1719847926, 860479000)));

    let epoch = NTP64::parse_rfc3339("1970-01-01T00:00:00Z").ok().unwrap();
    assert_eq!(epoch.as_u64(), 1);
}

#[test]
fn calendar_round_trip_keeps_the_text_not_the_value() {
    for raw in [0u64, 3, 0xFFFF_FFFF, 7386690599959157263, u64::MAX] {
        let t = NTP64(raw);
        let text = t.to_string_rfc3339_lossy();
        let back = NTP64::parse_rfc3339(&text).ok().unwrap();
        assert_eq!(back.to_string_rfc3339_lossy(), text);
        assert!(back != t);
        assert_eq!(back.as_secs(), t.as_secs());
        assert_eq!(back.subsec_nanos(), t.subsec_nanos());
    }
    let zero = NTP64::parse_rfc3339(&NTP64(0).to_string_rfc3339_lossy())
        .ok()
        .unwrap();
    assert_eq!(zero.as_u64(), 1);
}

#[test]
fn try_parse_tells_an_instant_out_of_range() {
    assert!(NTP64::try_parse_rfc3339("2200-01-01T00:00:00Z").is_none());
    assert!(NTP64::try_parse_rfc3339("2106-02-07T06:28:16Z").is_none());
    let last = NTP64::try_parse_rfc3339("2106-02-07T06:28:15Z")
        .unwrap()
        .ok()
        .unwrap();
    assert_eq!(last.as_secs(), u32::MAX);
    let t = NTP64::try_parse_rfc3339("2024-07-01T15:32:06.860479000Z")
        .unwrap()
        .ok()
        .unwrap();
    assert_eq!(t.as_secs(), 1719847926);
    let e = NTP64::try_parse_rfc3339("not-a-date").unwrap().err().unwrap();
    assert_eq!(
        e.cause,
        "Failed to parse 'not-a-date' : invalid RFC3339 format"
    );
}

#[test]
fn reading_a_text_gives_its_instant() {
    assert_eq!(
        read_rfc3339("2024-07-01T15:32:06.860479000Z"),
        Some(Duration::new(1719847926, 860479000))
    );
    assert_eq!(
        read_rfc3339("2200-01-01T00:00:00Z"),
        Some(Duration::new(7258118400, 0))
    );
    assert_eq!(read_rfc3339("nonsense"), None);
    assert_eq!(read_rfc3339("1969-12-31T23:59:59Z"), None);
}

#[test]
fn every_reading_has_its_outcome() {
    let t = NTP64::from_reading("x", Some(Duration::new(10000, 500_000_000)))
        .ok()
        .unwrap();
    assert_eq!(t.as_u64(), (10000u64 << 32) + (1u64 << 31) + 1);

    let e = NTP64::from_reading("1969-01-01T00:00:00Z", None)
        .err()
        .unwrap();
    assert_eq!(
        e.cause,
        "Failed to parse '1969-01-01T00:00:00Z' : invalid RFC3339 format"
    );

    let e = NTP64::from_reading("abc", None).err().unwrap();
    assert_eq!(e.cause, "Failed to parse 'abc' : invalid RFC3339 format");
}
