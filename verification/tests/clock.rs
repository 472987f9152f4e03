use munic_simulator::clock::offset_from_now;
use munic_simulator::clock::period_bounded;
use munic_simulator::clock::{event_stamp, field_due, replay_delay, seconds_between, Due};

#[test]
fn delay_between_two_events() {
    assert_eq!(
        replay_delay("2023-02-08T10:00:00Z", "2023-02-08T10:00:05Z"),
        Some(5)
    );
    assert_eq!(
        replay_delay("2023-02-08T10:00:00+01:00", "2023-02-08T09:01:00Z"),
        Some(60)
    );
}

#[test]
fn no_delay_for_an_earlier_event() {
    assert_eq!(
        replay_delay("2023-02-08T10:00:05Z", "2023-02-08T10:00:00Z"),
        Some(0)
    );
    assert_eq!(seconds_between(10, 10), 0);
    assert_eq!(seconds_between(i64::MIN, i64::MAX), u64::MAX);
}

#[test]
fn no_delay_for_a_bad_stamp() {
    assert_eq!(replay_delay("yesterday", "2023-02-08T10:00:00Z"), None);
    assert_eq!(replay_delay("2023-02-08T10:00:00Z", ""), None);
}

#[test]
fn stamp_falls_back_to_reception_time() {
    assert_eq!(
        event_stamp(Some("t".to_string()), Some("r".to_string())),
        Some("t".to_string())
    );
    assert_eq!(event_stamp(None, Some("r".to_string())), Some("r".to_string()));
    assert_eq!(event_stamp(None, None), None);
}

#[test]
fn fields_are_due_after_their_period() {
    assert!(matches!(field_due(15_000_000_000, "15s"), Due::Yes));
    assert!(matches!(field_due(14_999_999_999, "15s"), Due::No));
    assert!(matches!(field_due(0, "0"), Due::Yes));
    assert!(matches!(field_due(120_000_000_000, "2min"), Due::Yes));
    assert!(matches!(field_due(1, "soon"), Due::BadPeriod));
}

#[test]
fn waits_between_successive_events_add_up() {
    let a = "2023-02-08T10:00:00Z";
    let b = "2023-02-08T10:00:07Z";
    let c = "2023-02-08T10:01:00Z";
    assert_eq!(
        replay_delay(a, b).unwrap() + replay_delay(b, c).unwrap(),
        replay_delay(a, c).unwrap()
    );
}

#[test]
fn a_due_field_stays_due() {
    for elapsed in [60_000_000_000u128, 61_000_000_000, 1_000_000_000_000] {
        assert!(matches!(field_due(elapsed, "1min"), Due::Yes));
    }
}

#[test]
fn periods_are_bounded_by_their_digits() {
    assert!(period_bounded("1hour 12min 5s"));
    assert!(period_bounded("99999999999s"));
    assert!(!period_bounded("999999999999s"));
    assert!(!period_bounded("18446744073709551615s 1000000000ns"));
}

#[test]
fn offset_from_now_reads_rfc3339() {
    assert_eq!(offset_from_now(Some("1970-01-01T00:01:00Z"), 0), Some(60));
    assert_eq!(offset_from_now(Some("1970-01-01T00:01:00Z"), 100), Some(-40));
    assert_eq!(offset_from_now(Some("2023-02-08T10:00:00+01:00"), 1675846800), Some(0));
    assert_eq!(offset_from_now(Some("yesterday"), 0), None);
    assert_eq!(offset_from_now(None, 0), None);
}
