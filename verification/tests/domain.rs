use notification::domain::{
    can_transition, AttemptStatus, DeliveryStatus, RetryKind, RetryPolicy, MAX_SAFE_WIRE_INTEGER,
};
use notification::time::{format_template_time, format_time, valid_time, UtcTime};

fn now() -> UtcTime {
    let now = chrono::Utc::now();
    UtcTime::at(now.timestamp(), now.timestamp_subsec_nanos()).expect("valid instant")
}

fn after(time: UtcTime, step: chrono::Duration) -> UtcTime {
    let time = chrono::DateTime::from_timestamp(time.seconds, time.nanos).expect("instant");
    let sum = time + step;
    UtcTime::at(sum.timestamp(), sum.timestamp_subsec_nanos()).expect("valid instant")
}

const STATUSES: [DeliveryStatus; 7] = [
    DeliveryStatus::Queued,
    DeliveryStatus::Attempting,
    DeliveryStatus::Accepted,
    DeliveryStatus::RetryScheduled,
    DeliveryStatus::Delivered,
    DeliveryStatus::Failed,
    DeliveryStatus::DeliveryUnknown,
];

#[test]
fn delivery_state_machine_rejects_regressions_and_unknown_retry() {
    assert!(can_transition(
        DeliveryStatus::Queued,
        DeliveryStatus::Attempting
    ));
    assert!(can_transition(
        DeliveryStatus::Accepted,
        DeliveryStatus::Delivered
    ));
    assert!(!can_transition(
        DeliveryStatus::Accepted,
        DeliveryStatus::Queued
    ));
    assert!(!can_transition(
        DeliveryStatus::DeliveryUnknown,
        DeliveryStatus::RetryScheduled
    ));
    assert!(!can_transition(
        DeliveryStatus::Delivered,
        DeliveryStatus::RetryScheduled
    ));
}

#[test]
fn retry_policy_is_bounded() {
    let policy = RetryPolicy::default();
    let now = now();
    assert_eq!(
        policy.next_at(1, now),
        Some(after(now, chrono::Duration::seconds(60)))
    );
    assert!(policy.next_at(4, now).is_none());
}

#[test]
fn retry_delays_grow_and_end() {
    let policy = RetryPolicy::default();
    let now = now();
    assert_eq!(
        policy.next_at(2, now),
        Some(after(now, chrono::Duration::seconds(300)))
    );
    assert_eq!(
        policy.next_at(3, now),
        Some(after(now, chrono::Duration::seconds(1_800)))
    );
    assert!(policy.next_at(0, now).is_none());
    assert!(policy.next_at(-1, now).is_none());
    assert!(RetryPolicy::with_max_attempts(2).next_at(2, now).is_none());
    assert!(RetryPolicy::with_max_attempts(10).next_at(4, now).is_none());
}

#[test]
fn status_names_read_back() {
    for status in STATUSES {
        assert_eq!(DeliveryStatus::from_name(status.as_str()), Some(status));
        assert_eq!(status.as_str().parse::<DeliveryStatus>(), Ok(status));
    }
    assert_eq!(DeliveryStatus::from_name("sent"), None);
    assert_eq!(
        "sent".parse::<DeliveryStatus>(),
        Err("unknown delivery status")
    );
    assert_eq!(AttemptStatus::Dispatching.as_str(), "dispatching");
    assert_eq!(AttemptStatus::Accepted.as_str(), "accepted");
    assert_eq!(AttemptStatus::TemporaryFailure.as_str(), "temporary_failure");
    assert_eq!(AttemptStatus::PermanentFailure.as_str(), "permanent_failure");
    assert_eq!(AttemptStatus::DeliveryUnknown.as_str(), "delivery_unknown");
    assert_eq!(RetryKind::Automatic.as_str(), "automatic");
    assert_eq!(RetryKind::Manual.as_str(), "manual");
    assert_eq!(MAX_SAFE_WIRE_INTEGER, (1_i64 << 53) - 1);
}

#[test]
fn delivered_and_unknown_deliveries_go_nowhere() {
    for from in [DeliveryStatus::Delivered, DeliveryStatus::DeliveryUnknown] {
        assert!(from.is_terminal());
        for to in STATUSES {
            assert!(!can_transition(from, to));
        }
    }
    for from in STATUSES {
        assert!(!can_transition(from, DeliveryStatus::Queued));
    }
    assert!(DeliveryStatus::Failed.is_terminal());
    assert!(!DeliveryStatus::Accepted.is_terminal());
}

#[test]
fn instants_are_calendar_instants() {
    for text in [
        "1970-01-01T00:00:00Z",
        "1969-12-31T23:59:59.999999999Z",
        "2016-12-31T23:59:60Z",
        "0000-01-01T00:00:00Z",
        "9999-12-31T23:59:59Z",
    ] {
        let time = chrono::DateTime::parse_from_rfc3339(text).expect("instant");
        let ours = UtcTime::at(time.timestamp(), time.timestamp_subsec_nanos());
        assert_eq!(
            ours,
            Some(UtcTime {
                seconds: time.timestamp(),
                nanos: time.timestamp_subsec_nanos()
            })
        );
        assert!(format_time(ours.expect("valid")).is_ok());
    }
    assert_eq!(UtcTime::at(0, 1_000_000_000), None);
    assert_eq!(UtcTime::at(-1, 1_000_000_000), Some(UtcTime { seconds: -1, nanos: 1_000_000_000 }));
    assert_eq!(UtcTime::at(-2, 1_000_000_000), None);
    assert_eq!(UtcTime::at(59, 2_000_000_000), None);
    let first = chrono::DateTime::<chrono::Utc>::MIN_UTC.timestamp();
    let last = chrono::DateTime::<chrono::Utc>::MAX_UTC.timestamp();
    assert!(UtcTime::at(first, 0).is_some());
    assert!(UtcTime::at(first - 1, 0).is_none());
    assert!(UtcTime::at(last, 0).is_some());
    assert!(UtcTime::at(last + 1, 0).is_none());
}

#[test]
fn room_ends_with_the_calendar() {
    let last = chrono::DateTime::<chrono::Utc>::MAX_UTC.timestamp();
    let time = UtcTime::at(last - 60, 0).expect("valid instant");
    assert!(time.has_room(60_000));
    assert!(time.has_room(60_999));
    assert!(!time.has_room(61_000));
    let leap = UtcTime::at(59, 1_500_000_000).expect("leap second");
    assert!(leap.has_room(0));
    assert!(leap.has_room(u64::from(u32::MAX)));
}

#[test]
fn texts_of_instants_stay_in_four_digit_years() {
    let seconds = |text: &str| chrono::DateTime::parse_from_rfc3339(text).expect("instant").timestamp();
    let first = seconds("0000-01-01T00:00:00Z");
    let last = seconds("9999-12-31T23:59:59Z");
    let at = |seconds: i64, nanos: u32| UtcTime::at(seconds, nanos).expect("valid instant");
    assert_eq!(format_time(at(first, 0)).expect("text"), "0000-01-01T00:00:00.000Z");
    assert!(format_time(at(first - 1, 999_999_999)).is_err());
    assert_eq!(format_time(at(last, 999_000_000)).expect("text"), "9999-12-31T23:59:59.999Z");
    assert!(format_time(at(last + 1, 0)).is_err());
    for year in -3..=2_400 {
        let start = chrono::NaiveDate::from_ymd_opt(year, 1, 1)
            .expect("date")
            .and_hms_opt(0, 0, 0)
            .expect("time")
            .and_utc()
            .timestamp();
        assert_eq!(format_time(at(start, 0)).is_ok(), year >= 0);
        assert_eq!(format_time(at(start - 1, 0)).is_ok(), year > 0);
    }
    assert_eq!(
        format_template_time(at(seconds("2026-09-01T00:00:00Z"), 123_456_789)),
        "2026-09-01T00:00:00Z"
    );
}

#[test]
fn time_texts_are_bounded() {
    assert!(valid_time("2026-08-30T00:00:00Z"));
    assert!(valid_time("2026-08-30T02:00:00.5+02:00"));
    assert!(!valid_time(""));
    assert!(!valid_time("2026-08-30"));
    assert!(!valid_time(&format!("2026-08-30T00:00:00.{}Z", "1".repeat(50))));
    assert!(valid_time(&format!("2026-08-30T00:00:00.{}Z", "1".repeat(43))));
}
