use time_server_utils::address::choose_protocol;
use time_server_utils::address::is_http_address;
use time_server_utils::address::ntp_host;
use time_server_utils::address::request_url;
use time_server_utils::address::validate_server_address;
use time_server_utils::address::Protocol;
use time_server_utils::errors::TimeError;
use time_server_utils::estimator::direction_of;
use time_server_utils::estimator::estimate_offset;
use time_server_utils::estimator::offset_and_delay;
use time_server_utils::estimator::offset_two_timestamp;
use time_server_utils::estimator::Config;
use time_server_utils::estimator::Direction;
use time_server_utils::estimator::EstimateOutcome;
use time_server_utils::estimator::Exchange;
use time_server_utils::estimator::OffsetEstimate;
use time_server_utils::estimator::RemoteReading;
use time_server_utils::response::time;
use time_server_utils::response::time_query;
use time_server_utils::verdict::bare_string;
use time_server_utils::verdict::verdict_string;
use time_server_utils::Status;

fn config(bare: bool, seconds: bool, timeout_ms: u64, compensate_latency: bool) -> Config {
    Config { bare, seconds, timeout_ms, compensate_latency }
}

fn reported(
    t1_ms: u64,
    t4_ms: u64,
    unix: u64,
    unix_ms: u64,
    diff_ms: Option<i128>,
    diff_s: Option<i128>,
) -> Exchange {
    Exchange { t1_ms, t4_ms, remote: RemoteReading::Reported { unix, unix_ms, diff_ms, diff_s } }
}

#[test]
fn canonical_four_timestamp_formulas() {
    // offset = ((T2-T1) + (T3-T4)) / 2, delay = (T4-T1) - (T3-T2)
    assert_eq!(offset_and_delay(100, 150, 160, 120), (45, 10));
    assert_eq!(offset_and_delay(0, 0, 0, 0), (0, 0));
    // remote clock behind: a negative offset, truncated toward zero
    assert_eq!(offset_and_delay(100, 50, 60, 113), (-51, 3));
    // an odd skew sum truncates toward zero, also when negative
    assert_eq!(offset_and_delay(0, 0, 0, 3), (-1, 3));
    // the largest representable timestamps still work
    assert_eq!(offset_and_delay(u64::MAX, u64::MAX, u64::MAX, u64::MAX), (0, 0));
    assert_eq!(offset_and_delay(0, u64::MAX, u64::MAX, 0), (u64::MAX as i128, 0));
}

#[test]
fn two_timestamp_form_subtracts_the_one_way_delay() {
    // S = 1500, T1 = 1000, round trip 200ms: 1500 - 1000 - 100 = 400
    assert_eq!(offset_two_timestamp(1000, 1200, 1500), 400);
    // a server behind the client gives a negative offset
    assert_eq!(offset_two_timestamp(1000, 1100, 900), -150);
    assert_eq!(offset_two_timestamp(1000, 1000, 1000), 0);
}

#[test]
fn propagation_delay_cancels() {
    let mut seen = Vec::new();
    for d in [0u64, 1, 10, 250] {
        let (offset, _) = offset_and_delay(1000, 1000 + d, 2000 - d, 2000);
        seen.push(offset);
    }
    assert!(seen.iter().all(|o| *o == seen[0]));
}

#[test]
fn identical_timestamps_read_in_sync() {
    let record = Exchange {
        t1_ms: 1000,
        t4_ms: 1000,
        remote: RemoteReading::Bracketed { t2_ms: 1000, t3_ms: 1000 },
    };
    let outcome = estimate_offset(record, config(false, false, 1000, false)).unwrap();
    let estimate = match outcome {
        EstimateOutcome::Offset { estimate } => estimate,
        EstimateOutcome::Bare { .. } => panic!("not bare"),
    };
    assert_eq!(estimate.offset_ms, 0);
    assert_eq!(verdict_string(estimate.offset_ms, false), "clock is in sync");
    assert_eq!(verdict_string(estimate.offset_ms, true), "clock is in sync");
}

#[test]
fn sign_decides_direction() {
    assert_eq!(direction_of(5), Direction::Behind);
    assert_eq!(direction_of(-5), Direction::Ahead);
    assert_eq!(direction_of(0), Direction::InSync);
    assert_eq!(verdict_string(500, false), "500ms behind");
    assert_eq!(verdict_string(-500, false), "500ms ahead");
}

#[test]
fn seconds_verdicts_round_to_two_decimals() {
    assert_eq!(verdict_string(1236, true), "1.24s behind");
    assert_eq!(verdict_string(-1500, true), "1.5s ahead");
    assert_eq!(verdict_string(2000, true), "2s behind");
    assert_eq!(verdict_string(5, true), "0.01s behind");
    // a magnitude that rounds to zero hundredths reads as in sync
    assert_eq!(verdict_string(4, true), "clock is in sync");
}

#[test]
fn timeout_bound_is_inclusive() {
    let record = reported(0, 1001, 1, 1500, Some(500), None);
    let r = estimate_offset(record, config(false, false, 1000, false));
    assert!(matches!(r, Err(TimeError::RequestTooSlow { elapsed_ms: 1001 })));

    let record = reported(0, 1000, 1, 1500, Some(500), None);
    let r = estimate_offset(record, config(false, false, 1000, false));
    assert!(r.is_ok());
}

#[test]
fn too_slow_exchanges_are_discarded_in_bare_mode_too() {
    let record = reported(0, 1001, 1, 1500, None, None);
    let r = estimate_offset(record, config(true, false, 1000, false));
    assert!(matches!(r, Err(TimeError::RequestTooSlow { elapsed_ms: 1001 })));
}

#[test]
fn server_reported_difference_end_to_end() {
    // local T1 = 1000, round trip 200ms, server reports diff_ms = 500
    let record = reported(1000, 1200, 1, 1500, Some(500), None);

    let r = estimate_offset(record, config(false, false, 1000, false)).unwrap();
    assert_eq!(
        r,
        EstimateOutcome::Offset {
            estimate: OffsetEstimate { offset_ms: 500, round_trip_ms: 200 }
        }
    );
    assert_eq!(verdict_string(500, false), "500ms behind");

    // with latency compensation, half the measured round trip is subtracted
    let r = estimate_offset(record, config(false, false, 1000, true)).unwrap();
    assert_eq!(
        r,
        EstimateOutcome::Offset {
            estimate: OffsetEstimate { offset_ms: 400, round_trip_ms: 200 }
        }
    );
    assert_eq!(verdict_string(400, false), "400ms behind");
}

#[test]
fn bare_mode_never_needs_a_difference() {
    let record = reported(1000, 1010, 1_700_000_000, 1_700_000_000_123, None, None);
    let r = estimate_offset(record, config(true, true, 1000, false)).unwrap();
    let value = match r {
        EstimateOutcome::Bare { value } => value,
        EstimateOutcome::Offset { .. } => panic!("bare mode computed an offset"),
    };
    assert_eq!(value, 1_700_000_000);
    assert_eq!(bare_string(value), "1700000000");

    // milliseconds when seconds are not requested
    let r = estimate_offset(record, config(true, false, 1000, false)).unwrap();
    assert_eq!(r, EstimateOutcome::Bare { value: 1_700_000_000_123 });
}

#[test]
fn missing_difference_is_a_protocol_violation() {
    let record = reported(1000, 1200, 1, 1500, None, None);
    let r = estimate_offset(record, config(false, false, 1000, false));
    assert!(matches!(r, Err(TimeError::ProtocolViolation)));
}

#[test]
fn bracketed_exchange_uses_canonical_formulas() {
    let record = Exchange {
        t1_ms: 100,
        t4_ms: 120,
        remote: RemoteReading::Bracketed { t2_ms: 150, t3_ms: 160 },
    };
    let r = estimate_offset(record, config(false, false, 1000, false)).unwrap();
    assert_eq!(
        r,
        EstimateOutcome::Offset { estimate: OffsetEstimate { offset_ms: 45, round_trip_ms: 10 } }
    );
}

#[test]
fn error_messages_and_exit_codes() {
    let slow = TimeError::RequestTooSlow { elapsed_ms: 1001 };
    assert_eq!(slow.message(), "Request took too long (1001ms)");
    assert_eq!(TimeError::ProtocolViolation.message(), "Server did not return a difference");
    let network = TimeError::NetworkFailure { detail: String::from("connection refused") };
    assert_eq!(network.message(), "Error: connection refused");

    let codes = [
        network.exit_code(),
        TimeError::InvalidServerAddress { detail: String::new() }.exit_code(),
        TimeError::HttpStatusError { detail: String::new() }.exit_code(),
        TimeError::ResponseParseError { detail: String::new() }.exit_code(),
        slow.exit_code(),
        TimeError::ProtocolViolation.exit_code(),
    ];
    for (i, a) in codes.iter().enumerate() {
        assert_ne!(*a, 0);
        for b in codes.iter().skip(i + 1) {
            assert_ne!(*a, *b);
        }
    }
}

#[test]
fn server_time_responses() {
    let r = time(1500, 1);
    assert_eq!(r.status, Status::Success);
    assert_eq!(r.result.unix_ms, 1500);
    assert_eq!(r.result.unix, 1);

    let r = time_query(1500, 1, 1000);
    assert_eq!(r.status, Status::Success);
    assert_eq!(r.result.unix_ms, 1500);
    assert_eq!(r.result.unix, 1);
    assert_eq!(r.result.diff_ms, Some(500));
    assert_eq!(r.result.diff_s, Some(1));

    // a difference of 1499ms still rounds to one second, 1500ms to two
    assert_eq!(time_query(2499, 2, 1000).result.diff_s, Some(1));
    assert_eq!(time_query(2500, 2, 1000).result.diff_s, Some(2));

    // the server can be behind the client
    let r = time_query(1000, 1, 1600);
    assert_eq!(r.result.diff_ms, Some(-600));
    assert_eq!(r.result.diff_s, Some(0));
}

#[test]
fn scheme_detection_picks_the_protocol() {
    assert_eq!(choose_protocol("http://localhost:8000/time", false), Protocol::Http);
    assert_eq!(choose_protocol("https://example.com/time", false), Protocol::Http);
    assert_eq!(choose_protocol("time.cloudflare.com:123", false), Protocol::Ntp);
    // the explicit flag forces NTP even for an HTTP URL
    assert_eq!(choose_protocol("http://localhost:8000/time", true), Protocol::Ntp);
    assert!(is_http_address("http://a"));
    assert!(!is_http_address("htt://a"));
}

#[test]
fn ntp_host_substitutes_the_default() {
    assert_eq!(ntp_host("http://localhost:8000/time"), "time.cloudflare.com:123");
    assert_eq!(ntp_host(""), "time.cloudflare.com:123");
    assert_eq!(ntp_host("pool.ntp.org:123"), "pool.ntp.org:123");
}

#[test]
fn request_url_carries_the_send_time() {
    assert_eq!(request_url("http://localhost:8000/time", 123, false), "http://localhost:8000/time?ts=123");
    assert_eq!(request_url("http://localhost:8000/time", 123, true), "http://localhost:8000/time");
}

#[test]
fn server_addresses_are_validated_before_any_request() {
    assert!(validate_server_address("http://example.com/time").is_ok());
    assert!(validate_server_address("https://example.com/time").is_ok());
    // a well-formed URL with the wrong scheme is rejected up front
    assert!(matches!(
        validate_server_address("ftp://example.com/time"),
        Err(TimeError::InvalidServerAddress { .. })
    ));
    // an http prefix alone is not a parseable URL
    assert!(matches!(
        validate_server_address("http://"),
        Err(TimeError::InvalidServerAddress { .. })
    ));
}
