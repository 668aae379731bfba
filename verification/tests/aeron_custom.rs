use rusteron::errors::{AeronCError, AeronErrorType};
use rusteron::endpoint::validate_endpoint_for_aeron_udp;
use rusteron::publication::AeronClaim;
use rusteron::status::{publication_position_to_result, AeronStatus, AeronStatusTracker};

#[test]
fn position_to_result_positive_is_ok_position() {
    assert_eq!(publication_position_to_result(0), Ok(0));
    assert_eq!(publication_position_to_result(12_345), Ok(12_345));
}

#[test]
fn position_to_result_back_pressure_is_minus_two() {
    let err = publication_position_to_result(-2).expect_err("-2 is an error");
    assert!(err.is_back_pressured());
    assert_eq!(err.kind(), AeronErrorType::PublicationBackPressured);
}

#[test]
fn position_to_result_closed_is_minus_four() {
    let err = publication_position_to_result(-4).expect_err("-4 is an error");
    assert_eq!(err.kind(), AeronErrorType::PublicationClosed);
}

#[test]
fn position_to_result_not_connected_is_minus_one() {
    let err = publication_position_to_result(-1).expect_err("-1 is an error");
    assert_eq!(err.code, -1);
    assert_eq!(err.kind(), AeronErrorType::GenericError);
}

#[test]
fn position_to_result_unknown_negative_preserves_code() {
    let err = publication_position_to_result(-99).expect_err("-99 is an error");
    assert_eq!(err.code, -99);
    assert_eq!(err.kind(), AeronErrorType::Unknown(-99));
}

#[test]
fn status_from_error_maps_back_pressure_and_closed() {
    assert_eq!(
        AeronStatus::from_error(&AeronCError::from_code(-2)),
        Some(AeronStatus::BackPressured)
    );
    assert_eq!(
        AeronStatus::from_error(&AeronCError::from_code(-4)),
        Some(AeronStatus::Closed)
    );
}

#[test]
fn status_from_error_returns_none_for_non_status_errors() {
    // PublicationMaxPositionExceeded (-5) is not a status-like transition.
    assert_eq!(AeronStatus::from_error(&AeronCError::from_code(-5)), None);
}

#[test]
fn defused_claim_drops_without_invoking_ffi() {
    // A claim that is already finalised must not be aborted again when it is
    // dropped; `position()` reads only the stored value.
    let claim = AeronClaim::new(0, 7, true);
    assert!(!claim.needs_abort_on_drop());
    assert_eq!(claim.position(), 7);
    drop(claim);
}

// --- AeronStatusTracker tests ---

#[test]
fn status_tracker_emits_on_first_observation() {
    let mut tracker = AeronStatusTracker::new();
    assert_eq!(
        tracker.observe(AeronStatus::Disconnected),
        Some(AeronStatus::Disconnected)
    );
}

#[test]
fn status_tracker_emits_on_transition() {
    let mut tracker = AeronStatusTracker::new();
    tracker.observe(AeronStatus::Disconnected);
    assert_eq!(
        tracker.observe(AeronStatus::Connected),
        Some(AeronStatus::Connected)
    );
}

#[test]
fn status_tracker_does_not_emit_on_same_status() {
    let mut tracker = AeronStatusTracker::new();
    tracker.observe(AeronStatus::Connected);
    assert_eq!(tracker.observe(AeronStatus::Connected), None);
    assert_eq!(tracker.observe(AeronStatus::Connected), None);
}

#[test]
fn status_tracker_emits_again_after_reset() {
    let mut tracker = AeronStatusTracker::new();
    tracker.observe(AeronStatus::Connected);
    assert_eq!(tracker.observe(AeronStatus::Connected), None);

    tracker.reset();
    assert_eq!(
        tracker.observe(AeronStatus::Connected),
        Some(AeronStatus::Connected)
    );
}

#[test]
fn status_tracker_records_closed_transition() {
    let mut tracker = AeronStatusTracker::new();
    tracker.observe(AeronStatus::Connected);
    assert_eq!(
        tracker.observe(AeronStatus::Closed),
        Some(AeronStatus::Closed)
    );
    // No further transitions from Closed.
    assert_eq!(tracker.observe(AeronStatus::Closed), None);
}

#[test]
fn status_tracker_tracks_all_states() {
    let mut tracker = AeronStatusTracker::new();

    // Full lifecycle: Disconnected -> Connected -> BackPressured -> Connected -> Closed
    assert_eq!(
        tracker.observe(AeronStatus::Disconnected),
        Some(AeronStatus::Disconnected)
    );
    assert_eq!(
        tracker.observe(AeronStatus::Connected),
        Some(AeronStatus::Connected)
    );
    assert_eq!(
        tracker.observe(AeronStatus::BackPressured),
        Some(AeronStatus::BackPressured)
    );
    assert_eq!(
        tracker.observe(AeronStatus::Connected),
        Some(AeronStatus::Connected)
    );
    assert_eq!(
        tracker.observe(AeronStatus::Closed),
        Some(AeronStatus::Closed)
    );
}

// --- validate_endpoint_for_aeron_udp tests ---

#[test]
fn validate_endpoint_accepts_hostname_with_port() {
    assert!(validate_endpoint_for_aeron_udp("localhost:40123").is_ok());
    assert!(validate_endpoint_for_aeron_udp("localhost:0").is_ok());
    assert!(validate_endpoint_for_aeron_udp("my-host.example.com:65535").is_ok());
}

#[test]
fn validate_endpoint_accepts_ipv4_with_port() {
    assert!(validate_endpoint_for_aeron_udp("127.0.0.1:8080").is_ok());
    assert!(validate_endpoint_for_aeron_udp("192.168.1.1:0").is_ok());
    assert!(validate_endpoint_for_aeron_udp("10.0.0.1:65535").is_ok());
}

#[test]
fn validate_endpoint_accepts_ipv6_bracketed_with_port() {
    assert!(validate_endpoint_for_aeron_udp("[::1]:8080").is_ok());
    assert!(validate_endpoint_for_aeron_udp("[fe80::1]:9000").is_ok());
    assert!(validate_endpoint_for_aeron_udp("[2001:db8::1]:0").is_ok());
    assert!(validate_endpoint_for_aeron_udp("[2001:db8::1]:65535").is_ok());
}

#[test]
fn validate_endpoint_rejects_empty() {
    assert!(validate_endpoint_for_aeron_udp("").is_err());
}

#[test]
fn validate_endpoint_rejects_missing_port() {
    assert!(validate_endpoint_for_aeron_udp("localhost").is_err());
    assert!(validate_endpoint_for_aeron_udp("127.0.0.1").is_err());
    assert!(validate_endpoint_for_aeron_udp("[::1]").is_err());
    assert!(validate_endpoint_for_aeron_udp("[::1]:").is_err());
    assert!(validate_endpoint_for_aeron_udp(":8080").is_err()); // empty host
}

#[test]
fn validate_endpoint_rejects_port_out_of_range() {
    assert!(validate_endpoint_for_aeron_udp("localhost:65536").is_err());
    assert!(validate_endpoint_for_aeron_udp("localhost:99999").is_err());
    assert!(validate_endpoint_for_aeron_udp("[::1]:65536").is_err());
}

#[test]
fn validate_endpoint_rejects_non_digit_port() {
    assert!(validate_endpoint_for_aeron_udp("localhost:abc").is_err());
    assert!(validate_endpoint_for_aeron_udp("localhost:80a0").is_err());
    assert!(validate_endpoint_for_aeron_udp("localhost:-1").is_err());
    assert!(validate_endpoint_for_aeron_udp("localhost:+8080").is_err());
}

#[test]
fn validate_endpoint_rejects_unsafe_characters() {
    // URI separator characters.
    assert!(validate_endpoint_for_aeron_udp("localhost?foo:8080").is_err());
    assert!(validate_endpoint_for_aeron_udp("localhost=bar:8080").is_err());
    assert!(validate_endpoint_for_aeron_udp("localhost/path:8080").is_err());

    // Characters outside the safe allowlist.
    assert!(validate_endpoint_for_aeron_udp("local_host:8080").is_err()); // underscore
    assert!(validate_endpoint_for_aeron_udp("local host:8080").is_err()); // space
    assert!(validate_endpoint_for_aeron_udp("local$host:8080").is_err()); // $
}

#[test]
fn validate_endpoint_rejects_malformed_ipv6() {
    // Missing closing bracket.
    assert!(validate_endpoint_for_aeron_udp("[::1:8080").is_err());

    // Empty brackets.
    assert!(validate_endpoint_for_aeron_udp("[]:8080").is_err());

    // Port missing after bracket.
    assert!(validate_endpoint_for_aeron_udp("[::1]").is_err());

    // Host after bracket (port must immediately follow `]`).
    assert!(validate_endpoint_for_aeron_udp("[::1]x:8080").is_err());

    // Bracket without colon in the right place.
    assert!(validate_endpoint_for_aeron_udp("[::1]8080").is_err());
}

#[test]
fn validate_endpoint_rejects_colon_in_wrong_position() {
    // Unbracketed with multiple colons is invalid (IPv4 has at most 3 colons,
    // but we require host:port, so only the last colon is the separator).
    assert!(validate_endpoint_for_aeron_udp("::1:8080").is_err());

    // Colon at start is invalid (empty host).
    assert!(validate_endpoint_for_aeron_udp(":8080").is_err());
}

#[test]
fn validate_endpoint_accepts_hyphenated_hostname() {
    assert!(validate_endpoint_for_aeron_udp("my-host-name:8080").is_ok());
    assert!(validate_endpoint_for_aeron_udp("host-1:40123").is_ok());
}

#[test]
fn validate_endpoint_accepts_dotted_hostname() {
    assert!(validate_endpoint_for_aeron_udp("host.sub.example.com:8080").is_ok());
    assert!(validate_endpoint_for_aeron_udp("a.b.c.d:40123").is_ok());
}
