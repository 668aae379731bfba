use rusteron::counters::AeronSystemCounterType;
use rusteron::errors::{AeronCError, AeronErrorType};
use rusteron::publication::{offer_result, status, try_claim_owned, try_claim_result, AeronHeader, AeronHeaderValues};
use rusteron::status::AeronStatus;
use rusteron::uri::{ControlMode, Media, ChannelUri, AERON_IPC_MEDIA};

#[test]
fn error_codes_round_trip() {
    for code in [-1, -1000, -1001, -1002, -1003, -2, -3, -4, -5, -6, -234324, -77, 5] {
        assert_eq!(code, AeronErrorType::from_code(code).code());
    }
    assert_eq!("Publication Back Pressured", AeronErrorType::PublicationBackPressured.to_string());
    assert!(AeronCError::from_code(-3).is_admin_action());
    assert!(AeronCError::from_code(-3).is_back_pressured_or_admin_action());
    assert!(!AeronCError::from_code(-4).is_back_pressured_or_admin_action());
    assert_eq!(AeronCError::from_code(-2), AeronCError::from(AeronErrorType::PublicationBackPressured));
}

#[test]
fn counter_types_from_ids() {
    assert!(AeronSystemCounterType::try_from(0).is_ok());
    assert!(AeronSystemCounterType::try_from(-1).is_err());
    assert!(AeronSystemCounterType::try_from(10_000).is_err());
    let c = AeronSystemCounterType::try_from(5).unwrap();
    assert_eq!(5, c.as_u32());
}

#[test]
fn media_and_control_mode_names() {
    assert_eq!("udp", Media::Udp.as_str());
    assert_eq!("ipc", Media::Ipc.as_str());
    assert_eq!("response", ControlMode::Response.as_str());
    assert_eq!("aeron:ipc", AERON_IPC_MEDIA);
    assert_eq!(4095, ChannelUri::MAX_URI_LENGTH);
}

#[test]
fn publication_outcomes() {
    assert_eq!(AeronStatus::Closed, status(true, true));
    assert_eq!(AeronStatus::Connected, status(false, true));
    assert_eq!(AeronStatus::Disconnected, status(false, false));
    assert_eq!(Ok(64), offer_result(64));
    assert_eq!(-2, offer_result(-2).unwrap_err().code);
    assert_eq!(-4, try_claim_result(-4).unwrap_err().code);
    let claim = try_claim_owned(128, 4096).unwrap();
    assert_eq!(128, claim.len());
    assert!(!claim.is_empty());
    assert!(claim.needs_abort_on_drop());
    assert_eq!(Ok(4096), claim.commit(0));
    let claim = try_claim_owned(0, 10).unwrap();
    assert!(claim.is_empty());
    assert_eq!(-1, claim.abort(-1).unwrap_err().code);
    assert_eq!(-3, try_claim_owned(8, -3).err().unwrap().code);
}

#[test]
fn header_values_are_read_when_present() {
    let h = AeronHeader {
        values: Some(AeronHeaderValues {
            session_id: 1,
            stream_id: 2,
            reserved_value: 3,
            term_id: 4,
            term_offset: 5,
        }),
    };
    assert_eq!(Some(1), h.session_id());
    assert_eq!(Some(2), h.stream_id());
    assert_eq!(Some(3), h.reserved_value());
    assert_eq!(Some(4), h.term_id());
    assert_eq!(Some(5), h.term_offset());
    let none = AeronHeader { values: None };
    assert_eq!(None, none.session_id());
    assert_eq!(None, none.term_offset());
}
