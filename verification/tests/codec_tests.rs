use stratum_core::{HexBytes, HexU32Be};
use stratum_core::errors::Error as RolesError;
use binary_sv2::Error as BinarySv2Error;

#[test]
fn hex_bytes_parse_lowercase() {
    let b = HexBytes::from_hex("deadbeef").unwrap();
    assert_eq!(b.0, vec![0xde, 0xad, 0xbe, 0xef]);
    assert_eq!(b.to_hex(), "deadbeef");
}

#[test]
fn hex_bytes_empty_round_trip() {
    let b = HexBytes::from_hex("").unwrap();
    assert_eq!(b.0, Vec::<u8>::new());
    assert_eq!(b.to_hex(), "");
}

#[test]
fn hex_bytes_reject_odd_length() {
    assert!(HexBytes::from_hex("abc").is_err());
}

#[test]
fn hex_bytes_reject_non_hex() {
    assert!(HexBytes::from_hex("zz").is_err());
    assert!(HexBytes::from_hex("DE").is_err());
}

#[test]
fn hex_u32_round_trip_big_endian() {
    let h = HexU32Be::from_hex("1fffe000").unwrap();
    assert_eq!(h.0, 0x1fffe000);
    assert_eq!(h.to_hex(), "1fffe000");
}

#[test]
fn hex_u32_rejects_wrong_length() {
    assert!(HexU32Be::from_hex("1fffe0").is_err());
    assert!(HexU32Be::from_hex("1fffe00000").is_err());
}

#[test]
fn check_mask_allows_only_masked_bits() {
    let mask = HexU32Be(0x1fffe000);
    assert!(mask.check_mask(&HexU32Be(0x00002000)));
    assert!(mask.check_mask(&HexU32Be(0)));
    assert!(!mask.check_mask(&HexU32Be(0x00001000)));
}

#[test]
fn roles_error_messages_render_numbers() {
    assert_eq!(
        RolesError::WrongMessageType(7).message(),
        "Wrong message type: 7"
    );
    assert_eq!(
        RolesError::ExpectedLen32(40).message(),
        "Expected length of 32, but received length of 40"
    );
    assert_eq!(
        RolesError::RequestIdNotMapped(12345).message(),
        "RequestIdNotMapped 12345"
    );
    assert_eq!(
        RolesError::NoPairableUpstream((2, 16, 0)).message(),
        "No pairable upstream node: (2, 16, 0)"
    );
    assert_eq!(
        RolesError::NoUpstreamsConnected.message(),
        "There are no upstream connected"
    );
}

#[test]
fn roles_error_messages_for_plain_variants() {
    assert_eq!(
        RolesError::NoGroupsFound.message(),
        "A channel was attempted to be added to an Upstream, but no groups are specified"
    );
    assert_eq!(
        RolesError::UnexpectedMessage.message(),
        "Error: Unexpected message received"
    );
    assert_eq!(
        RolesError::NoFutureJobs.message(),
        "GroupChannelJobDispatcher does not have any future jobs"
    );
    assert_eq!(
        RolesError::NoDownstreamsConnected.message(),
        "NoDownstreamsConnected"
    );
    assert_eq!(
        RolesError::PrevHashRequireNonExistentJobId(3).message(),
        "PrevHashRequireNonExistentJobId 3"
    );
    assert!(RolesError::UnknownRequestId(81).message()
        .starts_with("Upstream is answering with a wrong request ID 81 or "));
}

#[test]
fn roles_error_wraps_the_binary_codec_error() {
    let e = RolesError::from(BinarySv2Error::OutOfBound);
    assert!(matches!(e, RolesError::BinarySv2Error(BinarySv2Error::OutOfBound)));
    let text = e.message();
    assert!(text.starts_with("BinarySv2Error: error in serializing/deserilizing binary format "));
    assert!(text.ends_with("OutOfBound"));
}
