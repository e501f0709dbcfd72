use stratum_core::Header;
use stratum_core::NoiseHeader;

#[test]
fn decode_underflow_reports_missing_bytes() {
    let r = Header::from_bytes(&[0x01, 0x00, 0x05]);
    assert!(matches!(r, Err(3)));
}

#[test]
fn decode_empty_reports_six_missing() {
    let r = Header::from_bytes(&[]);
    assert!(matches!(r, Err(6)));
}

#[test]
fn decode_reads_little_endian_fields() {
    let h = Header::from_bytes(&[0x01, 0x00, 0x2a, 0x03, 0x02, 0x01]).unwrap();
    assert_eq!(h.msg_type(), 0x2a);
    assert_eq!(h.len(), 0x010203);
    assert!(h.channel_msg());
}

#[test]
fn encode_then_decode_gives_the_header_back() {
    let h = Header::from_len(0x123456, 7, 0x00ff).unwrap();
    let bytes = h.to_bytes();
    assert_eq!(bytes.len(), 6);
    let back = Header::from_bytes(&bytes).unwrap();
    assert_eq!(back, h);
}

#[test]
fn from_len_rejects_lengths_over_24_bits() {
    assert!(Header::from_len(0x1000000, 0, 0).is_none());
    assert!(Header::from_len(0xffffff, 0, 0).is_some());
}

#[test]
fn channel_msg_is_exactly_the_low_bit() {
    let h0 = Header::from_len(1, 0, 0).unwrap();
    let h1 = Header::from_len(1, 0, 1).unwrap();
    let h2 = Header::from_len(1, 0, 2).unwrap();
    let h3 = Header::from_len(1, 0, 3).unwrap();
    assert!(h0.channel_msg());
    assert!(h1.channel_msg());
    assert!(!h2.channel_msg());
    assert!(!h3.channel_msg());
}

#[test]
fn default_header_is_all_zero() {
    let h = Header::default();
    assert_eq!(h.msg_type(), 0);
    assert_eq!(h.len(), 0);
    assert_eq!(h.to_bytes(), vec![0u8; 6]);
}

#[test]
fn layout_constants_match_the_shared_source() {
    assert_eq!(Header::size(), 6);
    assert_eq!(Header::len_offset(), 3);
    assert_eq!(Header::len_size(), 3);
    assert_eq!(Header::len_end(), 6);
    assert_eq!(NoiseHeader::size(), 2);
    assert_eq!(NoiseHeader::len_offset(), 0);
    assert_eq!(NoiseHeader::len_end(), 2);
}
