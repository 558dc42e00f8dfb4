use gtpv2::header::Header;
use tokio_util::bytes::{Bytes, BytesMut};

fn parse_with_length(src: &mut Bytes) -> (u16, Header) {
    let _flags_and_type = &src[0..2];
    let len = u16::from_be_bytes([src[2], src[3]]);
    let header = Header::parse(src).unwrap();
    (len, header)
}

#[test]
fn roundtrip_without_teid() {
    let header = Header {
        version: 2,
        piggybacking_flag: false,
        teid_flag: false,
        message_type: 32,
        teid: None,
        sequence_number: 0x00_01_02,
    };
    let mut dst = BytesMut::new();
    header.write(&mut dst, 0);
    assert_eq!(dst.len(), 8);
    let mut src = dst.freeze();
    let (_len_field, parsed) = parse_with_length(&mut src);
    assert_eq!(parsed.version, 2);
    assert_eq!(parsed.teid_flag, false);
    assert_eq!(parsed.teid, None);
    assert_eq!(parsed.message_type, 32);
    assert_eq!(parsed.sequence_number, 0x00_01_02);
}

#[test]
fn roundtrip_with_teid() {
    let header = Header {
        version: 2,
        piggybacking_flag: false,
        teid_flag: true,
        message_type: 33,
        teid: Some(0xDEAD_BEEF),
        sequence_number: 0x00_AB_CD,
    };
    let mut dst = BytesMut::new();
    header.write(&mut dst, 0);
    assert_eq!(dst.len(), 12);
    let mut src = dst.freeze();
    let (_len_field, parsed) = parse_with_length(&mut src);
    assert_eq!(parsed.teid, Some(0xDEAD_BEEF));
    assert_eq!(parsed.sequence_number, 0x00_AB_CD);
}

#[test]
fn message_length_excludes_first_four_bytes() {
    let header = Header {
        version: 2,
        piggybacking_flag: false,
        teid_flag: true,
        message_type: 33,
        teid: Some(1),
        sequence_number: 1,
    };
    let mut dst = BytesMut::new();
    header.write(&mut dst, 10);
    let msg_len = u16::from_be_bytes([dst[2], dst[3]]);
    assert_eq!(msg_len, 18);
}

#[test]
fn flags_byte_encodes_version_and_bits() {
    let header = Header {
        version: 2,
        piggybacking_flag: true,
        teid_flag: true,
        message_type: 1,
        teid: Some(0),
        sequence_number: 0,
    };
    let mut dst = BytesMut::new();
    header.write(&mut dst, 0);
    assert_eq!(dst[0], 0b0101_1000);
}

#[test]
fn header_parse_leaves_body_and_ignores_length_field() {
    let mut src = Bytes::from_static(&[0x48, 33, 0xFF, 0xFF, 0, 0, 0, 7, 0, 0, 9, 0, 0xAB]);
    let parsed = Header::parse(&mut src).unwrap();
    assert_eq!(parsed.teid, Some(7));
    assert_eq!(parsed.sequence_number, 9);
    assert_eq!(&src[..], &[0xAB]);
}

#[test]
fn header_sequence_number_keeps_low_24_bits() {
    let header = Header {
        version: 2,
        piggybacking_flag: false,
        teid_flag: false,
        message_type: 1,
        teid: None,
        sequence_number: 0x0123_4567,
    };
    let mut dst = BytesMut::new();
    header.write(&mut dst, 0);
    let mut src = dst.freeze();
    let parsed = Header::parse(&mut src).unwrap();
    assert_eq!(parsed.sequence_number, 0x0023_4567);
}

#[test]
fn header_version_keeps_three_bits() {
    let header = Header {
        version: 10,
        piggybacking_flag: false,
        teid_flag: false,
        message_type: 1,
        teid: None,
        sequence_number: 0,
    };
    let mut dst = BytesMut::new();
    header.write(&mut dst, 0);
    assert_eq!(dst[0], 0b0100_0000);
}
