use gtpv2::ie::ambr::Ambr;
use gtpv2::ie::apn::Apn;
use gtpv2::ie::bearer_context::BearerContext;
use gtpv2::ie::bearer_qos::BearerQos;
use gtpv2::ie::cause::Cause;
use gtpv2::ie::fteid::{Fteid, InterfaceType};
use gtpv2::ie::imsi::Imsi;
use gtpv2::ie::paa::Paa;
use gtpv2::ie::pdn_type::PdnType;
use gtpv2::ie::rat_type::RatType;
use gtpv2::ie::recovery::Recovery;
use gtpv2::ie::selection_mode::SelectionMode;
use gtpv2::GtpError;
use tokio_util::bytes::{Bytes, BytesMut};

const V6_DOC: [u8; 16] = [0x20, 0x01, 0x0d, 0xb8, 0, 0, 0, 0, 0, 0, 0, 0, 0, 0, 0, 1];
const V6_LOOPBACK: [u8; 16] = [0, 0, 0, 0, 0, 0, 0, 0, 0, 0, 0, 0, 0, 0, 0, 1];

#[test]
fn roundtrip_preserves_all_fields() {
    let qos = BearerQos {
        pci: true,
        priority_level: 5,
        pvi: true,
        qci: 6,
        max_bitrate_uplink_kbps: 100_000,
        max_bitrate_downlink_kbps: 200_000,
        guaranteed_bitrate_uplink_kbps: 50_000,
        guaranteed_bitrate_downlink_kbps: 80_000,
    };
    let mut buf = BytesMut::new();
    qos.write(&mut buf);
    assert_eq!(buf.len(), 22);
    let parsed = BearerQos::parse(buf.freeze()).unwrap();
    assert_eq!(parsed, qos);
}

#[test]
fn large_bitrate_near_40bit_max_roundtrips() {
    let max40 = (1u64 << 40) - 1;
    let qos = BearerQos {
        pci: false,
        priority_level: 1,
        pvi: false,
        qci: 1,
        max_bitrate_uplink_kbps: max40,
        max_bitrate_downlink_kbps: max40,
        guaranteed_bitrate_uplink_kbps: max40,
        guaranteed_bitrate_downlink_kbps: max40,
    };
    let mut buf = BytesMut::new();
    qos.write(&mut buf);
    let parsed = BearerQos::parse(buf.freeze()).unwrap();
    assert_eq!(parsed.max_bitrate_uplink_kbps, max40);
}

#[test]
fn bearer_qos_truncated_value_errors() {
    let bytes = Bytes::from_static(&[0, 9, 0, 0, 0, 0, 0]);
    let err = BearerQos::parse(bytes).unwrap_err();
    assert!(matches!(err, GtpError::Truncated));
}

#[test]
fn flags_byte_roundtrips_correctly() {
    let qos = BearerQos {
        pci: true,
        priority_level: 15,
        pvi: false,
        qci: 9,
        max_bitrate_uplink_kbps: 0,
        max_bitrate_downlink_kbps: 0,
        guaranteed_bitrate_uplink_kbps: 0,
        guaranteed_bitrate_downlink_kbps: 0,
    };
    let mut buf = BytesMut::new();
    qos.write(&mut buf);
    assert_eq!(buf[0], 0b0111_1100);
}

#[test]
fn default_produces_expected_baseline_values() {
    let qos = BearerQos::default();
    assert_eq!(qos.qci, 9);
    assert_eq!(qos.priority_level, 8);
    assert!(!qos.pci);
    assert!(!qos.pvi);
    assert_eq!(qos.max_bitrate_uplink_kbps, 0);
    assert_eq!(qos.guaranteed_bitrate_uplink_kbps, 0);
}

#[test]
fn struct_update_syntax_overrides_only_specified_fields() {
    let qos = BearerQos {
        qci: 5,
        ..Default::default()
    };
    assert_eq!(qos.qci, 5);
    assert_eq!(qos.priority_level, 8);
}

#[test]
fn bearer_qos_rate_keeps_low_40_bits() {
    let qos = BearerQos {
        max_bitrate_uplink_kbps: (1u64 << 40) + 7,
        ..Default::default()
    };
    let mut buf = BytesMut::new();
    qos.write(&mut buf);
    let parsed = BearerQos::parse(buf.freeze()).unwrap();
    assert_eq!(parsed.max_bitrate_uplink_kbps, 7);
}

#[test]
fn ipv4_only_roundtrip() {
    let fteid = Fteid {
        interface_type: 7,
        teid_or_gre_key: 0x1234_5678,
        ipv4: Some([192, 168, 1, 1]),
        ipv6: None,
    };
    let mut buf = BytesMut::new();
    fteid.write(&mut buf);
    let parsed = Fteid::parse(buf.freeze()).unwrap();
    assert_eq!(parsed.interface_type, 7);
    assert_eq!(parsed.teid_or_gre_key, 0x1234_5678);
    assert_eq!(parsed.ipv4, Some([192, 168, 1, 1]));
    assert_eq!(parsed.ipv6, None);
}

#[test]
fn ipv6_only_roundtrip() {
    let fteid = Fteid {
        interface_type: 0,
        teid_or_gre_key: 1,
        ipv4: None,
        ipv6: Some(V6_DOC),
    };
    let mut buf = BytesMut::new();
    fteid.write(&mut buf);
    let parsed = Fteid::parse(buf.freeze()).unwrap();
    assert_eq!(parsed.ipv6, Some(V6_DOC));
    assert_eq!(parsed.ipv4, None);
}

#[test]
fn dual_stack_roundtrip() {
    let fteid = Fteid {
        interface_type: 10,
        teid_or_gre_key: 0xFFFF_FFFF,
        ipv4: Some([10, 0, 0, 1]),
        ipv6: Some(V6_LOOPBACK),
    };
    let mut buf = BytesMut::new();
    fteid.write(&mut buf);
    let parsed = Fteid::parse(buf.freeze()).unwrap();
    assert_eq!(parsed.ipv4, fteid.ipv4);
    assert_eq!(parsed.ipv6, fteid.ipv6);
}

#[test]
fn interface_type_masks_to_six_bits() {
    let fteid = Fteid {
        interface_type: 0b1111_1111,
        teid_or_gre_key: 0,
        ipv4: None,
        ipv6: None,
    };
    let mut buf = BytesMut::new();
    fteid.write(&mut buf);
    assert_eq!(buf[0] & 0b0011_1111, 0b0011_1111);
    assert_eq!(buf[0] & 0b1100_0000, 0);
}

#[test]
fn truncated_errors() {
    let bytes = Bytes::from_static(&[0x80, 0x00, 0x00]);
    let err = Fteid::parse(bytes).unwrap_err();
    assert!(matches!(err, GtpError::Truncated));
}

#[test]
fn fteid_announced_address_missing_errors() {
    let bytes = Bytes::from_static(&[0x80, 0, 0, 0, 1, 10, 0]);
    assert!(matches!(Fteid::parse(bytes), Err(GtpError::Truncated)));
}

#[test]
fn fteid_write_exact_bytes() {
    let fteid = Fteid {
        interface_type: 6,
        teid_or_gre_key: 0x0102_0304,
        ipv4: Some([10, 0, 0, 1]),
        ipv6: None,
    };
    let mut buf = BytesMut::new();
    fteid.write(&mut buf);
    assert_eq!(&buf[..], &[0x86, 1, 2, 3, 4, 10, 0, 0, 1]);
}

#[test]
fn interface_type_codes() {
    assert_eq!(u8::from(InterfaceType::S5S8SgwGtpU), 4);
    assert_eq!(u8::from(InterfaceType::S5S8PgwGtpU), 5);
    assert_eq!(u8::from(InterfaceType::S5S8SgwGtpC), 6);
    assert_eq!(u8::from(InterfaceType::S5S8PgwGtpC), 7);
}

#[test]
fn even_digit_count_roundtrip() {
    let imsi = Imsi("123456789012".to_string());
    let mut buf = BytesMut::new();
    imsi.write(&mut buf);
    assert_eq!(buf.len(), 6);
    let parsed = Imsi::parse(buf.freeze()).unwrap();
    assert_eq!(parsed.0, "123456789012");
}

#[test]
fn odd_digit_count_roundtrip() {
    let imsi = Imsi("12345678901".to_string());
    let mut buf = BytesMut::new();
    imsi.write(&mut buf);
    assert_eq!(buf.len(), 6);
    let parsed = Imsi::parse(buf.freeze()).unwrap();
    assert_eq!(parsed.0, "12345678901");
}

#[test]
fn known_vector() {
    let imsi = Imsi("001010123456789".to_string());
    let mut buf = BytesMut::new();
    imsi.write(&mut buf);
    let parsed = Imsi::parse(buf.freeze()).unwrap();
    assert_eq!(parsed.0, "001010123456789");
}

#[test]
fn imsi_packs_low_nibble_first() {
    let imsi = Imsi("123".to_string());
    let mut buf = BytesMut::new();
    imsi.write(&mut buf);
    assert_eq!(&buf[..], &[0x21, 0xF3]);
}

#[test]
fn imsi_parse_stops_at_filler() {
    let parsed = Imsi::parse(Bytes::from_static(&[0x21, 0xFF, 0x43])).unwrap();
    assert_eq!(parsed.0, "12");
}

#[test]
fn apn_write_and_parse_labels() {
    let apn = Apn("internet.mnc001.mcc001.gprs".to_string());
    let mut buf = BytesMut::new();
    apn.write(&mut buf);
    assert_eq!(buf[0], 8);
    assert_eq!(&buf[1..9], b"internet");
    assert_eq!(buf.len(), "internet.mnc001.mcc001.gprs".len() + 1);
    let parsed = Apn::parse(buf.freeze()).unwrap();
    assert_eq!(parsed.0, "internet.mnc001.mcc001.gprs");
}

#[test]
fn apn_truncated_label_errors() {
    let err = Apn::parse(Bytes::from_static(&[5, b'a', b'b'])).unwrap_err();
    assert!(matches!(err, GtpError::Truncated));
}

#[test]
fn apn_invalid_utf8_is_replaced() {
    let parsed = Apn::parse(Bytes::from_static(&[1, 0xFF, 1, b'x'])).unwrap();
    assert_eq!(parsed.0, "\u{FFFD}.x");
}

#[test]
fn ambr_roundtrip_and_truncation() {
    let ambr = Ambr {
        uplink_kbps: 50_000,
        downlink_kbps: 100_000,
    };
    let mut buf = BytesMut::new();
    ambr.write(&mut buf);
    assert_eq!(&buf[..], &[0, 0, 0xC3, 0x50, 0, 1, 0x86, 0xA0]);
    let parsed = Ambr::parse(buf.freeze()).unwrap();
    assert_eq!(parsed, ambr);
    assert!(matches!(
        Ambr::parse(Bytes::from_static(&[0, 0, 0])),
        Err(GtpError::Truncated)
    ));
}

#[test]
fn cause_write_and_accepted() {
    let mut buf = BytesMut::new();
    Cause { value: 16 }.write(&mut buf);
    assert_eq!(&buf[..], &[16, 0]);
    let parsed = Cause::parse(buf.freeze()).unwrap();
    assert!(parsed.is_accepted());
    assert!(!Cause { value: 73 }.is_accepted());
    assert!(matches!(Cause::parse(Bytes::new()), Err(GtpError::Truncated)));
}

#[test]
fn recovery_roundtrip() {
    let mut buf = BytesMut::new();
    Recovery { restart_counter: 200 }.write(&mut buf);
    assert_eq!(&buf[..], &[200]);
    assert_eq!(
        Recovery::parse(buf.freeze()).unwrap(),
        Recovery { restart_counter: 200 }
    );
    assert!(matches!(Recovery::parse(Bytes::new()), Err(GtpError::Truncated)));
}

#[test]
fn pdn_type_codes_and_errors() {
    assert_eq!(PdnType::try_from(3).unwrap(), PdnType::Ipv4v6);
    assert!(matches!(PdnType::try_from(5), Err(GtpError::InvalidPdnType(5))));
    assert_eq!(PdnType::parse(Bytes::from_static(&[0xF9])).unwrap(), PdnType::Ipv4);
    let mut buf = BytesMut::new();
    PdnType::NonIp.write(&mut buf);
    assert_eq!(&buf[..], &[4]);
}

#[test]
fn rat_type_codes_and_errors() {
    assert_eq!(RatType::parse(Bytes::from_static(&[10])).unwrap(), RatType::Nr);
    assert!(matches!(RatType::try_from(0), Err(GtpError::InvalidRatType(0))));
    let mut buf = BytesMut::new();
    RatType::Eutran.write(&mut buf);
    assert_eq!(&buf[..], &[6]);
}

#[test]
fn selection_mode_codes_and_errors() {
    assert_eq!(
        SelectionMode::parse(Bytes::from_static(&[0xFE])).unwrap(),
        SelectionMode::NetworkProvidedSubscriptionNotVerified
    );
    assert!(matches!(
        SelectionMode::parse(Bytes::from_static(&[3])),
        Err(GtpError::InvalidSelectionMode(3))
    ));
    let mut buf = BytesMut::new();
    SelectionMode::MsProvidedSubscriptionNotVerified.write(&mut buf);
    assert_eq!(&buf[..], &[1]);
}

#[test]
fn paa_request_v4_is_unspecified() {
    let paa = Paa::request_v4();
    let mut buf = BytesMut::new();
    paa.write(&mut buf);
    assert_eq!(&buf[..], &[1, 0, 0, 0, 0]);
}

#[test]
fn paa_non_ip_is_refused() {
    let err = Paa::parse(Bytes::from_static(&[4, 0, 0, 0, 0])).unwrap_err();
    assert!(matches!(err, GtpError::InvalidPdnType(4)));
}

#[test]
fn paa_short_v6_is_truncated() {
    let err = Paa::parse(Bytes::from_static(&[2, 64, 0, 0])).unwrap_err();
    assert!(matches!(err, GtpError::Truncated));
}

#[test]
fn bearer_context_roundtrip_keeps_cause() {
    let bc = BearerContext {
        ebi: Some(5),
        cause: Some(Cause { value: 16 }),
        fteid: Some(Fteid {
            interface_type: 5,
            teid_or_gre_key: 77,
            ipv4: Some([1, 2, 3, 4]),
            ipv6: None,
        }),
        bearer_qos: Some(BearerQos::default()),
    };
    let bytes = bc.write().freeze();
    let parsed = BearerContext::parse(bytes).unwrap();
    assert_eq!(parsed.ebi, Some(5));
    assert_eq!(parsed.cause, Some(Cause { value: 16 }));
    assert_eq!(parsed.fteid.unwrap().teid_or_gre_key, 77);
    assert_eq!(parsed.bearer_qos, Some(BearerQos::default()));
}

#[test]
fn bearer_context_reads_cause_and_empty_ebi() {
    let bytes = Bytes::from_static(&[2, 0, 2, 0, 16, 0, 73, 0, 0, 0, 99, 0, 1, 0, 7]);
    let parsed = BearerContext::parse(bytes).unwrap();
    assert_eq!(parsed.cause, Some(Cause { value: 16 }));
    assert_eq!(parsed.ebi, None);
}

#[test]
fn bearer_context_bad_nested_value_errors() {
    let bytes = Bytes::from_static(&[87, 0, 1, 0, 0x80]);
    assert!(matches!(BearerContext::parse(bytes), Err(GtpError::Truncated)));
}
