use gtpv2::header::Header;
use gtpv2::ie::ambr::Ambr;
use gtpv2::ie::apn::Apn;
use gtpv2::ie::bearer_context::BearerContext;
use gtpv2::ie::bearer_qos::BearerQos;
use gtpv2::ie::cause::Cause;
use gtpv2::ie::fteid::Fteid;
use gtpv2::ie::imsi::Imsi;
use gtpv2::ie::paa::Paa;
use gtpv2::ie::pdn_type::PdnType;
use gtpv2::ie::rat_type::RatType;
use gtpv2::ie::recovery::Recovery;
use gtpv2::ie::selection_mode::SelectionMode;
use gtpv2::ie::types::{ie_type, message_type};
use gtpv2::ie::InformationElement;
use gtpv2::messages::{
    CreateSessionRequest, CreateSessionResponse, DeleteSessionRequest, DeleteSessionResponse,
    EchoRequest, EchoResponse,
};
use gtpv2::{GtpError, GtpMessage};
use tokio_util::bytes::{Bytes, BytesMut};

const V6_DOC: [u8; 16] = [0x20, 0x01, 0x0d, 0xb8, 0, 0, 0, 0, 0, 0, 0, 0, 0, 0, 0, 1];

fn information_elements(ie_type: u8, instance: u8, value: &[u8]) -> InformationElement {
    InformationElement {
        ie_type,
        instance,
        value: Bytes::copy_from_slice(value),
    }
}

fn imsi_bytes(digits: &str) -> Vec<u8> {
    let mut buf = BytesMut::new();
    Imsi(digits.to_string()).write(&mut buf);
    buf.to_vec()
}

fn apn_bytes(labels: &str) -> Vec<u8> {
    let mut buf = BytesMut::new();
    Apn(labels.to_string()).write(&mut buf);
    buf.to_vec()
}

fn fteid_bytes(interface_type: u8, teid: u32, ipv4: [u8; 4]) -> Vec<u8> {
    let mut buf = BytesMut::new();
    Fteid {
        interface_type,
        teid_or_gre_key: teid,
        ipv4: Some(ipv4),
        ipv6: None,
    }
    .write(&mut buf);
    buf.to_vec()
}

fn ambr_bytes(up: u32, down: u32) -> Vec<u8> {
    let mut buf = BytesMut::new();
    Ambr {
        uplink_kbps: up,
        downlink_kbps: down,
    }
    .write(&mut buf);
    buf.to_vec()
}

fn cause_bytes(value: u8) -> Vec<u8> {
    let mut buf = BytesMut::new();
    Cause { value }.write(&mut buf);
    buf.to_vec()
}

fn rat_type_bytes(rat: u8) -> Vec<u8> {
    vec![rat]
}

fn pdn_type_bytes(t: u8) -> Vec<u8> {
    vec![t]
}

fn paa_v4_bytes(octets: [u8; 4]) -> Vec<u8> {
    let mut v = vec![1u8];
    v.extend_from_slice(&octets);
    v
}

fn selection_mode_bytes(mode: u8) -> Vec<u8> {
    vec![mode]
}

fn bearer_context_bytes(
    ebi: u8,
    cause: Option<u8>,
    fteid: Option<(u8, u32, [u8; 4])>,
    qos: Option<(u64, u64)>,
) -> Vec<u8> {
    let bc = BearerContext {
        ebi: Some(ebi),
        cause: cause.map(|v| Cause { value: v }),
        fteid: fteid.map(|(it, t, ip)| Fteid {
            interface_type: it,
            teid_or_gre_key: t,
            ipv4: Some(ip),
            ipv6: None,
        }),
        bearer_qos: qos.map(|(mbr_up, mbr_down)| BearerQos {
            max_bitrate_uplink_kbps: mbr_up,
            max_bitrate_downlink_kbps: mbr_down,
            ..Default::default()
        }),
    };
    bc.write().to_vec()
}

fn header(message_type: u8, teid: Option<u32>, seq: u32) -> Header {
    Header {
        version: 2,
        piggybacking_flag: false,
        teid_flag: teid.is_some(),
        message_type,
        teid,
        sequence_number: seq,
    }
}

fn wire_roundtrip(message: GtpMessage) -> GtpMessage {
    let mut wire = BytesMut::new();
    message.write(&mut wire);
    GtpMessage::parse(wire.freeze()).unwrap()
}

fn valid_create_session_request_message() -> GtpMessage {
    GtpMessage {
        header: header(message_type::CREATE_SESSION_REQUEST, Some(0), 100),
        information_elements: vec![
            information_elements(ie_type::IMSI, 0, &imsi_bytes("001010123456789")),
            information_elements(
                ie_type::FTEID,
                0,
                &fteid_bytes(7, 0xAABB_CCDD, [10, 0, 0, 1]),
            ),
            information_elements(ie_type::APN, 0, &apn_bytes("internet")),
            information_elements(ie_type::AMBR, 0, &ambr_bytes(50_000, 100_000)),
            information_elements(ie_type::RAT_TYPE, 0, &rat_type_bytes(6)),
            information_elements(ie_type::PDN_TYPE, 0, &pdn_type_bytes(1)),
            information_elements(ie_type::PAA, 0, &paa_v4_bytes([0, 0, 0, 0])),
            information_elements(ie_type::SELECTION_MODE, 0, &selection_mode_bytes(0)),
            information_elements(
                ie_type::BEARER_CONTEXT,
                0,
                &bearer_context_bytes(5, None, None, Some((50_000, 100_000))),
            ),
        ],
    }
}

#[test]
fn create_session_request_parses_valid_message() {
    let message = valid_create_session_request_message();
    let create_session_request = CreateSessionRequest::try_from(&message).expect("should parse");
    assert_eq!(create_session_request.imsi.0, "001010123456789");
    assert_eq!(
        create_session_request.sender_fteid.teid_or_gre_key,
        0xAABB_CCDD
    );
    assert_eq!(create_session_request.sender_fteid.ipv4, Some([10, 0, 0, 1]));
    assert_eq!(create_session_request.apn.0, "internet");
    assert_eq!(create_session_request.ambr.uplink_kbps, 50_000);
    assert_eq!(create_session_request.ambr.downlink_kbps, 100_000);
    assert_eq!(create_session_request.rat_type, RatType::Eutran);
    assert_eq!(create_session_request.pdn_type, PdnType::Ipv4);
    assert!(matches!(create_session_request.paa, Paa::V4 { address } if address == [0, 0, 0, 0]));
    assert_eq!(
        create_session_request.selection_mode,
        SelectionMode::MsOrNetworkProvidedSubscriptionVerified
    );
    assert_eq!(create_session_request.bearer_context.ebi, Some(5));
    assert_eq!(create_session_request.sequence_number, 100);
}

#[test]
fn missing_imsi_errors() {
    let mut message = valid_create_session_request_message();
    message
        .information_elements
        .retain(|ie| ie.ie_type != ie_type::IMSI);
    let error = CreateSessionRequest::try_from(&message).unwrap_err();
    assert!(matches!(error, GtpError::MissingIe(t) if t == ie_type::IMSI));
}

#[test]
fn create_session_request_missing_fteid_errors() {
    let mut message = valid_create_session_request_message();
    message
        .information_elements
        .retain(|ie| ie.ie_type != ie_type::FTEID);
    let error = CreateSessionRequest::try_from(&message).unwrap_err();
    assert!(matches!(error, GtpError::MissingIe(t) if t == ie_type::FTEID));
}

#[test]
fn missing_apn_errors() {
    let mut message = valid_create_session_request_message();
    message
        .information_elements
        .retain(|ie| ie.ie_type != ie_type::APN);
    let error = CreateSessionRequest::try_from(&message).unwrap_err();
    assert!(matches!(error, GtpError::MissingIe(t) if t == ie_type::APN));
}

#[test]
fn missing_ambr_errors() {
    let mut message = valid_create_session_request_message();
    message
        .information_elements
        .retain(|ie| ie.ie_type != ie_type::AMBR);
    let error = CreateSessionRequest::try_from(&message).unwrap_err();
    assert!(matches!(error, GtpError::MissingIe(t) if t == ie_type::AMBR));
}

#[test]
fn create_session_request_missing_bearer_context_errors() {
    let mut message = valid_create_session_request_message();
    message
        .information_elements
        .retain(|ie| ie.ie_type != ie_type::BEARER_CONTEXT);
    let error = CreateSessionRequest::try_from(&message).unwrap_err();
    assert!(matches!(error, GtpError::MissingIe(t) if t == ie_type::BEARER_CONTEXT));
}

#[test]
fn wrong_instance_is_treated_as_missing() {
    let mut message = valid_create_session_request_message();
    for ie in message.information_elements.iter_mut() {
        if ie.ie_type == ie_type::IMSI {
            ie.instance = 1;
        }
    }
    let error = CreateSessionRequest::try_from(&message).unwrap_err();
    assert!(matches!(error, GtpError::MissingIe(t) if t == ie_type::IMSI));
}

#[test]
fn create_session_request_into_message_sets_correct_header() {
    let create_session_request =
        CreateSessionRequest::try_from(&valid_create_session_request_message()).unwrap();
    let message: GtpMessage = create_session_request.into_message();
    assert_eq!(
        message.header.message_type,
        message_type::CREATE_SESSION_REQUEST
    );
    assert_eq!(message.header.teid_flag, true);
    assert_eq!(message.header.teid, Some(0), "CSR has zero as session TEID");
    assert_eq!(message.header.version, 2);
}

#[test]
fn into_message_contains_all_ies() {
    let create_session_request =
        CreateSessionRequest::try_from(&valid_create_session_request_message()).unwrap();
    let message: GtpMessage = create_session_request.into_message();
    let types: Vec<u8> = message
        .information_elements
        .iter()
        .map(|ie| ie.ie_type)
        .collect();
    assert!(types.contains(&ie_type::IMSI));
    assert!(types.contains(&ie_type::FTEID));
    assert!(types.contains(&ie_type::APN));
    assert!(types.contains(&ie_type::AMBR));
    assert!(types.contains(&ie_type::BEARER_CONTEXT));
}

#[test]
fn missing_rat_type_errors() {
    let mut message = valid_create_session_request_message();
    message
        .information_elements
        .retain(|ie| ie.ie_type != ie_type::RAT_TYPE);
    let error = CreateSessionRequest::try_from(&message).unwrap_err();
    assert!(matches!(error, GtpError::MissingIe(t) if t == ie_type::RAT_TYPE));
}

#[test]
fn invalid_rat_type_value_errors() {
    let mut message = valid_create_session_request_message();
    for ie in message.information_elements.iter_mut() {
        if ie.ie_type == ie_type::RAT_TYPE {
            ie.value = Bytes::copy_from_slice(&[255]);
        }
    }
    let error = CreateSessionRequest::try_from(&message).unwrap_err();
    assert!(matches!(error, GtpError::InvalidRatType(255)));
}

#[test]
fn into_message_includes_rat_type() {
    let create_session_request =
        CreateSessionRequest::try_from(&valid_create_session_request_message()).unwrap();
    let message: GtpMessage = create_session_request.into_message();
    let rat_ie = message
        .information_elements
        .iter()
        .find(|ie| ie.ie_type == ie_type::RAT_TYPE)
        .expect("RAT Type IE should be present");
    assert_eq!(&rat_ie.value[..], &[6]);
}

#[test]
fn create_session_request_full_roundtrip_through_wire_bytes() {
    let before = valid_create_session_request_message();
    let create_session_request = CreateSessionRequest::try_from(&before).unwrap();
    let rebuilt_message: GtpMessage = create_session_request.into_message();
    let mut wire = BytesMut::new();
    rebuilt_message.write(&mut wire);
    let reparsed_message = GtpMessage::parse(wire.freeze()).unwrap();
    let reparsed_create_session_request =
        CreateSessionRequest::try_from(&reparsed_message).unwrap();
    assert_eq!(reparsed_create_session_request.imsi.0, "001010123456789");
    assert_eq!(
        reparsed_create_session_request.sender_fteid.teid_or_gre_key,
        0xAABB_CCDD
    );
    assert_eq!(reparsed_create_session_request.apn.0, "internet");
    assert_eq!(reparsed_create_session_request.ambr.uplink_kbps, 50_000);
    assert_eq!(reparsed_create_session_request.rat_type, RatType::Eutran);
    assert_eq!(reparsed_create_session_request.bearer_context.ebi, Some(5));
}

#[test]
fn nonzero_teid_in_csr_errors() {
    let mut message = valid_create_session_request_message();
    message.header.teid = Some(0x1234);
    let error = CreateSessionRequest::try_from(&message).unwrap_err();
    assert!(matches!(
        error,
        GtpError::InvalidTeid {
            expected: 0,
            actual: Some(0x1234)
        }
    ));
}

#[test]
fn missing_teid_flag_in_csr_errors() {
    let mut message = valid_create_session_request_message();
    message.header.teid = None;
    message.header.teid_flag = false;
    let error = CreateSessionRequest::try_from(&message).unwrap_err();
    assert!(matches!(
        error,
        GtpError::InvalidTeid {
            expected: 0,
            actual: None
        }
    ));
}

#[test]
fn missing_pdn_type_errors() {
    let mut message = valid_create_session_request_message();
    message
        .information_elements
        .retain(|ie| ie.ie_type != ie_type::PDN_TYPE);
    let error = CreateSessionRequest::try_from(&message).unwrap_err();
    assert!(matches!(error, GtpError::MissingIe(t) if t == ie_type::PDN_TYPE));
}

#[test]
fn missing_paa_errors() {
    let mut message = valid_create_session_request_message();
    message
        .information_elements
        .retain(|ie| ie.ie_type != ie_type::PAA);
    let error = CreateSessionRequest::try_from(&message).unwrap_err();
    assert!(matches!(error, GtpError::MissingIe(t) if t == ie_type::PAA));
}

#[test]
fn missing_selection_mode_errors() {
    let mut message = valid_create_session_request_message();
    message
        .information_elements
        .retain(|ie| ie.ie_type != ie_type::SELECTION_MODE);
    let error = CreateSessionRequest::try_from(&message).unwrap_err();
    assert!(matches!(error, GtpError::MissingIe(t) if t == ie_type::SELECTION_MODE));
}

#[test]
fn paa_ipv6_roundtrip() {
    let paa = Paa::V6 {
        prefix_length: 64,
        address: V6_DOC,
    };
    let mut buf = BytesMut::new();
    paa.write(&mut buf);
    let parsed = Paa::parse(buf.freeze()).unwrap();
    match parsed {
        Paa::V6 {
            prefix_length: prefix_len,
            address,
        } => {
            assert_eq!(prefix_len, 64);
            assert_eq!(address, V6_DOC);
        }
        _ => panic!("expected V6 variant"),
    }
}

#[test]
fn paa_v4v6_roundtrip() {
    let paa = Paa::V4V6 {
        prefix_length: 64,
        v6_address: V6_DOC,
        v4_address: [192, 168, 1, 1],
    };
    let mut buf = BytesMut::new();
    paa.write(&mut buf);
    let parsed = Paa::parse(buf.freeze()).unwrap();
    match parsed {
        Paa::V4V6 {
            v4_address: v4_addr,
            v6_address: v6_addr,
            ..
        } => {
            assert_eq!(v4_addr, [192, 168, 1, 1]);
            assert_eq!(v6_addr, V6_DOC);
        }
        _ => panic!("expected V4V6 variant"),
    }
}

#[test]
fn invalid_pdn_type_value_errors() {
    let mut message = valid_create_session_request_message();
    for ie in message.information_elements.iter_mut() {
        if ie.ie_type == ie_type::PDN_TYPE {
            ie.value = Bytes::copy_from_slice(&[0]);
        }
    }
    let error = CreateSessionRequest::try_from(&message).unwrap_err();
    assert!(matches!(error, GtpError::InvalidPdnType(0)));
}

#[test]
fn invalid_selection_mode_value_errors() {
    let mut message = valid_create_session_request_message();
    for ie in message.information_elements.iter_mut() {
        if ie.ie_type == ie_type::SELECTION_MODE {
            ie.value = Bytes::copy_from_slice(&[3]);
        }
    }
    let error = CreateSessionRequest::try_from(&message).unwrap_err();
    assert!(matches!(error, GtpError::InvalidSelectionMode(3)));
}

#[test]
fn parses_bearer_qos_correctly() {
    let message = valid_create_session_request_message();
    let create_session_request = CreateSessionRequest::try_from(&message).unwrap();
    let qos = create_session_request
        .bearer_context
        .bearer_qos
        .expect("QoS should be present");
    assert_eq!(qos.qci, 9);
    assert_eq!(qos.priority_level, 8);
    assert_eq!(qos.max_bitrate_uplink_kbps, 50_000);
    assert_eq!(qos.max_bitrate_downlink_kbps, 100_000);
}

#[test]
fn create_session_request_error_order_teid_first() {
    let mut message = valid_create_session_request_message();
    message.information_elements.clear();
    message.header.teid = Some(1);
    let error = CreateSessionRequest::try_from(&message).unwrap_err();
    assert!(matches!(error, GtpError::InvalidTeid { .. }));
}

fn valid_csresp_message() -> GtpMessage {
    GtpMessage {
        header: header(33, Some(0x1000_0001), 200),
        information_elements: vec![
            information_elements(ie_type::CAUSE, 0, &cause_bytes(16)),
            information_elements(
                ie_type::FTEID,
                1,
                &fteid_bytes(7, 0xDEAD_BEEF, [172, 16, 0, 1]),
            ),
            information_elements(ie_type::AMBR, 0, &ambr_bytes(50_000, 100_000)),
            information_elements(
                ie_type::BEARER_CONTEXT,
                0,
                &bearer_context_bytes(5, Some(16), None, None),
            ),
        ],
    }
}

#[test]
fn create_session_response_parses_valid_message() {
    let message = valid_csresp_message();
    let response = CreateSessionResponse::try_from(&message).expect("should parse");
    assert!(response.cause.is_accepted());
    assert_eq!(response.sender_fteid.teid_or_gre_key, 0xDEAD_BEEF);
    assert_eq!(response.sender_fteid.ipv4, Some([172, 16, 0, 1]));
    assert_eq!(response.ambr.unwrap().uplink_kbps, 50_000);
    assert_eq!(response.bearer_context.ebi, Some(5));
    assert_eq!(response.teid, 0x1000_0001);
    assert_eq!(response.sequence_number, 200);
}

#[test]
fn ambr_is_optional() {
    let mut message = valid_csresp_message();
    message
        .information_elements
        .retain(|ie| ie.ie_type != ie_type::AMBR);
    let response =
        CreateSessionResponse::try_from(&message).expect("AMBR absence should not error");
    assert!(response.ambr.is_none());
}

#[test]
fn create_session_response_rejected_cause_still_parses_successfully() {
    let mut message = valid_csresp_message();
    for ie in message.information_elements.iter_mut() {
        if ie.ie_type == ie_type::CAUSE {
            *ie = information_elements(ie_type::CAUSE, 0, &cause_bytes(73));
        }
    }
    let response = CreateSessionResponse::try_from(&message).unwrap();
    assert!(!response.cause.is_accepted());
    assert_eq!(response.cause.value, 73);
}

#[test]
fn create_session_response_missing_cause_errors() {
    let mut message = valid_csresp_message();
    message
        .information_elements
        .retain(|ie| ie.ie_type != ie_type::CAUSE);
    let error = CreateSessionResponse::try_from(&message).unwrap_err();
    assert!(matches!(error, GtpError::MissingIe(t) if t == ie_type::CAUSE));
}

#[test]
fn create_session_response_missing_fteid_errors() {
    let mut message = valid_csresp_message();
    message
        .information_elements
        .retain(|ie| ie.ie_type != ie_type::FTEID);
    let error = CreateSessionResponse::try_from(&message).unwrap_err();
    assert!(matches!(error, GtpError::MissingIe(t) if t == ie_type::FTEID));
}

#[test]
fn wrong_fteid_instance_is_treated_as_missing() {
    let mut message = valid_csresp_message();
    for ie in message.information_elements.iter_mut() {
        if ie.ie_type == ie_type::FTEID {
            ie.instance = 0;
        }
    }
    let error = CreateSessionResponse::try_from(&message).unwrap_err();
    assert!(matches!(error, GtpError::MissingIe(t) if t == ie_type::FTEID));
}

#[test]
fn create_session_response_missing_bearer_context_errors() {
    let mut message = valid_csresp_message();
    message
        .information_elements
        .retain(|ie| ie.ie_type != ie_type::BEARER_CONTEXT);
    let error = CreateSessionResponse::try_from(&message).unwrap_err();
    assert!(matches!(error, GtpError::MissingIe(t) if t == ie_type::BEARER_CONTEXT));
}

#[test]
fn create_session_response_missing_teid_in_header_errors() {
    let mut message = valid_csresp_message();
    message.header.teid = None;
    message.header.teid_flag = false;
    let error = CreateSessionResponse::try_from(&message).unwrap_err();
    assert!(matches!(error, GtpError::MissingTeid));
}

#[test]
fn create_session_response_into_message_sets_correct_header() {
    let response = CreateSessionResponse::try_from(&valid_csresp_message()).unwrap();
    let message: GtpMessage = response.into();
    assert_eq!(message.header.message_type, 33);
    assert_eq!(message.header.teid_flag, true);
    assert_eq!(message.header.teid, Some(0x1000_0001));
}

#[test]
fn into_message_omits_ambr_when_none() {
    let mut message = valid_csresp_message();
    message
        .information_elements
        .retain(|ie| ie.ie_type != ie_type::AMBR);
    let response = CreateSessionResponse::try_from(&message).unwrap();
    assert!(response.ambr.is_none());
    let rebuilt: GtpMessage = response.into();
    assert!(!rebuilt
        .information_elements
        .iter()
        .any(|ie| ie.ie_type == ie_type::AMBR));
}

#[test]
fn create_session_response_full_roundtrip_through_wire_bytes() {
    let before = valid_csresp_message();
    let response = CreateSessionResponse::try_from(&before).unwrap();
    let rebuilt_message: GtpMessage = response.into();
    let mut wire = BytesMut::new();
    rebuilt_message.write(&mut wire);
    let reparsed_message = GtpMessage::parse(wire.freeze()).unwrap();
    let reparsed = CreateSessionResponse::try_from(&reparsed_message).unwrap();
    assert!(reparsed.cause.is_accepted());
    assert_eq!(reparsed.sender_fteid.teid_or_gre_key, 0xDEAD_BEEF);
    assert_eq!(reparsed.teid, 0x1000_0001);
}

fn valid_delete_session_request_message() -> GtpMessage {
    GtpMessage {
        header: header(36, Some(0x2000_0002), 300),
        information_elements: vec![information_elements(ie_type::EBI, 0, &[5])],
    }
}

#[test]
fn delete_session_request_parses_valid_message() {
    let message = valid_delete_session_request_message();
    let delete_session_request = DeleteSessionRequest::try_from(&message).expect("should parse");
    assert_eq!(delete_session_request.linked_ebi, 5);
    assert_eq!(delete_session_request.teid, 0x2000_0002);
    assert_eq!(delete_session_request.sequence_number, 300);
}

#[test]
fn missing_ebi_errors() {
    let mut message = valid_delete_session_request_message();
    message.information_elements.clear();
    let error = DeleteSessionRequest::try_from(&message).unwrap_err();
    assert!(matches!(error, GtpError::MissingIe(t) if t == ie_type::EBI));
}

#[test]
fn empty_ebi_value_errors() {
    let mut message = valid_delete_session_request_message();
    message.information_elements[0].value = Bytes::new();
    let error = DeleteSessionRequest::try_from(&message).unwrap_err();
    assert!(matches!(error, GtpError::InvalidIeValue(t) if t == ie_type::EBI));
}

#[test]
fn delete_session_request_missing_teid_in_header_errors() {
    let mut message = valid_delete_session_request_message();
    message.header.teid = None;
    message.header.teid_flag = false;
    let error = DeleteSessionRequest::try_from(&message).unwrap_err();
    assert!(matches!(error, GtpError::MissingTeid));
}

#[test]
fn delete_session_request_into_message_sets_correct_header() {
    let delete_session_request =
        DeleteSessionRequest::try_from(&valid_delete_session_request_message()).unwrap();
    let message: GtpMessage = delete_session_request.into();
    assert_eq!(message.header.message_type, 36);
    assert_eq!(message.header.teid, Some(0x2000_0002));
    assert_eq!(message.header.teid_flag, true);
    assert_eq!(message.information_elements.len(), 1);
    assert_eq!(message.information_elements[0].ie_type, ie_type::EBI);
}

#[test]
fn delete_session_request_full_roundtrip_through_wire_bytes() {
    let before = valid_delete_session_request_message();
    let delete_session_request = DeleteSessionRequest::try_from(&before).unwrap();
    let rebuilt_message: GtpMessage = delete_session_request.into();
    let mut wire = BytesMut::new();
    rebuilt_message.write(&mut wire);
    let reparsed_message = GtpMessage::parse(wire.freeze()).unwrap();
    let reparsed = DeleteSessionRequest::try_from(&reparsed_message).unwrap();
    assert_eq!(reparsed.linked_ebi, 5);
    assert_eq!(reparsed.teid, 0x2000_0002);
    assert_eq!(reparsed.sequence_number, 300);
}

fn valid_dsresp_message() -> GtpMessage {
    GtpMessage {
        header: header(37, Some(0x3000_0003), 400),
        information_elements: vec![information_elements(ie_type::CAUSE, 0, &cause_bytes(16))],
    }
}

#[test]
fn delete_session_response_parses_valid_message() {
    let message = valid_dsresp_message();
    let response = DeleteSessionResponse::try_from(&message).expect("should parse");
    assert!(response.cause.is_accepted());
    assert_eq!(response.teid, 0x3000_0003);
    assert_eq!(response.sequence_number, 400);
}

#[test]
fn delete_session_response_rejected_cause_still_parses_successfully() {
    let mut message = valid_dsresp_message();
    message.information_elements[0] = information_elements(ie_type::CAUSE, 0, &cause_bytes(2));
    let response = DeleteSessionResponse::try_from(&message).unwrap();
    assert!(!response.cause.is_accepted());
    assert_eq!(response.cause.value, 2);
}

#[test]
fn delete_session_response_missing_cause_errors() {
    let mut message = valid_dsresp_message();
    message.information_elements.clear();
    let error = DeleteSessionResponse::try_from(&message).unwrap_err();
    assert!(matches!(error, GtpError::MissingIe(t) if t == ie_type::CAUSE));
}

#[test]
fn delete_session_response_missing_teid_in_header_errors() {
    let mut message = valid_dsresp_message();
    message.header.teid = None;
    message.header.teid_flag = false;
    let error = DeleteSessionResponse::try_from(&message).unwrap_err();
    assert!(matches!(error, GtpError::MissingTeid));
}

#[test]
fn delete_session_response_into_message_sets_correct_header() {
    let response = DeleteSessionResponse::try_from(&valid_dsresp_message()).unwrap();
    let message: GtpMessage = response.into();
    assert_eq!(message.header.message_type, 37);
    assert_eq!(message.header.teid, Some(0x3000_0003));
    assert_eq!(message.information_elements.len(), 1);
    assert_eq!(message.information_elements[0].ie_type, ie_type::CAUSE);
}

#[test]
fn delete_session_response_full_roundtrip_through_wire_bytes() {
    let before = valid_dsresp_message();
    let response = DeleteSessionResponse::try_from(&before).unwrap();
    let rebuilt_message: GtpMessage = response.into();
    let mut wire = BytesMut::new();
    rebuilt_message.write(&mut wire);
    let reparsed_message = GtpMessage::parse(wire.freeze()).unwrap();
    let reparsed = DeleteSessionResponse::try_from(&reparsed_message).unwrap();
    assert!(reparsed.cause.is_accepted());
    assert_eq!(reparsed.teid, 0x3000_0003);
}

#[test]
fn echo_request_and_response_roundtrip() {
    let request = EchoRequest {
        recovery: Recovery { restart_counter: 7 },
        sequence_number: 11,
    };
    let message: GtpMessage = request.into();
    assert_eq!(message.header.message_type, message_type::ECHO_REQUEST);
    assert!(!message.header.teid_flag);
    let back = EchoRequest::try_from(&wire_roundtrip(message)).unwrap();
    assert_eq!(back.recovery.restart_counter, 7);
    assert_eq!(back.sequence_number, 11);
    let response = EchoResponse {
        recovery: Recovery { restart_counter: 9 },
        sequence_number: 12,
    };
    let message: GtpMessage = response.into();
    assert_eq!(message.header.message_type, message_type::ECHO_RESPONSE);
    let back = EchoResponse::try_from(&wire_roundtrip(message)).unwrap();
    assert_eq!(back.recovery.restart_counter, 9);
    assert_eq!(back.sequence_number, 12);
}

#[test]
fn echo_request_finds_recovery_of_any_instance() {
    let message = GtpMessage {
        header: header(message_type::ECHO_REQUEST, None, 5),
        information_elements: vec![information_elements(ie_type::RECOVERY, 3, &[42])],
    };
    assert_eq!(
        EchoRequest::try_from(&message).unwrap().recovery.restart_counter,
        42
    );
    let empty = GtpMessage {
        header: header(message_type::ECHO_REQUEST, None, 5),
        information_elements: vec![],
    };
    assert!(matches!(
        EchoResponse::try_from(&empty),
        Err(GtpError::MissingIe(3))
    ));
}

#[test]
fn create_session_response_keeps_bearer_cause() {
    let response = CreateSessionResponse::try_from(&valid_csresp_message()).unwrap();
    assert_eq!(response.bearer_context.cause, Some(Cause { value: 16 }));
}
