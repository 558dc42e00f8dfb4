use gtpv2::header::Header;
use gtpv2::ie::bearer_context::BearerContext;
use gtpv2::ie::cause::Cause;
use gtpv2::ie::fteid::Fteid;
use gtpv2::ie::recovery::Recovery;
use gtpv2::ie::types::{ie_type, message_type};
use gtpv2::ie::InformationElement;
use gtpv2::load_client::{
    build_create_session_request, create_session_outcome, create_session_rejection, delete_session_rejection,
    derive_imsi, sequence_number_from_counter, settle_create_session, settle_create_session_reply,
    settle_delete_session_reply, write_csv_header, zero_padded_digits, CreateSessionOutcome, ReplyEvent,
};
use gtpv2::load_server::{
    get_restart_counter, handle_create_session_request, restart_counter_from_millis, LoadServer, RequestKind,
    ServerAction, FIRST_TEID,
};
use gtpv2::metrics::{Counts, MetricCounts};
use gtpv2::messages::{
    CreateSessionRequest, CreateSessionResponse, DeleteSessionRequest, DeleteSessionResponse, EchoRequest,
    EchoResponse,
};
use gtpv2::{GtpError, GtpMessage};

fn echo_request(seq: u32) -> GtpMessage {
    EchoRequest { recovery: Recovery { restart_counter: 1 }, sequence_number: seq }.into()
}

fn client_request(seq: u32) -> GtpMessage {
    build_create_session_request("001010000000001".to_string(), seq, [192, 0, 2, 10])
}

fn response_message(cause: u8, ebi: Option<u8>, teid: u32) -> GtpMessage {
    CreateSessionResponse {
        cause: Cause { value: cause },
        sender_fteid: Fteid { interface_type: 7, teid_or_gre_key: 4000, ipv4: Some([198, 51, 100, 1]), ipv6: None },
        ambr: None,
        bearer_context: BearerContext { ebi, ..Default::default() },
        teid,
        sequence_number: 9,
    }
    .into()
}

fn reply(action: ServerAction) -> GtpMessage {
    match action {
        ServerAction::Reply(m) => m,
        other => panic!("expected a reply, got {:?}", other),
    }
}

#[test]
fn derive_imsi_replaces_last_nine_digits() {
    assert_eq!(derive_imsi("001010000000001", 1), "001010000000001");
    assert_eq!(derive_imsi("001010000000001", 123), "001010000000123");
    assert_eq!(derive_imsi("999999999999999", 0), "999999000000000");
}

#[test]
fn derive_imsi_with_more_than_nine_digits_replaces_more() {
    assert_eq!(derive_imsi("001010000000001", 1_234_567_890), "001011234567890");
}

#[test]
fn derive_imsi_keeps_length() {
    let base = "310150123456789";
    for n in [0u64, 7, 999_999_999, 123_456] {
        assert_eq!(derive_imsi(base, n).len(), base.len());
    }
}

#[test]
fn derive_imsi_distinct_numbers_give_distinct_imsis() {
    let base = "001010000000001";
    assert_ne!(derive_imsi(base, 41), derive_imsi(base, 42));
}

#[test]
fn zero_padded_digits_pads_to_width() {
    assert_eq!(zero_padded_digits(42, 9), b"000000042".to_vec());
    assert_eq!(zero_padded_digits(0, 3), b"000".to_vec());
    assert_eq!(zero_padded_digits(12345, 3), b"12345".to_vec());
    assert_eq!(zero_padded_digits(u64::MAX, 9), b"18446744073709551615".to_vec());
}

#[test]
fn sequence_number_keeps_low_24_bits() {
    assert_eq!(sequence_number_from_counter(1), 1);
    assert_eq!(sequence_number_from_counter(0x00FF_FFFF), 0x00FF_FFFF);
    assert_eq!(sequence_number_from_counter(0x0100_0001), 1);
    assert_eq!(sequence_number_from_counter(u32::MAX), 0x00FF_FFFF);
}

#[test]
fn build_create_session_request_fills_every_field() {
    let message = client_request(77);
    assert_eq!(message.header.message_type, message_type::CREATE_SESSION_REQUEST);
    assert_eq!(message.header.teid, Some(0));
    assert_eq!(message.header.sequence_number, 77);

    let request = CreateSessionRequest::try_from(&message).unwrap();
    assert_eq!(request.imsi.0, "001010000000001");
    assert_eq!(request.apn.0, "internet");
    assert_eq!(request.sender_fteid.interface_type, 6);
    assert_eq!(request.sender_fteid.teid_or_gre_key, 77);
    assert_eq!(request.sender_fteid.ipv4, Some([192, 0, 2, 10]));
    assert_eq!(request.ambr.uplink_kbps, 50_000);
    assert_eq!(request.ambr.downlink_kbps, 100_000);
    assert_eq!(request.bearer_context.ebi, Some(5));
    let fteid = request.bearer_context.fteid.unwrap();
    assert_eq!(fteid.interface_type, 4);
    assert_eq!(fteid.teid_or_gre_key, 77);
    let qos = request.bearer_context.bearer_qos.unwrap();
    assert_eq!(qos.max_bitrate_uplink_kbps, 50_000);
    assert_eq!(qos.max_bitrate_downlink_kbps, 100_000);
    assert_eq!(qos.qci, 9);
    assert_eq!(request.sequence_number, 77);
}

#[test]
fn server_answers_echo_with_restart_counter() {
    let mut server = LoadServer::new([10, 0, 0, 1], 42);
    let (action, report) = server.handle_message(Ok(echo_request(5)));
    let message = reply(action);
    assert!(!report);
    assert_eq!(server.count, 1);
    assert_eq!(message.header.message_type, message_type::ECHO_RESPONSE);
    let response = EchoResponse::try_from(&message).unwrap();
    assert_eq!(response.recovery.restart_counter, 42);
    assert_eq!(response.sequence_number, 5);
}

#[test]
fn server_answers_create_session_with_allocated_teid() {
    let mut server = LoadServer::new([10, 0, 0, 1], 0);
    let (action, _) = server.handle_message(Ok(client_request(21)));
    let message = reply(action);
    assert_eq!(server.next_teid, FIRST_TEID + 1);
    assert_eq!(message.header.message_type, message_type::CREATE_SESSION_RESPONSE);
    assert_eq!(message.header.teid, Some(21));
    assert_eq!(message.header.sequence_number, 21);

    let response = CreateSessionResponse::try_from(&message).unwrap();
    assert!(response.cause.is_accepted());
    assert_eq!(response.sender_fteid.interface_type, 7);
    assert_eq!(response.sender_fteid.teid_or_gre_key, FIRST_TEID);
    assert_eq!(response.sender_fteid.ipv4, Some([10, 0, 0, 1]));
    assert_eq!(response.ambr.unwrap().downlink_kbps, 100_000);
    assert_eq!(response.bearer_context.ebi, Some(5));
    assert_eq!(response.bearer_context.cause, Some(Cause { value: 16 }));
    let fteid = response.bearer_context.fteid.unwrap();
    assert_eq!(fteid.interface_type, 5);
    assert_eq!(fteid.teid_or_gre_key, FIRST_TEID);
}

#[test]
fn server_allocates_successive_teids() {
    let mut server = LoadServer::new([10, 0, 0, 1], 0);
    let (first, _) = server.handle_message(Ok(client_request(1)));
    let (second, _) = server.handle_message(Ok(client_request(2)));
    let first = CreateSessionResponse::try_from(&reply(first)).unwrap();
    let second = CreateSessionResponse::try_from(&reply(second)).unwrap();
    assert_eq!(first.sender_fteid.teid_or_gre_key, 1000);
    assert_eq!(second.sender_fteid.teid_or_gre_key, 1001);
    assert_eq!(server.count, 2);
}

#[test]
fn teid_allocation_wraps_after_the_last() {
    let mut next = u32::MAX;
    let action = handle_create_session_request([10, 0, 0, 1], &mut next, &client_request(3));
    assert_eq!(next, 0);
    let response = CreateSessionResponse::try_from(&reply(action)).unwrap();
    assert_eq!(response.sender_fteid.teid_or_gre_key, u32::MAX);
}

#[test]
fn server_answers_delete_session() {
    let mut server = LoadServer::new([10, 0, 0, 1], 0);
    let request: GtpMessage = DeleteSessionRequest { linked_ebi: 5, teid: 0xABCD, sequence_number: 12 }.into();
    let (action, _) = server.handle_message(Ok(request));
    let response = DeleteSessionResponse::try_from(&reply(action)).unwrap();
    assert!(response.cause.is_accepted());
    assert_eq!(response.teid, 0xABCD);
    assert_eq!(response.sequence_number, 12);
    assert_eq!(server.next_teid, FIRST_TEID);
}

#[test]
fn server_counts_undecodable_requests_without_reply() {
    let mut server = LoadServer::new([10, 0, 0, 1], 0);
    let message = GtpMessage {
        header: Header {
            version: 2,
            piggybacking_flag: false,
            teid_flag: false,
            message_type: message_type::ECHO_REQUEST,
            teid: None,
            sequence_number: 1,
        },
        information_elements: vec![],
    };
    let (action, report) = server.handle_message(Ok(message));
    assert!(matches!(
        action,
        ServerAction::BadRequest(RequestKind::Echo, GtpError::MissingIe(t)) if t == ie_type::RECOVERY
    ));
    assert_eq!(server.count, 1);
    assert!(!report);
}

#[test]
fn bad_create_session_request_still_takes_a_teid() {
    let mut server = LoadServer::new([10, 0, 0, 1], 0);
    let message = GtpMessage {
        header: Header {
            version: 2,
            piggybacking_flag: false,
            teid_flag: true,
            message_type: message_type::CREATE_SESSION_REQUEST,
            teid: Some(0),
            sequence_number: 1,
        },
        information_elements: vec![],
    };
    let (action, _) = server.handle_message(Ok(message));
    assert!(matches!(action, ServerAction::BadRequest(RequestKind::CreateSession, GtpError::MissingIe(1))));
    assert_eq!(server.next_teid, FIRST_TEID + 1);
}

#[test]
fn server_ignores_unhandled_types() {
    let mut server = LoadServer::new([10, 0, 0, 1], 0);
    let message = GtpMessage {
        header: Header {
            version: 2,
            piggybacking_flag: false,
            teid_flag: false,
            message_type: 99,
            teid: None,
            sequence_number: 1,
        },
        information_elements: vec![InformationElement {
            ie_type: 3,
            instance: 0,
            value: tokio_util::bytes::Bytes::from_static(&[1]),
        }],
    };
    let (action, report) = server.handle_message(Ok(message));
    assert!(matches!(action, ServerAction::Unhandled(99)));
    assert!(!report);
    assert_eq!(server.count, 0);
}

#[test]
fn decode_error_reports_when_count_is_a_multiple() {
    let mut server = LoadServer::new([10, 0, 0, 1], 0);
    let (action, report) = server.handle_message(Err(GtpError::Truncated));
    assert!(matches!(action, ServerAction::DecodeFailed(GtpError::Truncated)));
    assert!(report);
    assert_eq!(server.count, 0);
    server.count = 1;
    let (_, report) = server.handle_message(Err(GtpError::Truncated));
    assert!(!report);
}

#[test]
fn server_reports_every_thousand_requests() {
    let mut server = LoadServer::new([10, 0, 0, 1], 0);
    server.count = 998;
    let (_, report) = server.handle_message(Ok(echo_request(1)));
    assert!(!report);
    let (_, report) = server.handle_message(Ok(echo_request(2)));
    assert!(report);
    assert_eq!(server.count, 1000);
}

#[test]
fn restart_counter_is_low_byte_of_millis() {
    assert_eq!(restart_counter_from_millis(0x1_0203), 3);
    assert_eq!(restart_counter_from_millis(255), 255);
    assert_eq!(restart_counter_from_millis(256), 0);
    assert!(get_restart_counter().is_some());
}

#[test]
fn client_reads_server_reply_as_accepted_session() {
    let mut server = LoadServer::new([10, 0, 0, 1], 0);
    let (action, _) = server.handle_message(Ok(client_request(33)));
    let message = reply(action);
    match create_session_outcome(&message, true) {
        CreateSessionOutcome::DeleteSession { linked_ebi, teid } => {
            assert_eq!(linked_ebi, 5);
            assert_eq!(teid, 33);
        }
        other => panic!("unexpected outcome {:?}", other),
    }
    assert!(matches!(create_session_outcome(&message, false), CreateSessionOutcome::Established));
}

#[test]
fn create_session_outcome_cases() {
    assert!(matches!(create_session_outcome(&response_message(64, Some(6), 99), true), CreateSessionOutcome::Rejected(64)));
    assert!(matches!(
        create_session_outcome(&response_message(16, Some(6), 99), true),
        CreateSessionOutcome::DeleteSession { linked_ebi: 6, teid: 99 }
    ));
    assert!(matches!(
        create_session_outcome(&response_message(16, None, 99), true),
        CreateSessionOutcome::DeleteSession { linked_ebi: 5, teid: 99 }
    ));
    assert!(matches!(create_session_outcome(&response_message(16, None, 99), false), CreateSessionOutcome::Established));
    assert!(matches!(
        create_session_outcome(&echo_request(1), true),
        CreateSessionOutcome::Malformed(GtpError::MissingIe(2))
    ));
}

#[test]
fn rejections_name_the_refusing_cause() {
    assert_eq!(create_session_rejection(&response_message(72, None, 1)), Some(72));
    assert_eq!(create_session_rejection(&response_message(16, None, 1)), None);
    assert_eq!(create_session_rejection(&echo_request(1)), None);
    let refused: GtpMessage = DeleteSessionResponse { cause: Cause { value: 64 }, teid: 1, sequence_number: 2 }.into();
    let accepted: GtpMessage = DeleteSessionResponse { cause: Cause { value: 16 }, teid: 1, sequence_number: 2 }.into();
    assert_eq!(delete_session_rejection(&refused), Some(64));
    assert_eq!(delete_session_rejection(&accepted), None);
    assert_eq!(delete_session_rejection(&echo_request(1)), None);
}

#[test]
fn settling_replies_counts_events() {
    let mut counts = MetricCounts::new();
    assert_eq!(settle_create_session_reply(&ReplyEvent::Answered(response_message(72, None, 1)), &mut counts), Some(72));
    assert_eq!(settle_create_session_reply(&ReplyEvent::Answered(response_message(16, None, 1)), &mut counts), None);
    assert_eq!(settle_create_session_reply(&ReplyEvent::Dropped, &mut counts), None);
    assert_eq!(settle_create_session_reply(&ReplyEvent::TimedOut, &mut counts), None);
    assert_eq!(counts.total, Counts { sent: 0, received: 2, timeouts: 1, errors: 1, rejected: 1 });
    assert_eq!(counts.interval, counts.total);

    let outcome = settle_create_session(&ReplyEvent::Answered(response_message(64, None, 1)), true, &mut counts);
    assert!(matches!(outcome, Some(CreateSessionOutcome::Rejected(64))));
    assert!(settle_create_session(&ReplyEvent::TimedOut, true, &mut counts).is_none());
    let refused: GtpMessage = DeleteSessionResponse { cause: Cause { value: 65 }, teid: 1, sequence_number: 2 }.into();
    assert_eq!(settle_delete_session_reply(&ReplyEvent::Answered(refused), &mut counts), Some(65));
    assert_eq!(counts.total, Counts { sent: 0, received: 4, timeouts: 2, errors: 1, rejected: 3 });
}

#[test]
fn metric_counts_reset_only_the_interval() {
    let mut counts = MetricCounts::new();
    counts.increment_sent();
    counts.increment_sent();
    counts.increment_received();
    counts.increment_timeout();
    counts.increment_error();
    counts.increment_rejected();
    assert_eq!(counts.total, Counts { sent: 2, received: 1, timeouts: 1, errors: 1, rejected: 1 });
    counts.reset_interval_counters();
    assert_eq!(counts.interval, Counts::zero());
    assert_eq!(counts.total.sent, 2);
    counts.increment_sent();
    assert_eq!(counts.interval.sent, 1);
    assert_eq!(counts.total.sent, 3);
    assert!(counts.total.room_left());
}

#[test]
fn csv_header_line() {
    let mut out = String::from("x");
    write_csv_header(&mut out);
    assert_eq!(
        out,
        "xunix_time,sent,received,timeouts,errors,rejected,throughput_per_sec,p50_ms,p90_ms,p99_ms,max_ms\n"
    );
}
