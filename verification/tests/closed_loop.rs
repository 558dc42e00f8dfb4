use gtpv2::closed_loop::{worker_step, WorkerAction, WorkerConfig, WorkerEvent, WorkerReport, WorkerState};
use gtpv2::ie::cause::Cause;
use gtpv2::ie::types::message_type;
use gtpv2::load_client::{round_can_start, ReplyEvent};
use gtpv2::load_server::{LoadServer, ServerAction};
use gtpv2::messages::{CreateSessionRequest, CreateSessionResponse, DeleteSessionRequest};
use gtpv2::metrics::{Counts, MetricCounts};
use gtpv2::GtpMessage;

fn config(with_delete: bool) -> WorkerConfig {
    WorkerConfig { imsi_base: "001010000000001".to_string(), local_ip: [192, 0, 2, 7], with_delete }
}

fn server_reply(server: &mut LoadServer, message: &GtpMessage) -> GtpMessage {
    match server.handle_message(Ok(message.clone())).0 {
        ServerAction::Reply(reply) => reply,
        other => panic!("expected a reply, got {:?}", other),
    }
}

fn sent_message(action: WorkerAction) -> (u32, GtpMessage) {
    match action {
        WorkerAction::Send { sequence_number, message } => (sequence_number, message),
        other => panic!("expected a send, got {:?}", other),
    }
}

#[test]
fn worker_round_opens_and_closes_a_session() {
    let config = config(true);
    let mut counts = MetricCounts::new();
    let mut server = LoadServer::new([10, 0, 0, 1], 0);

    let (state, action) = worker_step(
        &config,
        WorkerState::Start,
        WorkerEvent::Begin { request_counter: 0x0100_0005, subscriber: 7 },
        &mut counts,
    );
    assert_eq!(state, WorkerState::SendingCreate { sequence_number: 5 });
    let (seq, request) = sent_message(action);
    assert_eq!(seq, 5);
    let decoded = CreateSessionRequest::try_from(&request).unwrap();
    assert_eq!(decoded.imsi.0, "001010000000007");
    assert_eq!(decoded.sequence_number, 5);

    let (state, action) = worker_step(&config, state, WorkerEvent::Sent, &mut counts);
    assert_eq!(state, WorkerState::AwaitingCreate { sequence_number: 5 });
    assert!(matches!(action, WorkerAction::AwaitReply { sequence_number: 5 }));
    assert_eq!(counts.total.sent, 1);

    let reply = server_reply(&mut server, &request);
    let (state, action) = worker_step(&config, state, WorkerEvent::Replied(ReplyEvent::Answered(reply)), &mut counts);
    assert_eq!(state, WorkerState::Holding { sequence_number: 5, linked_ebi: 5, teid: 5 });
    assert!(matches!(action, WorkerAction::Hold));
    assert_eq!(counts.total.received, 1);

    let (state, action) = worker_step(&config, state, WorkerEvent::HoldOver { request_counter: 9 }, &mut counts);
    assert_eq!(state, WorkerState::SendingDelete { sequence_number: 5, delete_sequence_number: 9 });
    let (seq, delete) = sent_message(action);
    assert_eq!(seq, 9);
    assert_eq!(delete.header.message_type, message_type::DELETE_SESSION_REQUEST);
    let decoded = DeleteSessionRequest::try_from(&delete).unwrap();
    assert_eq!(decoded.linked_ebi, 5);
    assert_eq!(decoded.teid, 5);
    assert_eq!(decoded.sequence_number, 9);

    let (state, _) = worker_step(&config, state, WorkerEvent::Sent, &mut counts);
    let reply = server_reply(&mut server, &delete);
    let (state, action) = worker_step(&config, state, WorkerEvent::Replied(ReplyEvent::Answered(reply)), &mut counts);
    assert_eq!(state, WorkerState::Finished { completed: true });
    assert!(matches!(action, WorkerAction::Finish { completed: true, report: None }));
    assert_eq!(counts.total, Counts { sent: 2, received: 2, timeouts: 0, errors: 0, rejected: 0 });
}

#[test]
fn worker_round_without_delete_ends_after_the_answer() {
    let config = config(false);
    let mut counts = MetricCounts::new();
    let mut server = LoadServer::new([10, 0, 0, 1], 0);
    let (state, action) =
        worker_step(&config, WorkerState::Start, WorkerEvent::Begin { request_counter: 1, subscriber: 1 }, &mut counts);
    let (_, request) = sent_message(action);
    let (state, _) = worker_step(&config, state, WorkerEvent::Sent, &mut counts);
    let reply = server_reply(&mut server, &request);
    let (state, action) = worker_step(&config, state, WorkerEvent::Replied(ReplyEvent::Answered(reply)), &mut counts);
    assert_eq!(state, WorkerState::Finished { completed: false });
    assert!(matches!(action, WorkerAction::Finish { completed: false, report: None }));
}

#[test]
fn worker_round_reports_refusal() {
    let config = config(true);
    let mut counts = MetricCounts::new();
    let refusal: GtpMessage = CreateSessionResponse {
        cause: Cause { value: 73 },
        sender_fteid: gtpv2::ie::fteid::Fteid { interface_type: 7, teid_or_gre_key: 1, ipv4: None, ipv6: None },
        ambr: None,
        bearer_context: Default::default(),
        teid: 1,
        sequence_number: 1,
    }
    .into();
    let (state, action) = worker_step(
        &config,
        WorkerState::AwaitingCreate { sequence_number: 1 },
        WorkerEvent::Replied(ReplyEvent::Answered(refusal)),
        &mut counts,
    );
    assert_eq!(state, WorkerState::Finished { completed: false });
    assert!(matches!(action, WorkerAction::Finish { completed: false, report: Some(WorkerReport::Rejected(73)) }));
    assert_eq!(counts.total.rejected, 1);
    assert_eq!(counts.total.received, 1);
}

#[test]
fn worker_round_counts_failures_and_timeouts() {
    let config = config(true);
    let mut counts = MetricCounts::new();
    let (state, action) =
        worker_step(&config, WorkerState::SendingCreate { sequence_number: 3 }, WorkerEvent::SendFailed, &mut counts);
    assert_eq!(state, WorkerState::Finished { completed: false });
    assert!(matches!(action, WorkerAction::Finish { completed: false, report: None }));
    let (state, _) = worker_step(
        &config,
        WorkerState::AwaitingDelete { sequence_number: 3, delete_sequence_number: 4 },
        WorkerEvent::Replied(ReplyEvent::TimedOut),
        &mut counts,
    );
    assert_eq!(state, WorkerState::Finished { completed: true });
    assert_eq!(counts.total, Counts { sent: 0, received: 0, timeouts: 1, errors: 1, rejected: 0 });
}

#[test]
fn worker_ignores_events_out_of_turn() {
    let config = config(true);
    let mut counts = MetricCounts::new();
    let (state, action) = worker_step(&config, WorkerState::Start, WorkerEvent::Sent, &mut counts);
    assert_eq!(state, WorkerState::Start);
    assert!(matches!(action, WorkerAction::Ignore));
    assert_eq!(counts.total, Counts::zero());
}

#[test]
fn round_can_start_checks_the_base() {
    assert!(round_can_start("001010000000001", 1));
    assert!(round_can_start("000000000", 999_999_999));
    assert!(!round_can_start("12345", 1));
    assert!(round_can_start("00101000000000a", 1));
    assert!(!round_can_start("0010-0000000001", 1));
    assert!(round_can_start("0010a0000000001", 1));
    assert!(!round_can_start("0000000\u{e9}\u{e9}\u{e9}\u{e9}\u{e9}", 1));
    assert!(!round_can_start("001010000000001", 1_000_000_000_000_000));
}
