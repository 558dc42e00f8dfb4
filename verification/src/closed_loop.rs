//! One round of a closed-loop load worker as a state machine: open a session,
//! wait for the answer, and where the session is to be closed, hold it, close
//! it and wait for that answer. The caller performs each action (sending,
//! waiting, holding) and feeds back what happened.
use vstd::prelude::*;
use vstd::utf8::*;
use crate::error::GtpError;
use crate::load_client::{
    CreateSessionOutcome, ReplyEvent, build_create_session_request, create_session_outcome_of,
    create_session_request_for, delete_session_rejection_of, derive_imsi, derived_imsi, round_startable,
    sequence_number_from_counter, settle_create_session, settle_delete_session_reply, settled_counts,
};
use crate::message::{GtpMessage, MessageModel};
use crate::messages::create_session_request::create_session_request_message;
use crate::messages::delete_session_request::delete_session_request_message;
use crate::messages::DeleteSessionRequest;
use crate::metrics::{Counts, MetricCounts, Tally};

verus! {

/// What every round of a worker uses.
pub struct WorkerConfig {
    /// The IMSI whose last digits each round replaces by its subscriber number.
    pub imsi_base: String,
    /// The IPv4 address of the worker's endpoints.
    pub local_ip: [u8; 4],
    /// Whether the worker closes each session it opens.
    pub with_delete: bool,
}

/// Where a round stands. Sequence numbers name the requests whose answers
/// are awaited; `sequence_number` is always that of the round's create
/// session request.
#[derive(Debug, Clone, Copy, PartialEq, Eq, Structural)]
pub enum WorkerState {
    /// The round has not begun.
    Start,
    /// The create session request is going out.
    SendingCreate { sequence_number: u32 },
    /// Waiting for the answer to the create session request.
    AwaitingCreate { sequence_number: u32 },
    /// The session is up and is to be closed after the hold.
    Holding { sequence_number: u32, linked_ebi: u8, teid: u32 },
    /// The delete session request is going out.
    SendingDelete { sequence_number: u32, delete_sequence_number: u32 },
    /// Waiting for the answer to the delete session request.
    AwaitingDelete { sequence_number: u32, delete_sequence_number: u32 },
    /// The round is over; `completed` where it ran to its end.
    Finished { completed: bool },
}

/// What happened since the last action.
#[derive(Debug)]
pub enum WorkerEvent {
    /// A round begins with these readings of the request counter and the
    /// subscriber counter.
    Begin { request_counter: u32, subscriber: u64 },
    /// The request went out.
    Sent,
    /// The request could not be sent.
    SendFailed,
    /// The wait for the answer ended.
    Replied(ReplyEvent),
    /// The hold is over; the request counter now reads this.
    HoldOver { request_counter: u32 },
}

/// Why a round ended early, where the caller should tell.
#[derive(Debug)]
pub enum WorkerReport {
    /// The answer to the create session request was no create session response.
    Malformed(GtpError),
    /// The peer refused the session, with this cause.
    Rejected(u8),
    /// The peer refused to close the session, with this cause.
    DeleteRejected(u8),
}

/// What the caller is to do next.
#[derive(Debug)]
pub enum WorkerAction {
    /// Send this request; its answer will come under `sequence_number`.
    Send { sequence_number: u32, message: GtpMessage },
    /// Wait for the answer that comes under `sequence_number`.
    AwaitReply { sequence_number: u32 },
    /// Hold the session before closing it.
    Hold,
    /// End the round, telling the report if there is one.
    Finish { completed: bool, report: Option<WorkerReport> },
    /// Nothing: the event does not belong to this state.
    Ignore,
}

/// A worker action with its request as plain values.
pub enum WorkerActionModel {
    Send { sequence_number: u32, message: MessageModel },
    AwaitReply { sequence_number: u32 },
    Hold,
    Finish { completed: bool, report: Option<WorkerReport> },
    Ignore,
}

impl View for WorkerAction {
    type V = WorkerActionModel;

    open spec fn view(&self) -> WorkerActionModel {
        match self {
            WorkerAction::Send { sequence_number, message } => WorkerActionModel::Send {
                sequence_number: *sequence_number,
                message: message@,
            },
            WorkerAction::AwaitReply { sequence_number } => WorkerActionModel::AwaitReply {
                sequence_number: *sequence_number,
            },
            WorkerAction::Hold => WorkerActionModel::Hold,
            WorkerAction::Finish { completed, report } => WorkerActionModel::Finish {
                completed: *completed,
                report: *report,
            },
            WorkerAction::Ignore => WorkerActionModel::Ignore,
        }
    }
}

/// The sequence number a reading of the request counter gives.
pub open spec fn sequence_number_of(request_counter: u32) -> u32 {
    (request_counter % 0x100_0000) as u32
}

/// The create session request that opens the session of subscriber number
/// `n`: its IMSI is the base with its last digits replaced by `n`.
pub open spec fn opening_request(imsi_base: Seq<char>, n: u64, seq: u32, local_ip: Seq<u8>) -> MessageModel {
    create_session_request_message(
        create_session_request_for(decode_utf8(derived_imsi(encode_utf8(imsi_base), n)), seq, local_ip),
    )
}

/// The state after `event` in `state`. Events that do not belong to a state
/// leave it unchanged.
pub open spec fn worker_next(with_delete: bool, state: WorkerState, event: WorkerEvent) -> WorkerState {
    match (state, event) {
        (WorkerState::Start, WorkerEvent::Begin { request_counter, .. }) => WorkerState::SendingCreate {
            sequence_number: sequence_number_of(request_counter),
        },
        (WorkerState::SendingCreate { sequence_number }, WorkerEvent::Sent) => WorkerState::AwaitingCreate {
            sequence_number,
        },
        (WorkerState::SendingCreate { .. }, WorkerEvent::SendFailed) => WorkerState::Finished { completed: false },
        (WorkerState::AwaitingCreate { sequence_number }, WorkerEvent::Replied(reply)) => match reply {
            ReplyEvent::Answered(m) => match create_session_outcome_of(m@, with_delete) {
                CreateSessionOutcome::DeleteSession { linked_ebi, teid } => WorkerState::Holding {
                    sequence_number,
                    linked_ebi,
                    teid,
                },
                _ => WorkerState::Finished { completed: false },
            },
            _ => WorkerState::Finished { completed: false },
        },
        (WorkerState::Holding { sequence_number, .. }, WorkerEvent::HoldOver { request_counter }) => {
            WorkerState::SendingDelete {
                sequence_number,
                delete_sequence_number: sequence_number_of(request_counter),
            }
        },
        (
            WorkerState::SendingDelete { sequence_number, delete_sequence_number },
            WorkerEvent::Sent,
        ) => WorkerState::AwaitingDelete { sequence_number, delete_sequence_number },
        (WorkerState::SendingDelete { .. }, WorkerEvent::SendFailed) => WorkerState::Finished { completed: false },
        (WorkerState::AwaitingDelete { .. }, WorkerEvent::Replied(_)) => WorkerState::Finished { completed: true },
        _ => state,
    }
}

/// The action after `event` in `state`: send the opening request; wait once
/// it went out; hold a session to be closed; send the closing request after
/// the hold; wait once it went out; else end the round, telling a malformed
/// or refusing answer.
pub open spec fn worker_action(
    imsi_base: Seq<char>,
    local_ip: Seq<u8>,
    with_delete: bool,
    state: WorkerState,
    event: WorkerEvent,
) -> WorkerActionModel {
    match (state, event) {
        (WorkerState::Start, WorkerEvent::Begin { request_counter, subscriber }) => WorkerActionModel::Send {
            sequence_number: sequence_number_of(request_counter),
            message: opening_request(imsi_base, subscriber, sequence_number_of(request_counter), local_ip),
        },
        (WorkerState::SendingCreate { sequence_number }, WorkerEvent::Sent) => WorkerActionModel::AwaitReply {
            sequence_number,
        },
        (WorkerState::AwaitingCreate { .. }, WorkerEvent::Replied(reply)) => match reply {
            ReplyEvent::Answered(m) => match create_session_outcome_of(m@, with_delete) {
                CreateSessionOutcome::Malformed(e) => WorkerActionModel::Finish {
                    completed: false,
                    report: Some(WorkerReport::Malformed(e)),
                },
                CreateSessionOutcome::Rejected(cause) => WorkerActionModel::Finish {
                    completed: false,
                    report: Some(WorkerReport::Rejected(cause)),
                },
                CreateSessionOutcome::Established => WorkerActionModel::Finish { completed: false, report: None },
                CreateSessionOutcome::DeleteSession { .. } => WorkerActionModel::Hold,
            },
            _ => WorkerActionModel::Finish { completed: false, report: None },
        },
        (WorkerState::Holding { linked_ebi, teid, .. }, WorkerEvent::HoldOver { request_counter }) => {
            WorkerActionModel::Send {
                sequence_number: sequence_number_of(request_counter),
                message: delete_session_request_message(
                    DeleteSessionRequest {
                        linked_ebi,
                        teid,
                        sequence_number: sequence_number_of(request_counter),
                    },
                ),
            }
        },
        (WorkerState::SendingDelete { delete_sequence_number, .. }, WorkerEvent::Sent) => {
            WorkerActionModel::AwaitReply { sequence_number: delete_sequence_number }
        },
        (WorkerState::SendingCreate { .. }, WorkerEvent::SendFailed) => WorkerActionModel::Finish {
            completed: false,
            report: None,
        },
        (WorkerState::SendingDelete { .. }, WorkerEvent::SendFailed) => WorkerActionModel::Finish {
            completed: false,
            report: None,
        },
        (WorkerState::AwaitingDelete { .. }, WorkerEvent::Replied(reply)) => WorkerActionModel::Finish {
            completed: true,
            report: match reply {
                ReplyEvent::Answered(m) => match delete_session_rejection_of(m@) {
                    Some(cause) => Some(WorkerReport::DeleteRejected(cause)),
                    None => None,
                },
                _ => None,
            },
        },
        _ => WorkerActionModel::Ignore,
    }
}

/// The counts after `event` in `state`: a request that went out is counted
/// as sent, one that could not be sent as an error, and each answer as
/// settled.
pub open spec fn worker_counts(c: Counts, with_delete: bool, state: WorkerState, event: WorkerEvent) -> Counts {
    match (state, event) {
        (WorkerState::SendingCreate { .. }, WorkerEvent::Sent) => c.plus(Tally::Sent),
        (WorkerState::SendingDelete { .. }, WorkerEvent::Sent) => c.plus(Tally::Sent),
        (WorkerState::SendingCreate { .. }, WorkerEvent::SendFailed) => c.plus(Tally::Error),
        (WorkerState::SendingDelete { .. }, WorkerEvent::SendFailed) => c.plus(Tally::Error),
        (WorkerState::AwaitingCreate { .. }, WorkerEvent::Replied(reply)) => settled_counts(
            c,
            reply,
            reply matches ReplyEvent::Answered(m) && create_session_outcome_of(m@, with_delete) is Rejected,
        ),
        (WorkerState::AwaitingDelete { .. }, WorkerEvent::Replied(reply)) => settled_counts(
            c,
            reply,
            reply matches ReplyEvent::Answered(m) && delete_session_rejection_of(m@) is Some,
        ),
        _ => c,
    }
}

/// The state a round reaches once its create session request, opened with
/// these counter readings, went out and the wait for its answer ended in
/// `reply`.
pub open spec fn state_after_create_answer(with_delete: bool, request_counter: u32, subscriber: u64, reply: ReplyEvent) -> WorkerState {
    let s1 = worker_next(with_delete, WorkerState::Start, WorkerEvent::Begin { request_counter, subscriber });
    let s2 = worker_next(with_delete, s1, WorkerEvent::Sent);
    worker_next(with_delete, s2, WorkerEvent::Replied(reply))
}

/// The counts after a whole round that opens a session, is told by `answer`
/// to close it, holds it until the request counter reads `request_counter2`,
/// sends the delete session request, and ends its wait in `reply2`.
pub open spec fn closing_round_counts(
    c: Counts,
    request_counter: u32,
    subscriber: u64,
    answer: GtpMessage,
    request_counter2: u32,
    reply2: ReplyEvent,
) -> Counts {
    let e1 = WorkerEvent::Begin { request_counter, subscriber };
    let e3 = WorkerEvent::Replied(ReplyEvent::Answered(answer));
    let e4 = WorkerEvent::HoldOver { request_counter: request_counter2 };
    let e6 = WorkerEvent::Replied(reply2);
    let s1 = worker_next(true, WorkerState::Start, e1);
    let s2 = worker_next(true, s1, WorkerEvent::Sent);
    let s3 = worker_next(true, s2, e3);
    let s4 = worker_next(true, s3, e4);
    let s5 = worker_next(true, s4, WorkerEvent::Sent);
    let c1 = worker_counts(c, true, WorkerState::Start, e1);
    let c2 = worker_counts(c1, true, s1, WorkerEvent::Sent);
    let c3 = worker_counts(c2, true, s2, e3);
    let c4 = worker_counts(c3, true, s3, e4);
    let c5 = worker_counts(c4, true, s4, WorkerEvent::Sent);
    worker_counts(c5, true, s5, e6)
}

/// A round whose create session answer does not ask for the session to be
/// closed ends right there, not completed, having counted one request sent
/// and the answer as settled.
pub proof fn lemma_round_ends_unless_closing(with_delete: bool, request_counter: u32, subscriber: u64, reply: ReplyEvent, c: Counts)
    requires
        !(reply matches ReplyEvent::Answered(m) && create_session_outcome_of(m@, with_delete) is DeleteSession),
    ensures
        state_after_create_answer(with_delete, request_counter, subscriber, reply) == (WorkerState::Finished {
            completed: false,
        }),
        worker_counts(
            worker_counts(
                worker_counts(c, with_delete, WorkerState::Start, WorkerEvent::Begin { request_counter, subscriber }),
                with_delete,
                WorkerState::SendingCreate { sequence_number: sequence_number_of(request_counter) },
                WorkerEvent::Sent,
            ),
            with_delete,
            WorkerState::AwaitingCreate { sequence_number: sequence_number_of(request_counter) },
            WorkerEvent::Replied(reply),
        ) == settled_counts(
            c.plus(Tally::Sent),
            reply,
            reply matches ReplyEvent::Answered(m) && create_session_outcome_of(m@, with_delete) is Rejected,
        ),
{
}

/// A round whose create session answer accepts the session, for a worker
/// that closes its sessions, holds it, then closes it with a delete session
/// request naming the bearer and TEID the answer gave and a fresh sequence
/// number, and ends completed whatever the second answer; over the round two
/// requests are counted as sent, the first answer as received, and the
/// second answer as settled.
pub proof fn lemma_round_closes_accepted_session(
    imsi_base: Seq<char>,
    local_ip: Seq<u8>,
    request_counter: u32,
    subscriber: u64,
    answer: GtpMessage,
    request_counter2: u32,
    reply2: ReplyEvent,
    c: Counts,
)
    requires
        create_session_outcome_of(answer@, true) is DeleteSession,
    ensures
        state_after_create_answer(true, request_counter, subscriber, ReplyEvent::Answered(answer)) == (WorkerState::Holding {
            sequence_number: sequence_number_of(request_counter),
            linked_ebi: create_session_outcome_of(answer@, true)->linked_ebi,
            teid: create_session_outcome_of(answer@, true)->teid,
        }),
        worker_action(
            imsi_base,
            local_ip,
            true,
            state_after_create_answer(true, request_counter, subscriber, ReplyEvent::Answered(answer)),
            WorkerEvent::HoldOver { request_counter: request_counter2 },
        ) == (WorkerActionModel::Send {
            sequence_number: sequence_number_of(request_counter2),
            message: delete_session_request_message(
                DeleteSessionRequest {
                    linked_ebi: create_session_outcome_of(answer@, true)->linked_ebi,
                    teid: create_session_outcome_of(answer@, true)->teid,
                    sequence_number: sequence_number_of(request_counter2),
                },
            ),
        }),
        worker_next(
            true,
            worker_next(
                true,
                worker_next(
                    true,
                    state_after_create_answer(true, request_counter, subscriber, ReplyEvent::Answered(answer)),
                    WorkerEvent::HoldOver { request_counter: request_counter2 },
                ),
                WorkerEvent::Sent,
            ),
            WorkerEvent::Replied(reply2),
        ) == (WorkerState::Finished { completed: true }),
        closing_round_counts(c, request_counter, subscriber, answer, request_counter2, reply2) == settled_counts(
            c.plus(Tally::Sent).plus(Tally::Received).plus(Tally::Sent),
            reply2,
            reply2 matches ReplyEvent::Answered(m) && delete_session_rejection_of(m@) is Some,
        ),
{
}

/// Takes one step of a round: the next state and action after `event` in
/// `state`, counting what is to be counted.
pub fn worker_step(config: &WorkerConfig, state: WorkerState, event: WorkerEvent, counts: &mut MetricCounts) -> (r: (
    WorkerState,
    WorkerAction,
))
    requires
        old(counts).wf(),
        old(counts).total.has_room(),
        event matches WorkerEvent::Begin { subscriber, .. } ==> round_startable(
            encode_utf8(config.imsi_base@),
            subscriber,
        ),
    ensures
        final(counts).wf(),
        r.0 == worker_next(config.with_delete, state, event),
        r.1@ == worker_action(config.imsi_base@, config.local_ip@, config.with_delete, state, event),
        final(counts).total == worker_counts(old(counts).total, config.with_delete, state, event),
        final(counts).interval == worker_counts(old(counts).interval, config.with_delete, state, event),
{
    match state {
        WorkerState::Start => match event {
            WorkerEvent::Begin { request_counter, subscriber } => {
                let sequence_number = sequence_number_from_counter(request_counter);
                let imsi = derive_imsi(config.imsi_base.as_str(), subscriber);
                let message = build_create_session_request(imsi, sequence_number, config.local_ip);
                (WorkerState::SendingCreate { sequence_number }, WorkerAction::Send { sequence_number, message })
            },
            _ => (state, WorkerAction::Ignore),
        },
        WorkerState::SendingCreate { sequence_number } => match event {
            WorkerEvent::Sent => {
                counts.increment_sent();
                (WorkerState::AwaitingCreate { sequence_number }, WorkerAction::AwaitReply { sequence_number })
            },
            WorkerEvent::SendFailed => {
                counts.increment_error();
                (WorkerState::Finished { completed: false }, WorkerAction::Finish { completed: false, report: None })
            },
            _ => (state, WorkerAction::Ignore),
        },
        WorkerState::AwaitingCreate { sequence_number } => match event {
            WorkerEvent::Replied(reply) => {
                let outcome = settle_create_session(&reply, config.with_delete, counts);
                match outcome {
                    Some(CreateSessionOutcome::DeleteSession { linked_ebi, teid }) => (
                        WorkerState::Holding { sequence_number, linked_ebi, teid },
                        WorkerAction::Hold,
                    ),
                    Some(CreateSessionOutcome::Malformed(e)) => (
                        WorkerState::Finished { completed: false },
                        WorkerAction::Finish { completed: false, report: Some(WorkerReport::Malformed(e)) },
                    ),
                    Some(CreateSessionOutcome::Rejected(cause)) => (
                        WorkerState::Finished { completed: false },
                        WorkerAction::Finish { completed: false, report: Some(WorkerReport::Rejected(cause)) },
                    ),
                    _ => (
                        WorkerState::Finished { completed: false },
                        WorkerAction::Finish { completed: false, report: None },
                    ),
                }
            },
            _ => (state, WorkerAction::Ignore),
        },
        WorkerState::Holding { sequence_number, linked_ebi, teid } => match event {
            WorkerEvent::HoldOver { request_counter } => {
                let delete_sequence_number = sequence_number_from_counter(request_counter);
                let request = DeleteSessionRequest { linked_ebi, teid, sequence_number: delete_sequence_number };
                (
                    WorkerState::SendingDelete { sequence_number, delete_sequence_number },
                    WorkerAction::Send {
                        sequence_number: delete_sequence_number,
                        message: GtpMessage::from(request),
                    },
                )
            },
            _ => (state, WorkerAction::Ignore),
        },
        WorkerState::SendingDelete { sequence_number, delete_sequence_number } => match event {
            WorkerEvent::Sent => {
                counts.increment_sent();
                (
                    WorkerState::AwaitingDelete { sequence_number, delete_sequence_number },
                    WorkerAction::AwaitReply { sequence_number: delete_sequence_number },
                )
            },
            WorkerEvent::SendFailed => {
                counts.increment_error();
                (WorkerState::Finished { completed: false }, WorkerAction::Finish { completed: false, report: None })
            },
            _ => (state, WorkerAction::Ignore),
        },
        WorkerState::AwaitingDelete { .. } => match event {
            WorkerEvent::Replied(reply) => {
                let rejection = settle_delete_session_reply(&reply, counts);
                let report = match rejection {
                    Some(cause) => Some(WorkerReport::DeleteRejected(cause)),
                    None => None,
                };
                (WorkerState::Finished { completed: true }, WorkerAction::Finish { completed: true, report })
            },
            _ => (state, WorkerAction::Ignore),
        },
        WorkerState::Finished { .. } => (state, WorkerAction::Ignore),
    }
}

} // verus!
