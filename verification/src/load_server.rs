//! The decisions of a load-test server that answers echo, create session and
//! delete session requests: which reply each received message gets, the TEIDs
//! handed out to new sessions and the running count of handled requests. The
//! socket loop that receives and sends stays with the caller.
use vstd::prelude::*;
use crate::clock::{system_time_now, duration_since_unix_epoch, duration_as_millis};
use crate::error::GtpError;
use crate::ie::ambr::Ambr;
use crate::ie::bearer_context::{BearerContext, BearerContextModel};
use crate::ie::cause::{Cause, REQUEST_ACCEPTED};
use crate::ie::fteid::{Fteid, FteidModel, InterfaceType, interface_code};
use crate::ie::recovery::Recovery;
use crate::ie::types::message_type;
use crate::message::{GtpMessage, MessageModel};
use crate::messages::create_session_request::{CreateSessionRequestModel, create_session_request_from_message};
use crate::messages::create_session_response::{
    CreateSessionResponseModel, create_session_response_message, create_session_response_encodable,
    lemma_create_session_response_roundtrip,
};
use crate::load_client::{CreateSessionOutcome, DEFAULT_LINKED_EBI, create_session_outcome_of};
use crate::messages::delete_session_request::delete_session_request_from_message;
use crate::messages::delete_session_response::delete_session_response_message;
use crate::messages::echo_request::echo_request_from_message;
use crate::messages::echo_response::echo_response_message;
use crate::messages::{
    CreateSessionRequest, CreateSessionResponse, DeleteSessionRequest, DeleteSessionResponse,
    EchoRequest, EchoResponse,
};

verus! {

/// The number of handled requests between two progress reports.
pub const REPORT_EVERY: u64 = 1000;

/// The first TEID handed out to a new session.
pub const FIRST_TEID: u32 = 1000;

/// The aggregate maximum uplink rate granted to every session, in kbit/s.
pub const GRANTED_UPLINK_KBPS: u32 = 50_000;

/// The aggregate maximum downlink rate granted to every session, in kbit/s.
pub const GRANTED_DOWNLINK_KBPS: u32 = 100_000;

/// The requests the server answers.
#[derive(Debug, Clone, Copy, PartialEq, Eq, Structural)]
pub enum RequestKind {
    Echo,
    DeleteSession,
    CreateSession,
}

/// What the server does with one received datagram.
#[derive(Debug)]
pub enum ServerAction {
    /// Send this message back to the sender.
    Reply(GtpMessage),
    /// The message has the type of a request the server answers but does not
    /// decode as that request; nothing is sent.
    BadRequest(RequestKind, GtpError),
    /// The message has a type the server does not answer; nothing is sent.
    Unhandled(u8),
    /// The datagram does not decode as a message; nothing is sent.
    DecodeFailed(GtpError),
}

/// A server action with its reply as plain values.
pub enum ServerActionModel {
    Reply(MessageModel),
    BadRequest(RequestKind, GtpError),
    Unhandled(u8),
    DecodeFailed(GtpError),
}

impl View for ServerAction {
    type V = ServerActionModel;

    open spec fn view(&self) -> ServerActionModel {
        match self {
            ServerAction::Reply(m) => ServerActionModel::Reply(m@),
            ServerAction::BadRequest(k, e) => ServerActionModel::BadRequest(*k, *e),
            ServerAction::Unhandled(t) => ServerActionModel::Unhandled(*t),
            ServerAction::DecodeFailed(e) => ServerActionModel::DecodeFailed(*e),
        }
    }
}

/// The TEID handed out after `t`: the next one, wrapping to 0 after the last.
pub open spec fn teid_after(t: u32) -> u32 {
    if t == u32::MAX {
        0
    } else {
        (t + 1) as u32
    }
}

/// The reply to an echo request: an echo response with the server's restart
/// counter and the request's sequence number.
pub open spec fn echo_reply(restart_counter: u8, m: MessageModel) -> ServerActionModel {
    match echo_request_from_message(m) {
        Ok(e) => ServerActionModel::Reply(
            echo_response_message(
                EchoResponse { recovery: Recovery { restart_counter }, sequence_number: e.sequence_number },
            ),
        ),
        Err(err) => ServerActionModel::BadRequest(RequestKind::Echo, err),
    }
}

/// The reply to a delete session request: accepted, with the request's TEID
/// and sequence number.
pub open spec fn delete_session_reply(m: MessageModel) -> ServerActionModel {
    match delete_session_request_from_message(m) {
        Ok(d) => ServerActionModel::Reply(
            delete_session_response_message(
                DeleteSessionResponse {
                    cause: Cause { value: REQUEST_ACCEPTED },
                    teid: d.teid,
                    sequence_number: d.sequence_number,
                },
            ),
        ),
        Err(err) => ServerActionModel::BadRequest(RequestKind::DeleteSession, err),
    }
}

/// The endpoint the server advertises on `interface_type`: TEID `teid` at the
/// IPv4 address `ip`.
pub open spec fn advertised_endpoint(interface_type: InterfaceType, teid: u32, ip: Seq<u8>) -> FteidModel {
    FteidModel {
        interface_type: interface_code(interface_type),
        teid_or_gre_key: teid,
        ipv4: Some(ip),
        ipv6: None,
    }
}

/// The response that accepts the request `c`: the allocated TEID as the
/// control- and user-plane TEID at the advertised address, the granted AMBR,
/// the request's bearer identity, and, in the header, the requester's TEID and
/// the request's sequence number.
pub open spec fn create_session_response_for(c: CreateSessionRequestModel, teid: u32, ip: Seq<u8>) -> CreateSessionResponseModel {
    CreateSessionResponseModel {
        cause: Cause { value: REQUEST_ACCEPTED },
        sender_fteid: advertised_endpoint(InterfaceType::S5S8PgwGtpC, teid, ip),
        ambr: Some(Ambr { uplink_kbps: GRANTED_UPLINK_KBPS, downlink_kbps: GRANTED_DOWNLINK_KBPS }),
        bearer_context: BearerContextModel {
            ebi: c.bearer_context.ebi,
            cause: Some(Cause { value: REQUEST_ACCEPTED }),
            fteid: Some(advertised_endpoint(InterfaceType::S5S8PgwGtpU, teid, ip)),
            bearer_qos: None,
        },
        teid: c.sender_fteid.teid_or_gre_key,
        sequence_number: c.sequence_number,
    }
}

/// The reply to a create session request when `teid` is allocated for it.
pub open spec fn create_session_reply(ip: Seq<u8>, teid: u32, m: MessageModel) -> ServerActionModel {
    match create_session_request_from_message(m) {
        Ok(c) => ServerActionModel::Reply(create_session_response_message(create_session_response_for(c, teid, ip))),
        Err(err) => ServerActionModel::BadRequest(RequestKind::CreateSession, err),
    }
}

/// Whether the server answers messages of type `t`.
pub open spec fn answered_type(t: u8) -> bool {
    t == message_type::ECHO_REQUEST || t == message_type::DELETE_SESSION_REQUEST
        || t == message_type::CREATE_SESSION_REQUEST
}

/// Answers an echo request with the server's restart counter.
pub fn handle_echo_request(restart_counter: u8, message: &GtpMessage) -> (r: ServerAction)
    ensures
        r@ == echo_reply(restart_counter, message@),
{
    let echo_request = match EchoRequest::try_from(message) {
        Ok(e) => e,
        Err(error) => return ServerAction::BadRequest(RequestKind::Echo, error),
    };
    let response = EchoResponse {
        recovery: Recovery { restart_counter },
        sequence_number: echo_request.sequence_number,
    };
    ServerAction::Reply(GtpMessage::from(response))
}

/// Accepts a delete session request.
pub fn handle_delete_session_request(message: &GtpMessage) -> (r: ServerAction)
    ensures
        r@ == delete_session_reply(message@),
{
    let delete_session_request = match DeleteSessionRequest::try_from(message) {
        Ok(d) => d,
        Err(error) => return ServerAction::BadRequest(RequestKind::DeleteSession, error),
    };
    let response = DeleteSessionResponse {
        cause: Cause { value: REQUEST_ACCEPTED },
        teid: delete_session_request.teid,
        sequence_number: delete_session_request.sequence_number,
    };
    ServerAction::Reply(GtpMessage::from(response))
}

/// Accepts a create session request, allocating the TEID `*next_teid` for the
/// session whether or not the request decodes.
pub fn handle_create_session_request(advertise_ip: [u8; 4], next_teid: &mut u32, message: &GtpMessage) -> (r: ServerAction)
    ensures
        *final(next_teid) == teid_after(*old(next_teid)),
        r@ == create_session_reply(advertise_ip@, *old(next_teid), message@),
{
    let allocated_teid = *next_teid;
    *next_teid = if allocated_teid == u32::MAX { 0 } else { allocated_teid + 1 };
    let create_session_request = match CreateSessionRequest::try_from(message) {
        Ok(c) => c,
        Err(error) => return ServerAction::BadRequest(RequestKind::CreateSession, error),
    };
    let response = CreateSessionResponse {
        cause: Cause { value: REQUEST_ACCEPTED },
        sender_fteid: Fteid {
            interface_type: u8::from(InterfaceType::S5S8PgwGtpC),
            teid_or_gre_key: allocated_teid,
            ipv4: Some(advertise_ip),
            ipv6: None,
        },
        ambr: Some(Ambr { uplink_kbps: GRANTED_UPLINK_KBPS, downlink_kbps: GRANTED_DOWNLINK_KBPS }),
        bearer_context: BearerContext {
            ebi: create_session_request.bearer_context.ebi,
            cause: Some(Cause { value: REQUEST_ACCEPTED }),
            fteid: Some(
                Fteid {
                    interface_type: u8::from(InterfaceType::S5S8PgwGtpU),
                    teid_or_gre_key: allocated_teid,
                    ipv4: Some(advertise_ip),
                    ipv6: None,
                },
            ),
            bearer_qos: None,
        },
        teid: create_session_request.sender_fteid.teid_or_gre_key,
        sequence_number: create_session_request.sequence_number,
    };
    ServerAction::Reply(GtpMessage::from(response))
}

/// Every reply carries the sequence number of the request it answers, by
/// which the requester matches it; a delete session reply also carries the
/// request's TEID, and a create session reply the TEID of the requester's
/// control-plane endpoint.
pub proof fn lemma_reply_answers_request(restart_counter: u8, ip: Seq<u8>, teid: u32, m: MessageModel)
    ensures
        echo_reply(restart_counter, m) matches ServerActionModel::Reply(r) ==> r.header.sequence_number
            == m.header.sequence_number,
        delete_session_reply(m) matches ServerActionModel::Reply(r) ==> r.header.sequence_number
            == m.header.sequence_number && r.header.teid == m.header.teid,
        create_session_reply(ip, teid, m) matches ServerActionModel::Reply(r) ==> {
            &&& r.header.sequence_number == m.header.sequence_number
            &&& create_session_request_from_message(m) matches Ok(c) && r.header.teid == Some(
                c.sender_fteid.teid_or_gre_key,
            )
        },
{
}

/// A client reads the server's reply to its create session request as an
/// accepted session: with `with_delete` it closes the session again, naming
/// the bearer it asked for (or bearer 5) and its own control-plane TEID;
/// without, it is done.
pub proof fn lemma_client_accepts_reply(c: CreateSessionRequestModel, teid: u32, ip: Seq<u8>, with_delete: bool)
    requires
        ip.len() == 4,
    ensures
        create_session_outcome_of(
            create_session_response_message(create_session_response_for(c, teid, ip)),
            with_delete,
        ) == (if with_delete {
            CreateSessionOutcome::DeleteSession {
                linked_ebi: match c.bearer_context.ebi {
                    Some(ebi) => ebi,
                    None => DEFAULT_LINKED_EBI,
                },
                teid: c.sender_fteid.teid_or_gre_key,
            }
        } else {
            CreateSessionOutcome::Established
        }),
{
    let reply = create_session_response_for(c, teid, ip);
    assert(create_session_response_encodable(reply));
    lemma_create_session_response_roundtrip(reply);
}

/// The state a load server keeps between datagrams.
pub struct LoadServer {
    /// The IPv4 address put in the endpoints of every accepted session.
    pub advertise_ip: [u8; 4],
    /// The restart counter sent in echo responses.
    pub restart_counter: u8,
    /// The number of answered-type requests received so far.
    pub count: u64,
    /// The TEID the next create session request is given.
    pub next_teid: u32,
}

impl LoadServer {
    /// A server that has handled nothing yet.
    pub fn new(advertise_ip: [u8; 4], restart_counter: u8) -> (s: Self)
        ensures
            s.advertise_ip == advertise_ip,
            s.restart_counter == restart_counter,
            s.count == 0,
            s.next_teid == FIRST_TEID,
    {
        LoadServer { advertise_ip, restart_counter, count: 0, next_teid: FIRST_TEID }
    }

    /// Handles one received datagram, already decoded (or not): decides the
    /// action and whether a progress report of `count` is due. A request of an
    /// answered type is counted whether or not it decodes; a message of
    /// another type is neither counted nor reported; a decoding failure is not
    /// counted but reports when the count stands at a multiple of the
    /// reporting interval.
    pub fn handle_message(&mut self, result: Result<GtpMessage, GtpError>) -> (r: (ServerAction, bool))
        requires
            old(self).count < u64::MAX,
        ensures
            final(self).advertise_ip == old(self).advertise_ip,
            final(self).restart_counter == old(self).restart_counter,
            match result {
                Err(e) => {
                    &&& final(self).count == old(self).count
                    &&& final(self).next_teid == old(self).next_teid
                    &&& r.0@ == ServerActionModel::DecodeFailed(e)
                    &&& r.1 == (old(self).count % REPORT_EVERY == 0)
                },
                Ok(m) => {
                    let t = m.header.message_type;
                    &&& answered_type(t) ==> final(self).count == old(self).count + 1
                        && r.1 == (final(self).count % REPORT_EVERY == 0)
                    &&& !answered_type(t) ==> final(self).count == old(self).count && !r.1
                        && r.0@ == ServerActionModel::Unhandled(t)
                    &&& t == message_type::CREATE_SESSION_REQUEST ==> final(self).next_teid == teid_after(
                        old(self).next_teid,
                    ) && r.0@ == create_session_reply(
                        old(self).advertise_ip@,
                        old(self).next_teid,
                        m@,
                    )
                    &&& t != message_type::CREATE_SESSION_REQUEST ==> final(self).next_teid == old(
                        self,
                    ).next_teid
                    &&& t == message_type::ECHO_REQUEST ==> r.0@ == echo_reply(old(self).restart_counter, m@)
                    &&& t == message_type::DELETE_SESSION_REQUEST ==> r.0@ == delete_session_reply(m@)
                },
            },
    {
        match result {
            Err(error) => {
                let report = self.count % REPORT_EVERY == 0;
                (ServerAction::DecodeFailed(error), report)
            },
            Ok(message) => {
                let t = message.header.message_type;
                let action = if t == message_type::ECHO_REQUEST {
                    self.count = self.count + 1;
                    handle_echo_request(self.restart_counter, &message)
                } else if t == message_type::DELETE_SESSION_REQUEST {
                    self.count = self.count + 1;
                    handle_delete_session_request(&message)
                } else if t == message_type::CREATE_SESSION_REQUEST {
                    self.count = self.count + 1;
                    handle_create_session_request(self.advertise_ip, &mut self.next_teid, &message)
                } else {
                    return (ServerAction::Unhandled(t), false);
                };
                let report = self.count % REPORT_EVERY == 0;
                (action, report)
            },
        }
    }
}

/// The restart counter a server started at `unix_millis` milliseconds after
/// the Unix epoch announces: the low byte of that number.
pub fn restart_counter_from_millis(unix_millis: u128) -> (r: u8)
    ensures
        r == unix_millis % 256,
{
    (unix_millis % 256) as u8
}

/// The restart counter for a server starting now, from the system clock; none
/// where the clock reads a time before the Unix epoch.
pub fn get_restart_counter() -> (r: Option<u8>) {
    let now = system_time_now();
    match duration_since_unix_epoch(&now) {
        Ok(elapsed) => Some(restart_counter_from_millis(duration_as_millis(&elapsed))),
        Err(_) => None,
    }
}

} // verus!
