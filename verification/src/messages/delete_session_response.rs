//! Delete Session Response: the outcome of a delete session request.
use vstd::prelude::*;
use vstd::std_specs::convert::{TryFromSpecImpl, FromSpecImpl};
use crate::buf::{bytes_mut_new, bytes_mut_freeze};
use crate::error::GtpError;
use crate::header::Header;
use crate::ie::cause::{Cause, lemma_cause_roundtrip};
use crate::ie::types::{ie_type, message_type};
use crate::ie::{InformationElement, IeModel};
use crate::message::{GtpMessage, MessageModel, message_from_wire, lemma_message_roundtrip};
use crate::messages::{find_ie, first_match, lemma_single_ie_body};

verus! {

#[derive(Debug, Clone)]
pub struct DeleteSessionResponse {
    pub cause: Cause,
    pub teid: u32,
    pub sequence_number: u32,
}

/// The response a message holds: the Cause element of instance 0, the header
/// TEID and sequence number. A missing or short Cause and a missing TEID are
/// refused, in that order.
pub open spec fn delete_session_response_from_message(m: MessageModel) -> Result<DeleteSessionResponse, GtpError> {
    match first_match(m.ies, ie_type::CAUSE, 0) {
        None => Err(GtpError::MissingIe(ie_type::CAUSE)),
        Some(ie) => match Cause::from_wire(ie.value) {
            Err(e) => Err(e),
            Ok(cause) => match m.header.teid {
                None => Err(GtpError::MissingTeid),
                Some(teid) => Ok(
                    DeleteSessionResponse { cause, teid, sequence_number: m.header.sequence_number },
                ),
            },
        },
    }
}

/// The message a response becomes: type 37 with its TEID, one Cause element.
pub open spec fn delete_session_response_message(d: DeleteSessionResponse) -> MessageModel {
    MessageModel {
        header: Header {
            version: 2,
            piggybacking_flag: false,
            teid_flag: true,
            message_type: message_type::DELETE_SESSION_RESPONSE,
            teid: Some(d.teid),
            sequence_number: d.sequence_number,
        },
        ies: seq![IeModel { ie_type: ie_type::CAUSE, instance: 0, value: d.cause.wire() }],
    }
}

impl<'a> TryFrom<&'a GtpMessage> for DeleteSessionResponse {
    type Error = GtpError;

    fn try_from(message: &'a GtpMessage) -> (r: Result<Self, Self::Error>)
        ensures
            r == delete_session_response_from_message(message@),
    {
        let cause_ie = match find_ie(&message.information_elements, ie_type::CAUSE, 0) {
            Some(ie) => ie,
            None => return Err(GtpError::MissingIe(ie_type::CAUSE)),
        };
        let cause = Cause::parse(cause_ie.value.clone())?;
        let teid = match message.header.teid {
            Some(t) => t,
            None => return Err(GtpError::MissingTeid),
        };
        Ok(DeleteSessionResponse { cause, teid, sequence_number: message.header.sequence_number })
    }
}

impl<'a> TryFromSpecImpl<&'a GtpMessage> for DeleteSessionResponse {
    open spec fn obeys_try_from_spec() -> bool {
        true
    }

    open spec fn try_from_spec(message: &'a GtpMessage) -> Result<Self, Self::Error> {
        delete_session_response_from_message(message@)
    }
}

impl From<DeleteSessionResponse> for GtpMessage {
    fn from(delete_session_response: DeleteSessionResponse) -> (r: GtpMessage)
        ensures
            r@ == delete_session_response_message(delete_session_response),
    {
        let mut v = bytes_mut_new();
        delete_session_response.cause.write(&mut v);
        let ies = vec![InformationElement { ie_type: ie_type::CAUSE, instance: 0, value: bytes_mut_freeze(v) }];
        let r = GtpMessage {
            header: Header {
                version: 2,
                piggybacking_flag: false,
                teid_flag: true,
                message_type: message_type::DELETE_SESSION_RESPONSE,
                teid: Some(delete_session_response.teid),
                sequence_number: delete_session_response.sequence_number,
            },
            information_elements: ies,
        };
        assert(r@.ies =~= delete_session_response_message(delete_session_response).ies);
        r
    }
}

impl FromSpecImpl<DeleteSessionResponse> for GtpMessage {
    open spec fn obeys_from_spec() -> bool {
        false
    }

    open spec fn from_spec(delete_session_response: DeleteSessionResponse) -> GtpMessage {
        arbitrary()
    }
}

/// Delete Session Response round trip: a response read back from the message
/// it becomes is the same response.
pub proof fn lemma_delete_session_response_roundtrip(d: DeleteSessionResponse)
    ensures
        delete_session_response_from_message(delete_session_response_message(d)) == Ok::<DeleteSessionResponse, GtpError>(d),
{
    lemma_cause_roundtrip(d.cause);
}

/// Wire round trip: a message written as bytes and read back, first as a
/// message and then as this type, is the same (sequence numbers have 24 bits
/// on the wire).
pub proof fn lemma_delete_session_response_wire_roundtrip(x: DeleteSessionResponse)
    requires
        x.sequence_number < 0x100_0000,
    ensures
        message_from_wire(delete_session_response_message(x).wire()) == Ok::<MessageModel, GtpError>(delete_session_response_message(x)),
        delete_session_response_from_message(delete_session_response_message(x)) == Ok::<DeleteSessionResponse, GtpError>(x),
{
    let m = delete_session_response_message(x);
    lemma_single_ie_body(m.ies[0]);
    assert(m.ies =~= seq![m.ies[0]]);
    assert(m.encodable());
    lemma_message_roundtrip(m);
    lemma_delete_session_response_roundtrip(x);
}

} // verus!
