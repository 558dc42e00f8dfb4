//! Echo Response: the answer to an echo request, with the responder's restart
//! counter.
use vstd::prelude::*;
use vstd::std_specs::convert::{TryFromSpecImpl, FromSpecImpl};
use crate::buf::{bytes_mut_new, bytes_mut_freeze};
use crate::error::GtpError;
use crate::header::Header;
use crate::ie::recovery::{Recovery, lemma_recovery_roundtrip};
use crate::ie::types::{ie_type, message_type};
use crate::ie::{InformationElement, IeModel, result_view};
use crate::message::{GtpMessage, MessageModel, message_from_wire, lemma_message_roundtrip};
use crate::messages::{find_ie_of_type, first_of_type, ies_view, lemma_single_ie_body};

verus! {

#[derive(Debug, Clone)]
pub struct EchoResponse {
    pub recovery: Recovery,
    pub sequence_number: u32,
}

/// The echo response a message holds: the first Recovery element, of any
/// instance, and the header's sequence number.
pub open spec fn echo_response_from_message(m: MessageModel) -> Result<EchoResponse, GtpError> {
    match first_of_type(m.ies, ie_type::RECOVERY) {
        None => Err(GtpError::MissingIe(ie_type::RECOVERY)),
        Some(ie) => match Recovery::from_wire(ie.value) {
            Err(e) => Err(e),
            Ok(recovery) => Ok(EchoResponse { recovery, sequence_number: m.header.sequence_number }),
        },
    }
}

/// The message an echo response becomes: type 2, no TEID, one Recovery element.
pub open spec fn echo_response_message(e: EchoResponse) -> MessageModel {
    MessageModel {
        header: Header {
            version: 2,
            piggybacking_flag: false,
            teid_flag: false,
            message_type: message_type::ECHO_RESPONSE,
            teid: None,
            sequence_number: e.sequence_number,
        },
        ies: seq![IeModel { ie_type: ie_type::RECOVERY, instance: 0, value: e.recovery.wire() }],
    }
}

impl<'a> TryFrom<&'a GtpMessage> for EchoResponse {
    type Error = GtpError;

    fn try_from(message: &'a GtpMessage) -> (r: Result<Self, Self::Error>)
        ensures
            r == echo_response_from_message(message@),
    {
        let recovery_ie = match find_ie_of_type(&message.information_elements, ie_type::RECOVERY) {
            Some(ie) => ie,
            None => return Err(GtpError::MissingIe(ie_type::RECOVERY)),
        };
        let recovery = Recovery::parse(recovery_ie.value.clone())?;
        Ok(EchoResponse { recovery, sequence_number: message.header.sequence_number })
    }
}

impl<'a> TryFromSpecImpl<&'a GtpMessage> for EchoResponse {
    open spec fn obeys_try_from_spec() -> bool {
        true
    }

    open spec fn try_from_spec(message: &'a GtpMessage) -> Result<Self, Self::Error> {
        echo_response_from_message(message@)
    }
}

impl From<EchoResponse> for GtpMessage {
    fn from(echo_response: EchoResponse) -> (r: GtpMessage)
        ensures
            r@ == echo_response_message(echo_response),
    {
        let mut v = bytes_mut_new();
        echo_response.recovery.write(&mut v);
        let ie = InformationElement { ie_type: ie_type::RECOVERY, instance: 0, value: bytes_mut_freeze(v) };
        let ies = vec![ie];
        let r = GtpMessage {
            header: Header {
                version: 2,
                piggybacking_flag: false,
                teid_flag: false,
                message_type: message_type::ECHO_RESPONSE,
                teid: None,
                sequence_number: echo_response.sequence_number,
            },
            information_elements: ies,
        };
        assert(r@.ies =~= echo_response_message(echo_response).ies);
        r
    }
}

impl FromSpecImpl<EchoResponse> for GtpMessage {
    open spec fn obeys_from_spec() -> bool {
        false
    }

    open spec fn from_spec(echo_response: EchoResponse) -> GtpMessage {
        arbitrary()
    }
}

/// Echo Response round trip: a message read back from the message it becomes is the
/// same message.
pub proof fn lemma_echo_response_roundtrip(e: EchoResponse)
    ensures
        echo_response_from_message(echo_response_message(e)) == Ok::<EchoResponse, GtpError>(e),
{
    lemma_recovery_roundtrip(e.recovery);
}

/// Wire round trip: a message written as bytes and read back, first as a
/// message and then as this type, is the same (sequence numbers have 24 bits
/// on the wire).
pub proof fn lemma_echo_response_wire_roundtrip(x: EchoResponse)
    requires
        x.sequence_number < 0x100_0000,
    ensures
        message_from_wire(echo_response_message(x).wire()) == Ok::<MessageModel, GtpError>(echo_response_message(x)),
        echo_response_from_message(echo_response_message(x)) == Ok::<EchoResponse, GtpError>(x),
{
    let m = echo_response_message(x);
    lemma_single_ie_body(m.ies[0]);
    assert(m.ies =~= seq![m.ies[0]]);
    assert(m.encodable());
    lemma_message_roundtrip(m);
    lemma_echo_response_roundtrip(x);
}

} // verus!
