//! Delete Session Request: asks the peer to tear down the session that the
//! header TEID names, by its linked bearer.
use vstd::prelude::*;
use vstd::std_specs::convert::{TryFromSpecImpl, FromSpecImpl};
use crate::buf::{bytes_view, bytes_as_slice, bytes_copy_from_slice};
use crate::error::GtpError;
use crate::header::Header;
use crate::ie::types::{ie_type, message_type};
use crate::ie::{InformationElement, IeModel};
use crate::message::{GtpMessage, MessageModel, message_from_wire, lemma_message_roundtrip};
use crate::messages::{find_ie, first_match, lemma_single_ie_body};

verus! {

#[derive(Debug, Clone)]
pub struct DeleteSessionRequest {
    pub linked_ebi: u8,
    pub teid: u32,
    pub sequence_number: u32,
}

/// The request a message holds: the first byte of the EBI element of instance
/// 0, the header TEID and sequence number. A missing EBI element, an empty EBI
/// value and a missing TEID are refused, in that order.
pub open spec fn delete_session_request_from_message(m: MessageModel) -> Result<DeleteSessionRequest, GtpError> {
    match first_match(m.ies, ie_type::EBI, 0) {
        None => Err(GtpError::MissingIe(ie_type::EBI)),
        Some(ie) => if ie.value.len() == 0 {
            Err(GtpError::InvalidIeValue(ie_type::EBI))
        } else {
            match m.header.teid {
                None => Err(GtpError::MissingTeid),
                Some(teid) => Ok(
                    DeleteSessionRequest {
                        linked_ebi: ie.value[0],
                        teid,
                        sequence_number: m.header.sequence_number,
                    },
                ),
            }
        },
    }
}

/// The message a request becomes: type 36 with its TEID, one EBI element.
pub open spec fn delete_session_request_message(d: DeleteSessionRequest) -> MessageModel {
    MessageModel {
        header: Header {
            version: 2,
            piggybacking_flag: false,
            teid_flag: true,
            message_type: message_type::DELETE_SESSION_REQUEST,
            teid: Some(d.teid),
            sequence_number: d.sequence_number,
        },
        ies: seq![IeModel { ie_type: ie_type::EBI, instance: 0, value: seq![d.linked_ebi] }],
    }
}

impl<'a> TryFrom<&'a GtpMessage> for DeleteSessionRequest {
    type Error = GtpError;

    fn try_from(message: &'a GtpMessage) -> (r: Result<Self, Self::Error>)
        ensures
            r == delete_session_request_from_message(message@),
    {
        let ebi_ie = match find_ie(&message.information_elements, ie_type::EBI, 0) {
            Some(ie) => ie,
            None => return Err(GtpError::MissingIe(ie_type::EBI)),
        };
        let value = bytes_as_slice(&ebi_ie.value);
        if value.len() == 0 {
            return Err(GtpError::InvalidIeValue(ie_type::EBI));
        }
        let linked_ebi = value[0];
        let teid = match message.header.teid {
            Some(t) => t,
            None => return Err(GtpError::MissingTeid),
        };
        Ok(DeleteSessionRequest { linked_ebi, teid, sequence_number: message.header.sequence_number })
    }
}

impl<'a> TryFromSpecImpl<&'a GtpMessage> for DeleteSessionRequest {
    open spec fn obeys_try_from_spec() -> bool {
        true
    }

    open spec fn try_from_spec(message: &'a GtpMessage) -> Result<Self, Self::Error> {
        delete_session_request_from_message(message@)
    }
}

impl From<DeleteSessionRequest> for GtpMessage {
    fn from(delete_session_request: DeleteSessionRequest) -> (r: GtpMessage)
        ensures
            r@ == delete_session_request_message(delete_session_request),
    {
        let one = [delete_session_request.linked_ebi];
        assert(one@ =~= seq![delete_session_request.linked_ebi]);
        let ies = vec![InformationElement { ie_type: ie_type::EBI, instance: 0, value: bytes_copy_from_slice(&one) }];
        let r = GtpMessage {
            header: Header {
                version: 2,
                piggybacking_flag: false,
                teid_flag: true,
                message_type: message_type::DELETE_SESSION_REQUEST,
                teid: Some(delete_session_request.teid),
                sequence_number: delete_session_request.sequence_number,
            },
            information_elements: ies,
        };
        assert(r@.ies =~= delete_session_request_message(delete_session_request).ies);
        r
    }
}

impl FromSpecImpl<DeleteSessionRequest> for GtpMessage {
    open spec fn obeys_from_spec() -> bool {
        false
    }

    open spec fn from_spec(delete_session_request: DeleteSessionRequest) -> GtpMessage {
        arbitrary()
    }
}

/// Delete Session Request round trip: a request read back from the message it
/// becomes is the same request.
pub proof fn lemma_delete_session_request_roundtrip(d: DeleteSessionRequest)
    ensures
        delete_session_request_from_message(delete_session_request_message(d)) == Ok::<DeleteSessionRequest, GtpError>(d),
{
    let m = delete_session_request_message(d);
    assert(m.ies.drop_first() =~= Seq::<IeModel>::empty());
}

/// Wire round trip: a message written as bytes and read back, first as a
/// message and then as this type, is the same (sequence numbers have 24 bits
/// on the wire).
pub proof fn lemma_delete_session_request_wire_roundtrip(x: DeleteSessionRequest)
    requires
        x.sequence_number < 0x100_0000,
    ensures
        message_from_wire(delete_session_request_message(x).wire()) == Ok::<MessageModel, GtpError>(delete_session_request_message(x)),
        delete_session_request_from_message(delete_session_request_message(x)) == Ok::<DeleteSessionRequest, GtpError>(x),
{
    let m = delete_session_request_message(x);
    lemma_single_ie_body(m.ies[0]);
    assert(m.ies =~= seq![m.ies[0]]);
    assert(m.encodable());
    lemma_message_roundtrip(m);
    lemma_delete_session_request_roundtrip(x);
}

} // verus!
