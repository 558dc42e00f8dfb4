//! Create Session Response: the outcome of a create session request, with the
//! responder's control-plane endpoint and the bearer it set up.
use vstd::prelude::*;
use vstd::std_specs::convert::{TryFromSpecImpl, FromSpecImpl};
use crate::buf::{bytes_mut_new, bytes_mut_freeze, bytes_mut_view};
use crate::error::GtpError;
use crate::header::Header;
use crate::ie::ambr::{Ambr, lemma_ambr_roundtrip};
use crate::ie::bearer_context::{BearerContext, BearerContextModel, bc_from_wire, lemma_bearer_context_roundtrip};
use crate::ie::cause::{Cause, lemma_cause_roundtrip};
use crate::ie::fteid::{Fteid, FteidModel, lemma_fteid_roundtrip};
use crate::ie::types::{ie_type, message_type};
use crate::ie::{InformationElement, IeModel, result_view};
use crate::message::{GtpMessage, MessageModel, ies_wire, message_from_wire, lemma_message_roundtrip};
use crate::messages::{find_ie, first_match};

verus! {

#[derive(Debug, Clone)]
pub struct CreateSessionResponse {
    pub cause: Cause,
    pub sender_fteid: Fteid,
    pub ambr: Option<Ambr>,
    pub bearer_context: BearerContext,
    pub teid: u32,
    pub sequence_number: u32,
}

/// A create session response as plain values.
#[verifier::ext_equal]
pub struct CreateSessionResponseModel {
    pub cause: Cause,
    pub sender_fteid: FteidModel,
    pub ambr: Option<Ambr>,
    pub bearer_context: BearerContextModel,
    pub teid: u32,
    pub sequence_number: u32,
}

impl View for CreateSessionResponse {
    type V = CreateSessionResponseModel;

    open spec fn view(&self) -> CreateSessionResponseModel {
        CreateSessionResponseModel {
            cause: self.cause,
            sender_fteid: self.sender_fteid@,
            ambr: self.ambr,
            bearer_context: self.bearer_context@,
            teid: self.teid,
            sequence_number: self.sequence_number,
        }
    }
}

/// The response a message holds. Its elements are taken in this order, each
/// error ending the decoding: the Cause (instance 0), the sender F-TEID
/// (instance 1), the AMBR (instance 0, optional), the Bearer Context
/// (instance 0); then the header must carry a TEID.
pub open spec fn create_session_response_from_message(m: MessageModel) -> Result<CreateSessionResponseModel, GtpError> {
    match first_match(m.ies, ie_type::CAUSE, 0) {
        None => Err(GtpError::MissingIe(ie_type::CAUSE)),
        Some(cause_ie) => match Cause::from_wire(cause_ie.value) {
            Err(e) => Err(e),
            Ok(cause) => match first_match(m.ies, ie_type::FTEID, 1) {
                None => Err(GtpError::MissingIe(ie_type::FTEID)),
                Some(fteid_ie) => match FteidModel::from_wire(fteid_ie.value) {
                    Err(e) => Err(e),
                    Ok(sender_fteid) => {
                        let ambr: Result<Option<Ambr>, GtpError> = match first_match(m.ies, ie_type::AMBR, 0) {
                            None => Ok(None),
                            Some(ambr_ie) => match Ambr::from_wire(ambr_ie.value) {
                                Ok(a) => Ok(Some(a)),
                                Err(e) => Err(e),
                            },
                        };
                        match ambr {
                            Err(e) => Err(e),
                            Ok(ambr) => match first_match(m.ies, ie_type::BEARER_CONTEXT, 0) {
                                None => Err(GtpError::MissingIe(ie_type::BEARER_CONTEXT)),
                                Some(bearer_ie) => match bc_from_wire(bearer_ie.value) {
                                    Err(e) => Err(e),
                                    Ok(bearer_context) => match m.header.teid {
                                        None => Err(GtpError::MissingTeid),
                                        Some(teid) => Ok(
                                            CreateSessionResponseModel {
                                                cause,
                                                sender_fteid,
                                                ambr,
                                                bearer_context,
                                                teid,
                                                sequence_number: m.header.sequence_number,
                                            },
                                        ),
                                    },
                                },
                            },
                        }
                    },
                },
            },
        },
    }
}

/// The elements a response becomes: Cause (instance 0), sender F-TEID
/// (instance 1), AMBR when present (instance 0), Bearer Context (instance 0).
pub open spec fn create_session_response_ies(c: CreateSessionResponseModel) -> Seq<IeModel> {
    let head = seq![
        IeModel { ie_type: ie_type::CAUSE, instance: 0, value: c.cause.wire() },
        IeModel { ie_type: ie_type::FTEID, instance: 1, value: c.sender_fteid.wire() },
    ];
    let with_ambr = match c.ambr {
        Some(a) => head.push(IeModel { ie_type: ie_type::AMBR, instance: 0, value: a.wire() }),
        None => head,
    };
    with_ambr.push(
        IeModel { ie_type: ie_type::BEARER_CONTEXT, instance: 0, value: ies_wire(c.bearer_context.ies()) },
    )
}

/// The message a response becomes: type 33 carrying the response TEID.
pub open spec fn create_session_response_message(c: CreateSessionResponseModel) -> MessageModel {
    MessageModel {
        header: Header {
            version: 2,
            piggybacking_flag: false,
            teid_flag: true,
            message_type: message_type::CREATE_SESSION_RESPONSE,
            teid: Some(c.teid),
            sequence_number: c.sequence_number,
        },
        ies: create_session_response_ies(c),
    }
}

impl<'a> TryFrom<&'a GtpMessage> for CreateSessionResponse {
    type Error = GtpError;

    fn try_from(message: &'a GtpMessage) -> (r: Result<Self, Self::Error>)
        ensures
            result_view(r) == create_session_response_from_message(message@),
    {
        let ies = &message.information_elements;
        let cause_ie = match find_ie(ies, ie_type::CAUSE, 0) {
            Some(ie) => ie,
            None => return Err(GtpError::MissingIe(ie_type::CAUSE)),
        };
        let cause = Cause::parse(cause_ie.value.clone())?;
        let fteid_ie = match find_ie(ies, ie_type::FTEID, 1) {
            Some(ie) => ie,
            None => return Err(GtpError::MissingIe(ie_type::FTEID)),
        };
        let sender_fteid = Fteid::parse(fteid_ie.value.clone())?;
        let ambr = match find_ie(ies, ie_type::AMBR, 0) {
            Some(ie) => Some(Ambr::parse(ie.value.clone())?),
            None => None,
        };
        let bearer_ie = match find_ie(ies, ie_type::BEARER_CONTEXT, 0) {
            Some(ie) => ie,
            None => return Err(GtpError::MissingIe(ie_type::BEARER_CONTEXT)),
        };
        let bearer_context = BearerContext::parse(bearer_ie.value.clone())?;
        let teid = match message.header.teid {
            Some(t) => t,
            None => return Err(GtpError::MissingTeid),
        };
        let r = CreateSessionResponse {
            cause,
            sender_fteid,
            ambr,
            bearer_context,
            teid,
            sequence_number: message.header.sequence_number,
        };
        assert(r@ =~= create_session_response_from_message(message@).unwrap());
        Ok(r)
    }
}

impl<'a> TryFromSpecImpl<&'a GtpMessage> for CreateSessionResponse {
    open spec fn obeys_try_from_spec() -> bool {
        false
    }

    open spec fn try_from_spec(message: &'a GtpMessage) -> Result<Self, Self::Error> {
        arbitrary()
    }
}

impl From<CreateSessionResponse> for GtpMessage {
    fn from(create_session_response: CreateSessionResponse) -> (r: GtpMessage)
        ensures
            r@ == create_session_response_message(create_session_response@),
    {
        let c = create_session_response;
        let ghost m = c@;
        let mut ies: Vec<InformationElement> = Vec::new();
        let mut v = bytes_mut_new();
        c.cause.write(&mut v);
        ies.push(InformationElement { ie_type: ie_type::CAUSE, instance: 0, value: bytes_mut_freeze(v) });
        let mut v = bytes_mut_new();
        c.sender_fteid.write(&mut v);
        ies.push(InformationElement { ie_type: ie_type::FTEID, instance: 1, value: bytes_mut_freeze(v) });
        if let Some(ambr) = &c.ambr {
            let mut v = bytes_mut_new();
            ambr.write(&mut v);
            ies.push(InformationElement { ie_type: ie_type::AMBR, instance: 0, value: bytes_mut_freeze(v) });
        }
        let bearer_value = bytes_mut_freeze(c.bearer_context.write());
        ies.push(InformationElement { ie_type: ie_type::BEARER_CONTEXT, instance: 0, value: bearer_value });
        let r = GtpMessage {
            header: Header {
                version: 2,
                piggybacking_flag: false,
                teid_flag: true,
                message_type: message_type::CREATE_SESSION_RESPONSE,
                teid: Some(c.teid),
                sequence_number: c.sequence_number,
            },
            information_elements: ies,
        };
        assert(r@.ies =~= create_session_response_ies(m));
        r
    }
}

impl FromSpecImpl<CreateSessionResponse> for GtpMessage {
    open spec fn obeys_from_spec() -> bool {
        false
    }

    open spec fn from_spec(create_session_response: CreateSessionResponse) -> GtpMessage {
        arbitrary()
    }
}

/// A response that its message carries without loss: an encodable sender
/// F-TEID and bearer context.
pub open spec fn create_session_response_encodable(c: CreateSessionResponseModel) -> bool {
    &&& c.sender_fteid.encodable()
    &&& c.bearer_context.encodable()
}

/// Create Session Response round trip: a response read back from the message
/// it becomes is the same response.
pub proof fn lemma_create_session_response_roundtrip(c: CreateSessionResponseModel)
    requires
        create_session_response_encodable(c),
    ensures
        create_session_response_from_message(create_session_response_message(c)) == Ok::<
            CreateSessionResponseModel,
            GtpError,
        >(c),
{
    lemma_cause_roundtrip(c.cause);
    lemma_fteid_roundtrip(c.sender_fteid);
    match c.ambr {
        Some(a) => lemma_ambr_roundtrip(a),
        None => {},
    }
    lemma_bearer_context_roundtrip(c.bearer_context);
    let ies = create_session_response_ies(c);
    reveal_with_fuel(first_match, 5);
    assert(create_session_response_from_message(create_session_response_message(c)).unwrap() =~= c);
}

/// Wire round trip: a message written as bytes and read back, first as a
/// message and then as this type, is the same, when both its message and its
/// fields encode without loss.
pub proof fn lemma_create_session_response_wire_roundtrip(c: CreateSessionResponseModel)
    requires
        create_session_response_encodable(c),
        create_session_response_message(c).encodable(),
    ensures
        message_from_wire(create_session_response_message(c).wire()) == Ok::<MessageModel, GtpError>(create_session_response_message(c)),
        create_session_response_from_message(create_session_response_message(c)) == Ok::<CreateSessionResponseModel, GtpError>(c),
{
    lemma_message_roundtrip(create_session_response_message(c));
    lemma_create_session_response_roundtrip(c);
}

} // verus!
