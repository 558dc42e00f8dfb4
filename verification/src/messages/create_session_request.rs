//! Create Session Request: asks the peer to set up a session for a
//! subscriber, with everything the session needs.
use vstd::prelude::*;
use vstd::utf8::encode_utf8;
use vstd::std_specs::convert::TryFromSpecImpl;
use crate::buf::{bytes_mut_new, bytes_mut_freeze, bytes_mut_view};
use crate::error::GtpError;
use crate::header::Header;
use crate::ie::ambr::{Ambr, lemma_ambr_roundtrip};
use crate::ie::apn::{Apn, apn_from_wire, apn_wire, labels_fit, lemma_apn_roundtrip, lemma_apn_wire_len};
use crate::ie::bearer_context::{BearerContext, BearerContextModel, bc_from_wire, lemma_bearer_context_roundtrip};
use crate::ie::fteid::{Fteid, FteidModel, lemma_fteid_roundtrip};
use crate::ie::imsi::{Imsi, imsi_from_wire, imsi_wire, imsi_writable, all_decimal_digits, lemma_imsi_roundtrip};
use crate::ie::paa::{Paa, PaaModel, lemma_paa_roundtrip};
use crate::ie::pdn_type::{PdnType, lemma_pdn_type_roundtrip};
use crate::ie::rat_type::{RatType, lemma_rat_type_roundtrip};
use crate::ie::selection_mode::{SelectionMode, lemma_selection_mode_roundtrip};
use crate::ie::types::{ie_type, message_type};
use crate::ie::{InformationElement, IeModel, result_view};
use crate::message::{GtpMessage, MessageModel, ies_wire, message_from_wire, lemma_message_roundtrip};
use crate::messages::{find_ie, first_match};

verus! {

#[derive(Debug, Clone)]
pub struct CreateSessionRequest {
    pub imsi: Imsi,
    pub sender_fteid: Fteid,
    pub apn: Apn,
    pub ambr: Ambr,
    pub rat_type: RatType,
    pub pdn_type: PdnType,
    pub paa: Paa,
    pub selection_mode: SelectionMode,
    pub bearer_context: BearerContext,
    pub sequence_number: u32,
}

/// A create session request as plain values.
#[verifier::ext_equal]
pub struct CreateSessionRequestModel {
    pub imsi: Seq<char>,
    pub sender_fteid: FteidModel,
    pub apn: Seq<char>,
    pub ambr: Ambr,
    pub rat_type: RatType,
    pub pdn_type: PdnType,
    pub paa: PaaModel,
    pub selection_mode: SelectionMode,
    pub bearer_context: BearerContextModel,
    pub sequence_number: u32,
}

impl View for CreateSessionRequest {
    type V = CreateSessionRequestModel;

    open spec fn view(&self) -> CreateSessionRequestModel {
        CreateSessionRequestModel {
            imsi: self.imsi@,
            sender_fteid: self.sender_fteid@,
            apn: self.apn@,
            ambr: self.ambr,
            rat_type: self.rat_type,
            pdn_type: self.pdn_type,
            paa: self.paa@,
            selection_mode: self.selection_mode,
            bearer_context: self.bearer_context@,
            sequence_number: self.sequence_number,
        }
    }
}

/// The request a message holds. The header TEID must be 0; then these
/// elements, all of instance 0, are taken in this order, a missing one or one
/// that does not decode ending the decoding: IMSI, sender F-TEID, APN, AMBR,
/// RAT type, PDN type, PAA, selection mode, bearer context.
pub open spec fn create_session_request_from_message(m: MessageModel) -> Result<CreateSessionRequestModel, GtpError> {
    let ies = m.ies;
    if m.header.teid != Some(0u32) {
        Err(GtpError::InvalidTeid { expected: 0, actual: m.header.teid })
    } else {
        match first_match(ies, ie_type::IMSI, 0) {
            None => Err(GtpError::MissingIe(ie_type::IMSI)),
            Some(imsi_ie) => match first_match(ies, ie_type::FTEID, 0) {
                None => Err(GtpError::MissingIe(ie_type::FTEID)),
                Some(fteid_ie) => match FteidModel::from_wire(fteid_ie.value) {
                    Err(e) => Err(e),
                    Ok(sender_fteid) => match first_match(ies, ie_type::APN, 0) {
                        None => Err(GtpError::MissingIe(ie_type::APN)),
                        Some(apn_ie) => match apn_from_wire(apn_ie.value) {
                            Err(e) => Err(e),
                            Ok(apn) => match first_match(ies, ie_type::AMBR, 0) {
                                None => Err(GtpError::MissingIe(ie_type::AMBR)),
                                Some(ambr_ie) => match Ambr::from_wire(ambr_ie.value) {
                                    Err(e) => Err(e),
                                    Ok(ambr) => match first_match(ies, ie_type::RAT_TYPE, 0) {
                                        None => Err(GtpError::MissingIe(ie_type::RAT_TYPE)),
                                        Some(rat_ie) => match RatType::from_wire(rat_ie.value) {
                                            Err(e) => Err(e),
                                            Ok(rat_type) => match first_match(ies, ie_type::PDN_TYPE, 0) {
                                                None => Err(GtpError::MissingIe(ie_type::PDN_TYPE)),
                                                Some(pdn_ie) => match PdnType::from_wire(pdn_ie.value) {
                                                    Err(e) => Err(e),
                                                    Ok(pdn_type) => match first_match(ies, ie_type::PAA, 0) {
                                                        None => Err(GtpError::MissingIe(ie_type::PAA)),
                                                        Some(paa_ie) => match PaaModel::from_wire(paa_ie.value) {
                                                            Err(e) => Err(e),
                                                            Ok(paa) => match first_match(
                                                                ies,
                                                                ie_type::SELECTION_MODE,
                                                                0,
                                                            ) {
                                                                None => Err(GtpError::MissingIe(ie_type::SELECTION_MODE)),
                                                                Some(sel_ie) => match SelectionMode::from_wire(
                                                                    sel_ie.value,
                                                                ) {
                                                                    Err(e) => Err(e),
                                                                    Ok(selection_mode) => match first_match(
                                                                        ies,
                                                                        ie_type::BEARER_CONTEXT,
                                                                        0,
                                                                    ) {
                                                                        None => Err(
                                                                            GtpError::MissingIe(ie_type::BEARER_CONTEXT),
                                                                        ),
                                                                        Some(bearer_ie) => match bc_from_wire(
                                                                            bearer_ie.value,
                                                                        ) {
                                                                            Err(e) => Err(e),
                                                                            Ok(bearer_context) => Ok(
                                                                                CreateSessionRequestModel {
                                                                                    imsi: imsi_from_wire(imsi_ie.value),
                                                                                    sender_fteid,
                                                                                    apn,
                                                                                    ambr,
                                                                                    rat_type,
                                                                                    pdn_type,
                                                                                    paa,
                                                                                    selection_mode,
                                                                                    bearer_context,
                                                                                    sequence_number: m.header.sequence_number,
                                                                                },
                                                                            ),
                                                                        },
                                                                    },
                                                                },
                                                            },
                                                        },
                                                    },
                                                },
                                            },
                                        },
                                    },
                                },
                            },
                        },
                    },
                },
            },
        }
    }
}

/// The elements a request becomes, all of instance 0: IMSI, sender F-TEID,
/// APN, AMBR, RAT type, PDN type, PAA, selection mode, bearer context.
pub open spec fn create_session_request_ies(c: CreateSessionRequestModel) -> Seq<IeModel> {
    seq![
        IeModel { ie_type: ie_type::IMSI, instance: 0, value: imsi_wire(c.imsi) },
        IeModel { ie_type: ie_type::FTEID, instance: 0, value: c.sender_fteid.wire() },
        IeModel { ie_type: ie_type::APN, instance: 0, value: apn_wire(c.apn) },
        IeModel { ie_type: ie_type::AMBR, instance: 0, value: c.ambr.wire() },
        IeModel { ie_type: ie_type::RAT_TYPE, instance: 0, value: c.rat_type.wire() },
        IeModel { ie_type: ie_type::PDN_TYPE, instance: 0, value: c.pdn_type.wire() },
        IeModel { ie_type: ie_type::PAA, instance: 0, value: c.paa.wire() },
        IeModel { ie_type: ie_type::SELECTION_MODE, instance: 0, value: c.selection_mode.wire() },
        IeModel { ie_type: ie_type::BEARER_CONTEXT, instance: 0, value: ies_wire(c.bearer_context.ies()) },
    ]
}

/// The message a request becomes: type 32 with TEID 0.
pub open spec fn create_session_request_message(c: CreateSessionRequestModel) -> MessageModel {
    MessageModel {
        header: Header {
            version: 2,
            piggybacking_flag: false,
            teid_flag: true,
            message_type: message_type::CREATE_SESSION_REQUEST,
            teid: Some(0),
            sequence_number: c.sequence_number,
        },
        ies: create_session_request_ies(c),
    }
}

/// Whether the request's texts can be written: every IMSI byte at least
/// `'0'`, and both texts far below the address-space limit.
pub open spec fn create_session_request_writable(c: CreateSessionRequestModel) -> bool {
    &&& imsi_writable(c.imsi)
    &&& encode_utf8(c.imsi).len() <= isize::MAX
    &&& encode_utf8(c.apn).len() + 1 <= isize::MAX
}

impl<'a> TryFrom<&'a GtpMessage> for CreateSessionRequest {
    type Error = GtpError;

    fn try_from(message: &'a GtpMessage) -> (r: Result<Self, Self::Error>)
        ensures
            result_view(r) == create_session_request_from_message(message@),
    {
        if message.header.teid != Some(0u32) {
            return Err(GtpError::InvalidTeid { expected: 0, actual: message.header.teid });
        }
        let ies = &message.information_elements;
        let imsi_ie = match find_ie(ies, ie_type::IMSI, 0) {
            Some(ie) => ie,
            None => return Err(GtpError::MissingIe(ie_type::IMSI)),
        };
        let imsi = Imsi::parse(imsi_ie.value.clone())?;
        let fteid_ie = match find_ie(ies, ie_type::FTEID, 0) {
            Some(ie) => ie,
            None => return Err(GtpError::MissingIe(ie_type::FTEID)),
        };
        let sender_fteid = Fteid::parse(fteid_ie.value.clone())?;
        let apn_ie = match find_ie(ies, ie_type::APN, 0) {
            Some(ie) => ie,
            None => return Err(GtpError::MissingIe(ie_type::APN)),
        };
        let apn = Apn::parse(apn_ie.value.clone())?;
        let ambr_ie = match find_ie(ies, ie_type::AMBR, 0) {
            Some(ie) => ie,
            None => return Err(GtpError::MissingIe(ie_type::AMBR)),
        };
        let ambr = Ambr::parse(ambr_ie.value.clone())?;
        let rat_ie = match find_ie(ies, ie_type::RAT_TYPE, 0) {
            Some(ie) => ie,
            None => return Err(GtpError::MissingIe(ie_type::RAT_TYPE)),
        };
        let rat_type = RatType::parse(rat_ie.value.clone())?;
        let pdn_ie = match find_ie(ies, ie_type::PDN_TYPE, 0) {
            Some(ie) => ie,
            None => return Err(GtpError::MissingIe(ie_type::PDN_TYPE)),
        };
        let pdn_type = PdnType::parse(pdn_ie.value.clone())?;
        let paa_ie = match find_ie(ies, ie_type::PAA, 0) {
            Some(ie) => ie,
            None => return Err(GtpError::MissingIe(ie_type::PAA)),
        };
        let paa = Paa::parse(paa_ie.value.clone())?;
        let sel_ie = match find_ie(ies, ie_type::SELECTION_MODE, 0) {
            Some(ie) => ie,
            None => return Err(GtpError::MissingIe(ie_type::SELECTION_MODE)),
        };
        let selection_mode = SelectionMode::parse(sel_ie.value.clone())?;
        let bearer_ie = match find_ie(ies, ie_type::BEARER_CONTEXT, 0) {
            Some(ie) => ie,
            None => return Err(GtpError::MissingIe(ie_type::BEARER_CONTEXT)),
        };
        let bearer_context = BearerContext::parse(bearer_ie.value.clone())?;
        let r = CreateSessionRequest {
            imsi,
            sender_fteid,
            apn,
            ambr,
            rat_type,
            pdn_type,
            paa,
            selection_mode,
            bearer_context,
            sequence_number: message.header.sequence_number,
        };
        assert(r@ =~= create_session_request_from_message(message@).unwrap());
        Ok(r)
    }
}

impl<'a> TryFromSpecImpl<&'a GtpMessage> for CreateSessionRequest {
    open spec fn obeys_try_from_spec() -> bool {
        false
    }

    open spec fn try_from_spec(message: &'a GtpMessage) -> Result<Self, Self::Error> {
        arbitrary()
    }
}

impl CreateSessionRequest {
    /// The message this request becomes: a header of type 32 with TEID 0 and
    /// sequence number, then its elements.
    pub fn into_message(self) -> (r: GtpMessage)
        requires
            create_session_request_writable(self@),
        ensures
            r@ == create_session_request_message(self@),
    {
        let c = self;
        let ghost m = c@;
        let mut ies: Vec<InformationElement> = Vec::new();
        let mut v = bytes_mut_new();
        c.imsi.write(&mut v);
        ies.push(InformationElement { ie_type: ie_type::IMSI, instance: 0, value: bytes_mut_freeze(v) });
        let mut v = bytes_mut_new();
        c.sender_fteid.write(&mut v);
        ies.push(InformationElement { ie_type: ie_type::FTEID, instance: 0, value: bytes_mut_freeze(v) });
        let mut v = bytes_mut_new();
        c.apn.write(&mut v);
        ies.push(InformationElement { ie_type: ie_type::APN, instance: 0, value: bytes_mut_freeze(v) });
        let mut v = bytes_mut_new();
        c.ambr.write(&mut v);
        ies.push(InformationElement { ie_type: ie_type::AMBR, instance: 0, value: bytes_mut_freeze(v) });
        let mut v = bytes_mut_new();
        c.rat_type.write(&mut v);
        ies.push(InformationElement { ie_type: ie_type::RAT_TYPE, instance: 0, value: bytes_mut_freeze(v) });
        let mut v = bytes_mut_new();
        c.pdn_type.write(&mut v);
        ies.push(InformationElement { ie_type: ie_type::PDN_TYPE, instance: 0, value: bytes_mut_freeze(v) });
        let mut v = bytes_mut_new();
        c.paa.write(&mut v);
        ies.push(InformationElement { ie_type: ie_type::PAA, instance: 0, value: bytes_mut_freeze(v) });
        let mut v = bytes_mut_new();
        c.selection_mode.write(&mut v);
        ies.push(InformationElement { ie_type: ie_type::SELECTION_MODE, instance: 0, value: bytes_mut_freeze(v) });
        let bearer_value = bytes_mut_freeze(c.bearer_context.write());
        ies.push(InformationElement { ie_type: ie_type::BEARER_CONTEXT, instance: 0, value: bearer_value });
        let r = GtpMessage {
            header: Header {
                version: 2,
                piggybacking_flag: false,
                teid_flag: true,
                message_type: message_type::CREATE_SESSION_REQUEST,
                teid: Some(0),
                sequence_number: c.sequence_number,
            },
            information_elements: ies,
        };
        assert(r@.ies =~= create_session_request_ies(m));
        r
    }
}

/// A request that its message carries without loss: an IMSI of decimal
/// digits, APN labels of at most 255 bytes, an encodable sender F-TEID and
/// PAA, and an encodable bearer context.
pub open spec fn create_session_request_encodable(c: CreateSessionRequestModel) -> bool {
    &&& all_decimal_digits(c.imsi)
    &&& labels_fit(c.apn)
    &&& c.sender_fteid.encodable()
    &&& c.paa.encodable()
    &&& c.bearer_context.encodable()
}

/// Create Session Request round trip: a request read back from the message it
/// becomes is the same request.
pub proof fn lemma_create_session_request_roundtrip(c: CreateSessionRequestModel)
    requires
        create_session_request_encodable(c),
    ensures
        create_session_request_from_message(create_session_request_message(c)) == Ok::<
            CreateSessionRequestModel,
            GtpError,
        >(c),
{
    lemma_imsi_roundtrip(c.imsi);
    lemma_fteid_roundtrip(c.sender_fteid);
    lemma_apn_roundtrip(c.apn);
    lemma_ambr_roundtrip(c.ambr);
    lemma_rat_type_roundtrip(c.rat_type);
    lemma_pdn_type_roundtrip(c.pdn_type);
    lemma_paa_roundtrip(c.paa);
    lemma_selection_mode_roundtrip(c.selection_mode);
    lemma_bearer_context_roundtrip(c.bearer_context);
    reveal_with_fuel(first_match, 10);
    assert(create_session_request_from_message(create_session_request_message(c)).unwrap() =~= c);
}

/// Wire round trip: a message written as bytes and read back, first as a
/// message and then as this type, is the same, when both its message and its
/// fields encode without loss.
pub proof fn lemma_create_session_request_wire_roundtrip(c: CreateSessionRequestModel)
    requires
        create_session_request_encodable(c),
        create_session_request_message(c).encodable(),
    ensures
        message_from_wire(create_session_request_message(c).wire()) == Ok::<MessageModel, GtpError>(create_session_request_message(c)),
        create_session_request_from_message(create_session_request_message(c)) == Ok::<CreateSessionRequestModel, GtpError>(c),
{
    lemma_message_roundtrip(create_session_request_message(c));
    lemma_create_session_request_roundtrip(c);
}

} // verus!
