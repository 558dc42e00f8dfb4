//! The typed GTPv2-C messages that the load tools exchange, each read from
//! and turned into a `GtpMessage`.
use vstd::prelude::*;
use crate::error::GtpError;
use crate::ie::{InformationElement, IeModel, lemma_ie_wire_len};
use crate::message::ies_wire;

pub mod create_session_request;
pub mod create_session_response;
pub mod delete_session_request;
pub mod delete_session_response;
pub mod echo_request;
pub mod echo_response;

pub use create_session_request::CreateSessionRequest;
pub use create_session_response::CreateSessionResponse;
pub use delete_session_request::DeleteSessionRequest;
pub use delete_session_response::DeleteSessionResponse;
pub use echo_request::EchoRequest;
pub use echo_response::EchoResponse;

verus! {

/// The first element of type `t` and instance `instance`, if any.
pub open spec fn first_match(ies: Seq<IeModel>, t: u8, instance: u8) -> Option<IeModel>
    decreases ies.len(),
{
    if ies.len() == 0 {
        None
    } else if ies[0].ie_type == t && ies[0].instance == instance {
        Some(ies[0])
    } else {
        first_match(ies.drop_first(), t, instance)
    }
}

/// The first element of type `t`, whatever its instance, if any.
pub open spec fn first_of_type(ies: Seq<IeModel>, t: u8) -> Option<IeModel>
    decreases ies.len(),
{
    if ies.len() == 0 {
        None
    } else if ies[0].ie_type == t {
        Some(ies[0])
    } else {
        first_of_type(ies.drop_first(), t)
    }
}

/// The value of the first element of type `t` and instance `instance`, or
/// `MissingIe(t)` when there is none.
pub open spec fn mandatory_value(ies: Seq<IeModel>, t: u8, instance: u8) -> Result<Seq<u8>, GtpError> {
    match first_match(ies, t, instance) {
        Some(ie) => Ok(ie.value),
        None => Err(GtpError::MissingIe(t)),
    }
}

/// The views of a list of elements.
pub open spec fn ies_view(ies: Seq<InformationElement>) -> Seq<IeModel> {
    ies.map_values(|ie: InformationElement| ie@)
}

/// Finds the first element of type `t` and instance `instance`.
pub fn find_ie(ies: &Vec<InformationElement>, t: u8, instance: u8) -> (r: Option<&InformationElement>)
    ensures
        match r {
            Some(ie) => first_match(ies_view(ies@), t, instance) == Some(ie@),
            None => first_match(ies_view(ies@), t, instance) == None::<IeModel>,
        },
{
    let ghost all = ies_view(ies@);
    let n = ies.len();
    let mut i: usize = 0;
    assert(all.skip(0) =~= all);
    while i < n
        invariant
            n == ies@.len(),
            all == ies_view(ies@),
            0 <= i <= n,
            first_match(all, t, instance) == first_match(all.skip(i as int), t, instance),
        decreases n - i,
    {
        assert(all.skip(i as int)[0] == ies@[i as int]@);
        assert(all.skip(i as int).drop_first() =~= all.skip(i as int + 1));
        if ies[i].ie_type == t && ies[i].instance == instance {
            return Some(&ies[i]);
        }
        i = i + 1;
    }
    assert(all.skip(n as int) =~= Seq::<IeModel>::empty());
    None
}

/// Finds the first element of type `t`, whatever its instance.
pub fn find_ie_of_type(ies: &Vec<InformationElement>, t: u8) -> (r: Option<&InformationElement>)
    ensures
        match r {
            Some(ie) => first_of_type(ies_view(ies@), t) == Some(ie@),
            None => first_of_type(ies_view(ies@), t) == None::<IeModel>,
        },
{
    let ghost all = ies_view(ies@);
    let n = ies.len();
    let mut i: usize = 0;
    assert(all.skip(0) =~= all);
    while i < n
        invariant
            n == ies@.len(),
            all == ies_view(ies@),
            0 <= i <= n,
            first_of_type(all, t) == first_of_type(all.skip(i as int), t),
        decreases n - i,
    {
        assert(all.skip(i as int)[0] == ies@[i as int]@);
        assert(all.skip(i as int).drop_first() =~= all.skip(i as int + 1));
        if ies[i].ie_type == t {
            return Some(&ies[i]);
        }
        i = i + 1;
    }
    assert(all.skip(n as int) =~= Seq::<IeModel>::empty());
    None
}

/// A one-element body encodes to the element's four header bytes and value.
pub proof fn lemma_single_ie_body(ie: IeModel)
    ensures
        ies_wire(seq![ie]).len() == 4 + ie.value.len(),
{
    lemma_ie_wire_len(ie);
    assert(seq![ie].drop_first() =~= Seq::<IeModel>::empty());
    assert(ies_wire(seq![ie]) =~= ie.wire() + ies_wire(Seq::<IeModel>::empty()));
}

} // verus!
