//! The Bearer Context element: a grouped element whose value is itself a
//! sequence of information elements describing one bearer.
use vstd::prelude::*;
use tokio_util::bytes::{Bytes, BytesMut};
use crate::buf::{
    bytes_view, bytes_mut_view, bytes_remaining, bytes_as_slice, bytes_copy_from_slice, bytes_mut_new,
    bytes_mut_freeze,
};
use crate::error::GtpError;
use crate::ie::bearer_qos::{BearerQos, lemma_bearer_qos_roundtrip};
use crate::ie::cause::{Cause, lemma_cause_roundtrip};
use crate::ie::fteid::{Fteid, FteidModel, lemma_fteid_roundtrip, lemma_fteid_wire_len};
use crate::ie::types::ie_type;
use crate::ie::{InformationElement, IeModel, ie_from_wire, ie_consumed, lemma_ie_roundtrip, lemma_ie_wire_len};
use crate::message::{ies_wire, lemma_ies_wire_push};
use crate::wire::{be_bytes, lemma_be_roundtrip};

verus! {

#[derive(Debug, Clone)]
pub struct BearerContext {
    pub ebi: Option<u8>,
    pub cause: Option<Cause>,
    pub fteid: Option<Fteid>,
    pub bearer_qos: Option<BearerQos>,
}

/// A bearer context as plain values.
#[verifier::ext_equal]
pub struct BearerContextModel {
    pub ebi: Option<u8>,
    pub cause: Option<Cause>,
    pub fteid: Option<FteidModel>,
    pub bearer_qos: Option<BearerQos>,
}

impl View for BearerContext {
    type V = BearerContextModel;

    open spec fn view(&self) -> BearerContextModel {
        BearerContextModel {
            ebi: self.ebi,
            cause: self.cause,
            fteid: match self.fteid {
                Some(f) => Some(f@),
                None => None,
            },
            bearer_qos: self.bearer_qos,
        }
    }
}

impl Default for BearerContext {
    /// A bearer context with nothing in it.
    fn default() -> (r: Self)
        ensures
            r@ == BearerContextModel::empty(),
    {
        BearerContext { ebi: None, cause: None, fteid: None, bearer_qos: None }
    }
}

impl BearerContextModel {
    pub open spec fn empty() -> BearerContextModel {
        BearerContextModel { ebi: None, cause: None, fteid: None, bearer_qos: None }
    }

    /// Takes one nested element into the context: the EBI is the first byte of
    /// its value (none when empty); Cause, F-TEID and Bearer QoS values are
    /// decoded, and their errors end the parse; other types are ignored. A
    /// later element of a type replaces an earlier one.
    pub open spec fn apply(self, ie: IeModel) -> Result<BearerContextModel, GtpError> {
        if ie.ie_type == ie_type::EBI {
            Ok(BearerContextModel {
                ebi: if ie.value.len() > 0 { Some(ie.value[0]) } else { None },
                ..self
            })
        } else if ie.ie_type == ie_type::CAUSE {
            match Cause::from_wire(ie.value) {
                Ok(c) => Ok(BearerContextModel { cause: Some(c), ..self }),
                Err(e) => Err(e),
            }
        } else if ie.ie_type == ie_type::FTEID {
            match FteidModel::from_wire(ie.value) {
                Ok(f) => Ok(BearerContextModel { fteid: Some(f), ..self }),
                Err(e) => Err(e),
            }
        } else if ie.ie_type == ie_type::BEARER_QOS {
            match BearerQos::from_wire(ie.value) {
                Ok(q) => Ok(BearerContextModel { bearer_qos: Some(q), ..self }),
                Err(e) => Err(e),
            }
        } else {
            Ok(self)
        }
    }

    /// The nested elements `write` emits: the EBI, the Cause, the F-TEID (as
    /// instance 2) and the Bearer QoS, each when present.
    pub open spec fn ies(self) -> Seq<IeModel> {
        let l0 = Seq::<IeModel>::empty();
        let le = match self.ebi {
            Some(e) => l0.push(IeModel { ie_type: ie_type::EBI, instance: 0, value: seq![e] }),
            None => l0,
        };
        let l1 = match self.cause {
            Some(c) => le.push(IeModel { ie_type: ie_type::CAUSE, instance: 0, value: c.wire() }),
            None => le,
        };
        let l2 = match self.fteid {
            Some(f) => l1.push(IeModel { ie_type: ie_type::FTEID, instance: 2, value: f.wire() }),
            None => l1,
        };
        match self.bearer_qos {
            Some(q) => l2.push(IeModel { ie_type: ie_type::BEARER_QOS, instance: 0, value: q.wire() }),
            None => l2,
        }
    }

    /// A context that `write` encodes without loss.
    pub open spec fn encodable(self) -> bool {
        &&& (self.fteid matches Some(f) ==> f.encodable())
        &&& (self.bearer_qos matches Some(q) ==> q.encodable())
    }
}

/// Folds the nested elements into `acc` from first to last.
pub open spec fn bc_fold(ies: Seq<IeModel>, acc: BearerContextModel) -> Result<BearerContextModel, GtpError>
    decreases ies.len(),
{
    if ies.len() == 0 {
        Ok(acc)
    } else {
        match acc.apply(ies[0]) {
            Err(e) => Err(e),
            Ok(next) => bc_fold(ies.drop_first(), next),
        }
    }
}

/// What `parse` makes of the bytes `s` on top of the context `acc`: each
/// nested element in turn, up to the first error.
pub open spec fn bc_from_wire_from(s: Seq<u8>, acc: BearerContextModel) -> Result<BearerContextModel, GtpError>
    decreases s.len(),
{
    if s.len() == 0 {
        Ok(acc)
    } else {
        match ie_from_wire(s) {
            Err(e) => Err(e),
            Ok(ie) => match acc.apply(ie) {
                Err(e) => Err(e),
                Ok(next) => bc_from_wire_from(s.skip(ie_consumed(s) as int), next),
            },
        }
    }
}

/// The bearer context that `parse` reads from an element value.
pub open spec fn bc_from_wire(s: Seq<u8>) -> Result<BearerContextModel, GtpError> {
    bc_from_wire_from(s, BearerContextModel::empty())
}

/// The first byte of a value, if any.
fn first_byte(value: &Bytes) -> (r: Option<u8>)
    ensures
        r == (if bytes_view(*value).len() > 0 { Some(bytes_view(*value)[0]) } else { None::<u8> }),
{
    let s = bytes_as_slice(value);
    if s.len() > 0 {
        Some(s[0])
    } else {
        None
    }
}

impl BearerContext {
    #[verifier::loop_isolation(false)]
    pub fn parse(value: Bytes) -> (r: Result<Self, GtpError>)
        ensures
            crate::ie::result_view(r) == bc_from_wire(bytes_view(value)),
    {
        let ghost s = bytes_view(value);
        let mut ctx = BearerContext::default();
        let mut buf = value;
        while bytes_remaining(&buf) > 0
            invariant
                bc_from_wire(s) == bc_from_wire_from(bytes_view(buf), ctx@),
            decreases bytes_view(buf).len(),
        {
            let ghost cur = bytes_view(buf);
            let ghost acc = ctx@;
            let ie = match InformationElement::parse(&mut buf) {
                Ok(ie) => ie,
                Err(e) => {
                    assert(bc_from_wire_from(cur, acc) == Err::<BearerContextModel, GtpError>(e));
                    return Err(e);
                },
            };
            let ghost iev = ie@;
            if ie.ie_type == ie_type::EBI {
                ctx.ebi = first_byte(&ie.value);
            } else if ie.ie_type == ie_type::CAUSE {
                match Cause::parse(ie.value) {
                    Ok(c) => ctx.cause = Some(c),
                    Err(e) => {
                        assert(acc.apply(iev) == Err::<BearerContextModel, GtpError>(e));
                        return Err(e);
                    },
                }
            } else if ie.ie_type == ie_type::FTEID {
                match Fteid::parse(ie.value) {
                    Ok(f) => ctx.fteid = Some(f),
                    Err(e) => {
                        assert(acc.apply(iev) == Err::<BearerContextModel, GtpError>(e));
                        return Err(e);
                    },
                }
            } else if ie.ie_type == ie_type::BEARER_QOS {
                match BearerQos::parse(ie.value) {
                    Ok(q) => ctx.bearer_qos = Some(q),
                    Err(e) => {
                        assert(acc.apply(iev) == Err::<BearerContextModel, GtpError>(e));
                        return Err(e);
                    },
                }
            }
            assert(acc.apply(iev) == Ok::<BearerContextModel, GtpError>(ctx@));
        }
        Ok(ctx)
    }

    /// The nested elements of this context, encoded one after the other.
    pub fn write(&self) -> (r: BytesMut)
        ensures
            bytes_mut_view(r) == ies_wire(self@.ies()),
    {
        let ghost m = self@;
        let ghost l0 = Seq::<IeModel>::empty();
        let mut inner = bytes_mut_new();
        assert(bytes_mut_view(inner) == ies_wire(l0));
        if let Some(ebi) = self.ebi {
            let one = [ebi];
            assert(one@ =~= seq![ebi]);
            let ie = InformationElement { ie_type: ie_type::EBI, instance: 0, value: bytes_copy_from_slice(&one) };
            assert(ie@ =~= (IeModel { ie_type: ie_type::EBI, instance: 0, value: seq![ebi] }));
            proof {
                lemma_ie_wire_len(ie@);
                lemma_ies_wire_push(l0, ie@);
            }
            ie.write(&mut inner);
        }
        let ghost le = match m.ebi {
            Some(e) => l0.push(IeModel { ie_type: ie_type::EBI, instance: 0, value: seq![e] }),
            None => l0,
        };
        assert(bytes_mut_view(inner) == ies_wire(le));
        assert(bytes_mut_view(inner).len() <= 5);
        if let Some(cause) = self.cause {
            let mut v = bytes_mut_new();
            cause.write(&mut v);
            let ie = InformationElement { ie_type: ie_type::CAUSE, instance: 0, value: bytes_mut_freeze(v) };
            proof {
                lemma_ie_wire_len(ie@);
                lemma_ies_wire_push(le, ie@);
            }
            ie.write(&mut inner);
        }
        let ghost l1 = match m.cause {
            Some(c) => le.push(IeModel { ie_type: ie_type::CAUSE, instance: 0, value: c.wire() }),
            None => le,
        };
        assert(bytes_mut_view(inner) == ies_wire(l1));
        assert(bytes_mut_view(inner).len() <= 11);
        if let Some(fteid) = &self.fteid {
            let mut v = bytes_mut_new();
            fteid.write(&mut v);
            let ie = InformationElement { ie_type: ie_type::FTEID, instance: 2, value: bytes_mut_freeze(v) };
            proof {
                lemma_fteid_wire_len(fteid@);
                lemma_ie_wire_len(ie@);
                lemma_ies_wire_push(l1, ie@);
            }
            ie.write(&mut inner);
        }
        let ghost l2 = match m.fteid {
            Some(f) => l1.push(IeModel { ie_type: ie_type::FTEID, instance: 2, value: f.wire() }),
            None => l1,
        };
        assert(bytes_mut_view(inner) == ies_wire(l2));
        assert(bytes_mut_view(inner).len() <= 40);
        if let Some(qos) = &self.bearer_qos {
            let mut v = bytes_mut_new();
            qos.write(&mut v);
            let ie = InformationElement { ie_type: ie_type::BEARER_QOS, instance: 0, value: bytes_mut_freeze(v) };
            proof {
                lemma_be_roundtrip(qos.max_bitrate_uplink_kbps as nat, 5);
                lemma_be_roundtrip(qos.max_bitrate_downlink_kbps as nat, 5);
                lemma_be_roundtrip(qos.guaranteed_bitrate_uplink_kbps as nat, 5);
                lemma_be_roundtrip(qos.guaranteed_bitrate_downlink_kbps as nat, 5);
                lemma_ie_wire_len(ie@);
                lemma_ies_wire_push(l2, ie@);
            }
            ie.write(&mut inner);
        }
        inner
    }
}

/// Reading encodable elements back folds them into the context one by one.
pub proof fn lemma_bc_from_ies_wire(ies: Seq<IeModel>, acc: BearerContextModel)
    requires
        forall|i: int| 0 <= i < ies.len() ==> #[trigger] ies[i].encodable(),
    ensures
        bc_from_wire_from(ies_wire(ies), acc) == bc_fold(ies, acc),
    decreases ies.len(),
{
    if ies.len() > 0 {
        let rest = ies.drop_first();
        assert forall|i: int| 0 <= i < rest.len() implies #[trigger] rest[i].encodable() by {
            assert(rest[i] == ies[i + 1]);
        }
        assert(ies[0].encodable());
        lemma_ie_roundtrip(ies[0], ies_wire(rest));
        let w = ies_wire(ies);
        assert(w.skip(ie_consumed(w) as int) =~= ies_wire(rest));
        match acc.apply(ies[0]) {
            Ok(next) => lemma_bc_from_ies_wire(rest, next),
            Err(e) => {},
        }
    }
}

/// Bearer context round trip: an encodable context reads back from its
/// encoding as itself.
pub proof fn lemma_bearer_context_roundtrip(b: BearerContextModel)
    requires
        b.encodable(),
    ensures
        bc_from_wire(ies_wire(b.ies())) == Ok::<BearerContextModel, GtpError>(b),
{
    let l = b.ies();
    match b.cause {
        Some(c) => lemma_cause_roundtrip(c),
        None => {},
    }
    match b.fteid {
        Some(f) => {
            lemma_fteid_roundtrip(f);
            lemma_fteid_wire_len(f);
        },
        None => {},
    }
    match b.bearer_qos {
        Some(q) => {
            lemma_bearer_qos_roundtrip(q);
        },
        None => {},
    }
    assert forall|i: int| 0 <= i < l.len() implies #[trigger] l[i].encodable() by {
        match b.bearer_qos {
            Some(q) => {
                lemma_be_roundtrip(q.max_bitrate_uplink_kbps as nat, 5);
                lemma_be_roundtrip(q.max_bitrate_downlink_kbps as nat, 5);
                lemma_be_roundtrip(q.guaranteed_bitrate_uplink_kbps as nat, 5);
                lemma_be_roundtrip(q.guaranteed_bitrate_downlink_kbps as nat, 5);
            },
            None => {},
        }
    }
    lemma_bc_from_ies_wire(l, BearerContextModel::empty());
    reveal_with_fuel(bc_fold, 5);
    assert(bc_fold(l, BearerContextModel::empty()).unwrap() =~= b);
}

} // verus!
