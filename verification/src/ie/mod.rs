//! Information elements: the type-length-instance-value records that make up
//! the body of every GTPv2 message.
use vstd::prelude::*;
use tokio_util::bytes::{Bytes, BytesMut};
use crate::buf::{
    bytes_view, bytes_mut_view, bytes_remaining, bytes_as_slice, bytes_get_u8, bytes_get_u16,
    bytes_split_to, bytes_mut_put_u8, bytes_mut_put_u16, bytes_mut_put_slice,
};
use crate::error::GtpError;
use crate::wire::{be_value, be_bytes, lemma_be_roundtrip, lemma_be_roundtrip_exact, lemma_pow256_values};

pub mod ambr;
pub mod apn;
pub mod bearer_context;
pub mod bearer_qos;
pub mod cause;
pub mod fteid;
pub mod imsi;
pub mod paa;
pub mod pdn_type;
pub mod rat_type;
pub mod recovery;
pub mod selection_mode;
pub mod types;

verus! {

#[derive(Clone, Debug)]
pub struct InformationElement {
    pub ie_type: u8,
    pub instance: u8,
    pub value: Bytes,
}

/// An information element as plain values: its type, its instance and the
/// bytes of its value.
pub struct IeModel {
    pub ie_type: u8,
    pub instance: u8,
    pub value: Seq<u8>,
}

impl View for InformationElement {
    type V = IeModel;

    open spec fn view(&self) -> IeModel {
        IeModel { ie_type: self.ie_type, instance: self.instance, value: bytes_view(self.value) }
    }
}

/// A decoding result seen through the view of its value.
pub open spec fn result_view<T: View>(r: Result<T, GtpError>) -> Result<T::V, GtpError> {
    match r {
        Ok(v) => Ok(v@),
        Err(e) => Err(e),
    }
}

impl IeModel {
    /// The bytes `write` appends: type, 16-bit value length, the instance in
    /// the low four bits of the next octet, then the value.
    pub open spec fn wire(self) -> Seq<u8> {
        seq![self.ie_type] + be_bytes((self.value.len() as u16) as nat, 2) + seq![
            self.instance & 0x0F,
        ] + self.value
    }

    /// An element that `write` encodes without loss: a value that its 16-bit
    /// length field can count and an instance that fits in four bits.
    pub open spec fn encodable(self) -> bool {
        self.value.len() <= 0xFFFF && self.instance < 16
    }
}

/// The value length that the element header at the front of `s` announces.
pub open spec fn announced_len(s: Seq<u8>) -> nat
    recommends
        s.len() >= 3,
{
    be_value(s.subrange(1, 3))
}

/// Whether `s` starts with a whole information element.
pub open spec fn ie_complete(s: Seq<u8>) -> bool {
    s.len() >= 4 && s.len() - 4 >= announced_len(s)
}

/// The element that `parse` reads from the front of `s`.
pub open spec fn ie_from_wire(s: Seq<u8>) -> Result<IeModel, GtpError> {
    if ie_complete(s) {
        Ok(
            IeModel {
                ie_type: s[0],
                instance: s[3] & 0x0F,
                value: s.subrange(4, 4 + announced_len(s) as int),
            },
        )
    } else {
        Err(GtpError::Truncated)
    }
}

/// How many bytes `parse` takes from the front of `s`: the whole element when
/// it is complete, its four header bytes when only the value is cut short,
/// and nothing when even the header is.
pub open spec fn ie_consumed(s: Seq<u8>) -> nat {
    if s.len() < 4 {
        0
    } else if ie_complete(s) {
        4 + announced_len(s)
    } else {
        4
    }
}

impl InformationElement {
    /// Reads one information element from the front of `buf`.
    pub fn parse(buf: &mut Bytes) -> (r: Result<Self, GtpError>)
        ensures
            result_view(r) == ie_from_wire(bytes_view(*old(buf))),
            bytes_view(*final(buf)) == bytes_view(*old(buf)).skip(ie_consumed(bytes_view(*old(buf))) as int),
    {
        let ghost s = bytes_view(*buf);
        if bytes_remaining(buf) < 4 {
            assert(s.skip(0) =~= s);
            return Err(GtpError::Truncated);
        }
        let ie_type = bytes_get_u8(buf);
        let len16 = bytes_get_u16(buf);
        let len = len16 as usize;
        let instance = bytes_get_u8(buf) & 0x0F;
        assert(s.skip(1).take(2) =~= s.subrange(1, 3));
        assert(bytes_view(*buf) =~= s.skip(4));
        if bytes_remaining(buf) < len {
            return Err(GtpError::Truncated);
        }
        let value = bytes_split_to(buf, len);
        assert(s.skip(4).take(len as int) =~= s.subrange(4, 4 + len));
        assert(s.skip(4).skip(len as int) =~= s.skip(4 + len));
        Ok(InformationElement { ie_type, instance, value })
    }

    /// Appends this element to `dst`.
    pub fn write(&self, dst: &mut BytesMut)
        requires
            bytes_mut_view(*old(dst)).len() + self@.wire().len() <= isize::MAX,
        ensures
            bytes_mut_view(*final(dst)) == bytes_mut_view(*old(dst)) + self@.wire(),
    {
        let ghost d0 = bytes_mut_view(*dst);
        let v = bytes_as_slice(&self.value);
        proof {
            lemma_be_roundtrip((v@.len() as u16) as nat, 2);
        }
        bytes_mut_put_u8(dst, self.ie_type);
        bytes_mut_put_u16(dst, v.len() as u16);
        bytes_mut_put_u8(dst, self.instance & 0x0F);
        bytes_mut_put_slice(dst, v);
        assert(bytes_mut_view(*dst) =~= d0 + self@.wire());
    }
}

/// The encoded size of an element: four header bytes and the value.
pub proof fn lemma_ie_wire_len(m: IeModel)
    ensures
        m.wire().len() == 4 + m.value.len(),
{
    lemma_be_roundtrip((m.value.len() as u16) as nat, 2);
}

/// Element round trip: an encodable element, written in front of any bytes,
/// reads back as itself and takes exactly its own encoding.
pub proof fn lemma_ie_roundtrip(m: IeModel, rest: Seq<u8>)
    requires
        m.encodable(),
    ensures
        ie_from_wire(m.wire() + rest) == Ok::<IeModel, GtpError>(m),
        ie_consumed(m.wire() + rest) == m.wire().len(),
        m.wire().len() == 4 + m.value.len(),
{
    let w = m.wire() + rest;
    lemma_pow256_values();
    lemma_be_roundtrip_exact(m.value.len(), 2);
    assert((m.value.len() as u16) as nat == m.value.len());
    assert(w.subrange(1, 3) =~= be_bytes(m.value.len(), 2));
    let i = m.instance;
    assert((i & 0x0F) & 0x0F == i) by (bit_vector)
        requires
            i < 16;
    assert(w.subrange(4, 4 + m.value.len() as int) =~= m.value);
    assert(ie_from_wire(w) == Ok::<IeModel, GtpError>(m));
}

} // verus!
