//! The Bearer QoS element: the class, priority and bit rates of a bearer.
use vstd::prelude::*;
use tokio_util::bytes::{Bytes, BytesMut};
use crate::buf::{
    bytes_view, bytes_mut_view, bytes_remaining, bytes_get_u8, bytes_get_uint, bytes_mut_put_u8,
    bytes_mut_put_uint,
};
use crate::error::GtpError;
use crate::wire::{be_value, be_bytes, pow256, lemma_be_roundtrip, lemma_be_roundtrip_exact, lemma_be_value_bound, lemma_pow256_values};

verus! {

#[derive(Debug, Clone, Copy, PartialEq, Eq, Structural)]
pub struct BearerQos {
    pub pci: bool,
    pub priority_level: u8,
    pub pvi: bool,
    pub qci: u8,
    pub max_bitrate_uplink_kbps: u64,
    pub max_bitrate_downlink_kbps: u64,
    pub guaranteed_bitrate_uplink_kbps: u64,
    pub guaranteed_bitrate_downlink_kbps: u64,
}

/// The largest bit rate that the five-byte rate fields hold.
pub open spec fn max_rate() -> nat {
    0xFF_FFFF_FFFF
}

/// The flags octet: pre-emption capability in bit 6, the priority level in
/// bits 2 to 5, pre-emption vulnerability in bit 0.
pub open spec fn qos_flags(pci: bool, priority_level: u8, pvi: bool) -> u8 {
    ((if pci { 0x40u8 } else { 0u8 }) | ((priority_level & 0x0F) << 2u8)) | (if pvi { 0x01u8 } else { 0u8 })
}

impl BearerQos {
    /// The QoS that `parse` reads from an element value of at least 22 bytes.
    pub open spec fn from_wire(s: Seq<u8>) -> Result<BearerQos, GtpError> {
        if s.len() < 22 {
            Err(GtpError::Truncated)
        } else {
            let flags = s[0];
            Ok(
                BearerQos {
                    pci: flags & 0x40 != 0,
                    priority_level: (flags & 0x3C) >> 2u8,
                    pvi: flags & 0x01 != 0,
                    qci: s[1],
                    max_bitrate_uplink_kbps: be_value(s.subrange(2, 7)) as u64,
                    max_bitrate_downlink_kbps: be_value(s.subrange(7, 12)) as u64,
                    guaranteed_bitrate_uplink_kbps: be_value(s.subrange(12, 17)) as u64,
                    guaranteed_bitrate_downlink_kbps: be_value(s.subrange(17, 22)) as u64,
                },
            )
        }
    }

    /// The bytes `write` appends: flags, class, then the four rates in five
    /// bytes each (their low forty bits).
    pub open spec fn wire(self) -> Seq<u8> {
        seq![qos_flags(self.pci, self.priority_level, self.pvi), self.qci]
            + be_bytes(self.max_bitrate_uplink_kbps as nat, 5)
            + be_bytes(self.max_bitrate_downlink_kbps as nat, 5)
            + be_bytes(self.guaranteed_bitrate_uplink_kbps as nat, 5)
            + be_bytes(self.guaranteed_bitrate_downlink_kbps as nat, 5)
    }

    /// A QoS that `write` encodes without loss: a four-bit priority level and
    /// rates of at most forty bits.
    pub open spec fn encodable(self) -> bool {
        &&& self.priority_level < 16
        &&& self.max_bitrate_uplink_kbps <= max_rate()
        &&& self.max_bitrate_downlink_kbps <= max_rate()
        &&& self.guaranteed_bitrate_uplink_kbps <= max_rate()
        &&& self.guaranteed_bitrate_downlink_kbps <= max_rate()
    }

    pub fn parse(value: Bytes) -> (r: Result<Self, GtpError>)
        ensures
            r == BearerQos::from_wire(bytes_view(value)),
    {
        let ghost s = bytes_view(value);
        let mut value = value;
        if bytes_remaining(&value) < 22 {
            return Err(GtpError::Truncated);
        }
        let flags = bytes_get_u8(&mut value);
        let pci = (flags & 0b0100_0000) != 0;
        let priority_level = (flags & 0b0011_1100) >> 2;
        let pvi = (flags & 0b0000_0001) != 0;
        let qci = bytes_get_u8(&mut value);
        assert(bytes_view(value) =~= s.skip(2));
        let max_bitrate_uplink_kbps = read_uint40(&mut value)?;
        assert(bytes_view(value) =~= s.skip(7));
        let max_bitrate_downlink_kbps = read_uint40(&mut value)?;
        assert(bytes_view(value) =~= s.skip(12));
        let guaranteed_bitrate_uplink_kbps = read_uint40(&mut value)?;
        assert(bytes_view(value) =~= s.skip(17));
        let guaranteed_bitrate_downlink_kbps = read_uint40(&mut value)?;
        assert(s.skip(2).take(5) =~= s.subrange(2, 7));
        assert(s.skip(7).take(5) =~= s.subrange(7, 12));
        assert(s.skip(12).take(5) =~= s.subrange(12, 17));
        assert(s.skip(17).take(5) =~= s.subrange(17, 22));
        Ok(BearerQos {
            pci,
            priority_level,
            pvi,
            qci,
            max_bitrate_uplink_kbps,
            max_bitrate_downlink_kbps,
            guaranteed_bitrate_uplink_kbps,
            guaranteed_bitrate_downlink_kbps,
        })
    }

    pub fn write(&self, dst: &mut BytesMut)
        requires
            bytes_mut_view(*old(dst)).len() + 22 <= isize::MAX,
        ensures
            bytes_mut_view(*final(dst)) == bytes_mut_view(*old(dst)) + self.wire(),
    {
        let ghost d0 = bytes_mut_view(*dst);
        let mut flags = 0u8;
        if self.pci {
            flags |= 0b0100_0000;
        }
        flags |= (self.priority_level & 0b0000_1111) << 2;
        if self.pvi {
            flags |= 0b0000_0001;
        }
        proof {
            let c = self.pci;
            let p = self.priority_level;
            let v = self.pvi;
            assert(flags == qos_flags(c, p, v)) by (bit_vector)
                requires
                    flags == (if v {
                        ((if c { 0u8 | 0x40u8 } else { 0u8 }) | ((p & 0x0F) << 2u8)) | 0x01u8
                    } else {
                        (if c { 0u8 | 0x40u8 } else { 0u8 }) | ((p & 0x0F) << 2u8)
                    });
            lemma_be_roundtrip(self.max_bitrate_uplink_kbps as nat, 5);
            lemma_be_roundtrip(self.max_bitrate_downlink_kbps as nat, 5);
            lemma_be_roundtrip(self.guaranteed_bitrate_uplink_kbps as nat, 5);
        }
        bytes_mut_put_u8(dst, flags);
        bytes_mut_put_u8(dst, self.qci);
        write_uint40(dst, self.max_bitrate_uplink_kbps);
        write_uint40(dst, self.max_bitrate_downlink_kbps);
        write_uint40(dst, self.guaranteed_bitrate_uplink_kbps);
        write_uint40(dst, self.guaranteed_bitrate_downlink_kbps);
        assert(bytes_mut_view(*dst) =~= d0 + self.wire());
    }
}

impl Default for BearerQos {
    /// Best-effort defaults: class 9, priority level 8, no pre-emption, no rates.
    fn default() -> (r: Self)
        ensures
            r == (BearerQos {
                pci: false,
                priority_level: 8,
                pvi: false,
                qci: 9,
                max_bitrate_uplink_kbps: 0,
                max_bitrate_downlink_kbps: 0,
                guaranteed_bitrate_uplink_kbps: 0,
                guaranteed_bitrate_downlink_kbps: 0,
            }),
    {
        BearerQos {
            pci: false,
            priority_level: 8,
            pvi: false,
            qci: 9,
            max_bitrate_uplink_kbps: 0,
            max_bitrate_downlink_kbps: 0,
            guaranteed_bitrate_uplink_kbps: 0,
            guaranteed_bitrate_downlink_kbps: 0,
        }
    }
}

/// Reads a five-byte big-endian rate.
fn read_uint40(buf: &mut Bytes) -> (r: Result<u64, GtpError>)
    ensures
        bytes_view(*old(buf)).len() < 5 ==> r == Err::<u64, GtpError>(GtpError::Truncated)
            && bytes_view(*final(buf)) == bytes_view(*old(buf)),
        bytes_view(*old(buf)).len() >= 5 ==> r == Ok::<u64, GtpError>(be_value(bytes_view(*old(buf)).take(5)) as u64)
            && bytes_view(*final(buf)) == bytes_view(*old(buf)).skip(5),
{
    if bytes_remaining(buf) < 5 {
        return Err(GtpError::Truncated);
    }
    let v = bytes_get_uint(buf, 5);
    Ok(v)
}

/// Appends the low forty bits of `value`, big-endian.
fn write_uint40(dst: &mut BytesMut, value: u64)
    requires
        bytes_mut_view(*old(dst)).len() + 5 <= isize::MAX,
    ensures
        bytes_mut_view(*final(dst)) == bytes_mut_view(*old(dst)) + be_bytes(value as nat, 5),
{
    bytes_mut_put_uint(dst, value, 5)
}

/// Bearer QoS round trip: an encodable QoS reads back from its encoding.
pub proof fn lemma_bearer_qos_roundtrip(q: BearerQos)
    requires
        q.encodable(),
    ensures
        BearerQos::from_wire(q.wire()) == Ok::<BearerQos, GtpError>(q),
{
    lemma_pow256_values();
    lemma_be_roundtrip_exact(q.max_bitrate_uplink_kbps as nat, 5);
    lemma_be_roundtrip_exact(q.max_bitrate_downlink_kbps as nat, 5);
    lemma_be_roundtrip_exact(q.guaranteed_bitrate_uplink_kbps as nat, 5);
    lemma_be_roundtrip_exact(q.guaranteed_bitrate_downlink_kbps as nat, 5);
    let w = q.wire();
    assert(w.subrange(2, 7) =~= be_bytes(q.max_bitrate_uplink_kbps as nat, 5));
    assert(w.subrange(7, 12) =~= be_bytes(q.max_bitrate_downlink_kbps as nat, 5));
    assert(w.subrange(12, 17) =~= be_bytes(q.guaranteed_bitrate_uplink_kbps as nat, 5));
    assert(w.subrange(17, 22) =~= be_bytes(q.guaranteed_bitrate_downlink_kbps as nat, 5));
    let c = q.pci;
    let p = q.priority_level;
    let v = q.pvi;
    let f = qos_flags(c, p, v);
    assert((f & 0x40 != 0) == c && (f & 0x3C) >> 2u8 == p && (f & 0x01 != 0) == v) by (bit_vector)
        requires
            p < 16,
            f == ((if c { 0x40u8 } else { 0u8 }) | ((p & 0x0F) << 2u8)) | (if v { 0x01u8 } else { 0u8 });
    assert(w[0] == f);
}

} // verus!
