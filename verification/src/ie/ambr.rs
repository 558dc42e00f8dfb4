//! The AMBR element: the aggregate maximum bit rates of a session.
use vstd::prelude::*;
use tokio_util::bytes::{Bytes, BytesMut};
use crate::buf::{bytes_view, bytes_mut_view, bytes_remaining, bytes_get_u32, bytes_mut_put_u32};
use crate::error::GtpError;
use crate::wire::{be_value, be_bytes, lemma_be_roundtrip, lemma_be_roundtrip_exact, lemma_pow256_values};

verus! {

#[derive(Debug, Clone, Copy, PartialEq, Eq, Structural)]
pub struct Ambr {
    pub uplink_kbps: u32,
    pub downlink_kbps: u32,
}

impl Ambr {
    /// The rates that `parse` reads: two big-endian 32-bit numbers.
    pub open spec fn from_wire(s: Seq<u8>) -> Result<Ambr, GtpError> {
        if s.len() < 8 {
            Err(GtpError::Truncated)
        } else {
            Ok(
                Ambr {
                    uplink_kbps: be_value(s.subrange(0, 4)) as u32,
                    downlink_kbps: be_value(s.subrange(4, 8)) as u32,
                },
            )
        }
    }

    /// The bytes `write` appends: uplink, then downlink, big-endian.
    pub open spec fn wire(self) -> Seq<u8> {
        be_bytes(self.uplink_kbps as nat, 4) + be_bytes(self.downlink_kbps as nat, 4)
    }

    pub fn parse(value: Bytes) -> (r: Result<Self, GtpError>)
        ensures
            r == Ambr::from_wire(bytes_view(value)),
    {
        let ghost s = bytes_view(value);
        let mut value = value;
        if bytes_remaining(&value) < 8 {
            return Err(GtpError::Truncated);
        }
        let uplink_kbps = bytes_get_u32(&mut value);
        let downlink_kbps = bytes_get_u32(&mut value);
        assert(s.take(4) =~= s.subrange(0, 4));
        assert(s.skip(4).take(4) =~= s.subrange(4, 8));
        Ok(Ambr { uplink_kbps, downlink_kbps })
    }

    pub fn write(&self, dst: &mut BytesMut)
        requires
            bytes_mut_view(*old(dst)).len() + 8 <= isize::MAX,
        ensures
            bytes_mut_view(*final(dst)) == bytes_mut_view(*old(dst)) + self.wire(),
    {
        proof {
            lemma_be_roundtrip(self.uplink_kbps as nat, 4);
        }
        bytes_mut_put_u32(dst, self.uplink_kbps);
        bytes_mut_put_u32(dst, self.downlink_kbps);
        assert(bytes_mut_view(*dst) =~= bytes_mut_view(*old(dst)) + self.wire());
    }
}

/// AMBR round trip: every pair of rates reads back from its encoding.
pub proof fn lemma_ambr_roundtrip(a: Ambr)
    ensures
        Ambr::from_wire(a.wire()) == Ok::<Ambr, GtpError>(a),
{
    lemma_pow256_values();
    lemma_be_roundtrip_exact(a.uplink_kbps as nat, 4);
    lemma_be_roundtrip_exact(a.downlink_kbps as nat, 4);
    let w = a.wire();
    assert(w.subrange(0, 4) =~= be_bytes(a.uplink_kbps as nat, 4));
    assert(w.subrange(4, 8) =~= be_bytes(a.downlink_kbps as nat, 4));
}

} // verus!
