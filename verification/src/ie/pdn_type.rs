//! The PDN Type element: which kind of packet data network a session uses.
use vstd::prelude::*;
use tokio_util::bytes::{Bytes, BytesMut};
use vstd::std_specs::convert::TryFromSpecImpl;
use crate::buf::{bytes_view, bytes_mut_view, bytes_remaining, bytes_get_u8, bytes_mut_put_u8};
use crate::error::GtpError;

verus! {

#[derive(Debug, Clone, Copy, PartialEq, Eq, Structural)]
pub enum PdnType {
    Ipv4,
    Ipv6,
    Ipv4v6,
    NonIp,
}

impl PdnType {
    /// The code of each PDN type: 1 to 4.
    pub open spec fn code(self) -> u8 {
        match self {
            PdnType::Ipv4 => 1,
            PdnType::Ipv6 => 2,
            PdnType::Ipv4v6 => 3,
            PdnType::NonIp => 4,
        }
    }

    /// The PDN type a code denotes; other codes are refused with themselves.
    pub open spec fn from_code(raw: u8) -> Result<PdnType, GtpError> {
        if raw == 1 {
            Ok(PdnType::Ipv4)
        } else if raw == 2 {
            Ok(PdnType::Ipv6)
        } else if raw == 3 {
            Ok(PdnType::Ipv4v6)
        } else if raw == 4 {
            Ok(PdnType::NonIp)
        } else {
            Err(GtpError::InvalidPdnType(raw))
        }
    }

    /// The type that `parse` reads: the low three bits of the first byte.
    pub open spec fn from_wire(s: Seq<u8>) -> Result<PdnType, GtpError> {
        if s.len() < 1 {
            Err(GtpError::Truncated)
        } else {
            PdnType::from_code(s[0] & 0x07)
        }
    }

    /// The bytes `write` appends: the code.
    pub open spec fn wire(self) -> Seq<u8> {
        seq![self.code()]
    }

    /// The code of this PDN type.
    pub fn to_code(&self) -> (r: u8)
        ensures
            r == self.code(),
    {
        match self {
            PdnType::Ipv4 => 1,
            PdnType::Ipv6 => 2,
            PdnType::Ipv4v6 => 3,
            PdnType::NonIp => 4,
        }
    }

    pub fn parse(value: Bytes) -> (r: Result<Self, GtpError>)
        ensures
            r == PdnType::from_wire(bytes_view(value)),
    {
        let mut value = value;
        if bytes_remaining(&value) < 1 {
            return Err(GtpError::Truncated);
        }
        let raw = bytes_get_u8(&mut value) & 0b0000_0111;
        PdnType::try_from(raw)
    }

    pub fn write(&self, dst: &mut BytesMut)
        requires
            bytes_mut_view(*old(dst)).len() + 1 <= isize::MAX,
        ensures
            bytes_mut_view(*final(dst)) == bytes_mut_view(*old(dst)) + self.wire(),
    {
        bytes_mut_put_u8(dst, self.to_code());
        assert(bytes_mut_view(*dst) =~= bytes_mut_view(*old(dst)) + self.wire());
    }
}

impl TryFrom<u8> for PdnType {
    type Error = GtpError;

    fn try_from(raw: u8) -> (r: Result<Self, Self::Error>) {
        match raw {
            1 => Ok(PdnType::Ipv4),
            2 => Ok(PdnType::Ipv6),
            3 => Ok(PdnType::Ipv4v6),
            4 => Ok(PdnType::NonIp),
            other => Err(GtpError::InvalidPdnType(other)),
        }
    }
}

impl TryFromSpecImpl<u8> for PdnType {
    open spec fn obeys_try_from_spec() -> bool {
        true
    }

    open spec fn try_from_spec(raw: u8) -> Result<Self, Self::Error> {
        PdnType::from_code(raw)
    }
}

/// PDN type round trip: every type reads back from its encoding.
pub proof fn lemma_pdn_type_roundtrip(t: PdnType)
    ensures
        PdnType::from_wire(t.wire()) == Ok::<PdnType, GtpError>(t),
{
    let c = t.code();
    assert(c & 0x07 == c) by (bit_vector)
        requires
            1 <= c <= 4;
}

} // verus!
