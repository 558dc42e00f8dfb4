//! The RAT Type element: the radio access technology a session runs over.
use vstd::prelude::*;
use tokio_util::bytes::{Bytes, BytesMut};
use vstd::std_specs::convert::TryFromSpecImpl;
use crate::buf::{bytes_view, bytes_mut_view, bytes_remaining, bytes_get_u8, bytes_mut_put_u8};
use crate::error::GtpError;

verus! {

#[derive(Debug, Clone, Copy, PartialEq, Eq, Structural)]
pub enum RatType {
    Utran,
    Geran,
    Wlan,
    Gan,
    HspaEvolution,
    Eutran,
    Virtual,
    Nbiot,
    Ltem,
    Nr,
}

impl RatType {
    /// The code of each RAT type: 1 to 10.
    pub open spec fn code(self) -> u8 {
        match self {
            RatType::Utran => 1,
            RatType::Geran => 2,
            RatType::Wlan => 3,
            RatType::Gan => 4,
            RatType::HspaEvolution => 5,
            RatType::Eutran => 6,
            RatType::Virtual => 7,
            RatType::Nbiot => 8,
            RatType::Ltem => 9,
            RatType::Nr => 10,
        }
    }

    /// The RAT type a code denotes; other codes are refused with themselves.
    pub open spec fn from_code(raw: u8) -> Result<RatType, GtpError> {
        if raw == 1 {
            Ok(RatType::Utran)
        } else if raw == 2 {
            Ok(RatType::Geran)
        } else if raw == 3 {
            Ok(RatType::Wlan)
        } else if raw == 4 {
            Ok(RatType::Gan)
        } else if raw == 5 {
            Ok(RatType::HspaEvolution)
        } else if raw == 6 {
            Ok(RatType::Eutran)
        } else if raw == 7 {
            Ok(RatType::Virtual)
        } else if raw == 8 {
            Ok(RatType::Nbiot)
        } else if raw == 9 {
            Ok(RatType::Ltem)
        } else if raw == 10 {
            Ok(RatType::Nr)
        } else {
            Err(GtpError::InvalidRatType(raw))
        }
    }

    /// The type that `parse` reads: the first byte.
    pub open spec fn from_wire(s: Seq<u8>) -> Result<RatType, GtpError> {
        if s.len() < 1 {
            Err(GtpError::Truncated)
        } else {
            RatType::from_code(s[0])
        }
    }

    /// The bytes `write` appends: the code.
    pub open spec fn wire(self) -> Seq<u8> {
        seq![self.code()]
    }

    /// The code of this RAT type.
    pub fn to_code(&self) -> (r: u8)
        ensures
            r == self.code(),
    {
        match self {
            RatType::Utran => 1,
            RatType::Geran => 2,
            RatType::Wlan => 3,
            RatType::Gan => 4,
            RatType::HspaEvolution => 5,
            RatType::Eutran => 6,
            RatType::Virtual => 7,
            RatType::Nbiot => 8,
            RatType::Ltem => 9,
            RatType::Nr => 10,
        }
    }

    pub fn parse(value: Bytes) -> (r: Result<Self, GtpError>)
        ensures
            r == RatType::from_wire(bytes_view(value)),
    {
        let mut value = value;
        if bytes_remaining(&value) < 1 {
            return Err(GtpError::Truncated);
        }
        let raw = bytes_get_u8(&mut value);
        RatType::try_from(raw)
    }

    pub fn write(&self, dst: &mut BytesMut)
        requires
            bytes_mut_view(*old(dst)).len() + 1 <= isize::MAX,
        ensures
            bytes_mut_view(*final(dst)) == bytes_mut_view(*old(dst)) + self.wire(),
    {
        bytes_mut_put_u8(dst, self.to_code());
        assert(bytes_mut_view(*dst) =~= bytes_mut_view(*old(dst)) + self.wire());
    }
}

impl TryFrom<u8> for RatType {
    type Error = GtpError;

    fn try_from(raw: u8) -> (r: Result<Self, Self::Error>) {
        match raw {
            1 => Ok(RatType::Utran),
            2 => Ok(RatType::Geran),
            3 => Ok(RatType::Wlan),
            4 => Ok(RatType::Gan),
            5 => Ok(RatType::HspaEvolution),
            6 => Ok(RatType::Eutran),
            7 => Ok(RatType::Virtual),
            8 => Ok(RatType::Nbiot),
            9 => Ok(RatType::Ltem),
            10 => Ok(RatType::Nr),
            other => Err(GtpError::InvalidRatType(other)),
        }
    }
}

impl TryFromSpecImpl<u8> for RatType {
    open spec fn obeys_try_from_spec() -> bool {
        true
    }

    open spec fn try_from_spec(raw: u8) -> Result<Self, Self::Error> {
        RatType::from_code(raw)
    }
}

/// RAT type round trip: every type reads back from its encoding.
pub proof fn lemma_rat_type_roundtrip(t: RatType)
    ensures
        RatType::from_wire(t.wire()) == Ok::<RatType, GtpError>(t),
{
}

} // verus!
