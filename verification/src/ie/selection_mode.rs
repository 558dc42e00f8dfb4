//! The Selection Mode element: how the access point name was chosen.
use vstd::prelude::*;
use tokio_util::bytes::{Bytes, BytesMut};
use vstd::std_specs::convert::TryFromSpecImpl;
use crate::buf::{bytes_view, bytes_mut_view, bytes_remaining, bytes_get_u8, bytes_mut_put_u8};
use crate::error::GtpError;

verus! {

#[derive(Debug, Clone, Copy, PartialEq, Eq, Structural)]
pub enum SelectionMode {
    MsOrNetworkProvidedSubscriptionVerified,
    MsProvidedSubscriptionNotVerified,
    NetworkProvidedSubscriptionNotVerified,
}

impl SelectionMode {
    /// The code of each mode: 0 to 2.
    pub open spec fn code(self) -> u8 {
        match self {
            SelectionMode::MsOrNetworkProvidedSubscriptionVerified => 0,
            SelectionMode::MsProvidedSubscriptionNotVerified => 1,
            SelectionMode::NetworkProvidedSubscriptionNotVerified => 2,
        }
    }

    /// The mode a code denotes; other codes are refused with themselves.
    pub open spec fn from_code(raw: u8) -> Result<SelectionMode, GtpError> {
        if raw == 0 {
            Ok(SelectionMode::MsOrNetworkProvidedSubscriptionVerified)
        } else if raw == 1 {
            Ok(SelectionMode::MsProvidedSubscriptionNotVerified)
        } else if raw == 2 {
            Ok(SelectionMode::NetworkProvidedSubscriptionNotVerified)
        } else {
            Err(GtpError::InvalidSelectionMode(raw))
        }
    }

    /// The mode that `parse` reads: the low two bits of the first byte.
    pub open spec fn from_wire(s: Seq<u8>) -> Result<SelectionMode, GtpError> {
        if s.len() < 1 {
            Err(GtpError::Truncated)
        } else {
            SelectionMode::from_code(s[0] & 0x03)
        }
    }

    /// The bytes `write` appends: the code.
    pub open spec fn wire(self) -> Seq<u8> {
        seq![self.code()]
    }

    /// The code of this mode.
    pub fn to_code(&self) -> (r: u8)
        ensures
            r == self.code(),
    {
        match self {
            SelectionMode::MsOrNetworkProvidedSubscriptionVerified => 0,
            SelectionMode::MsProvidedSubscriptionNotVerified => 1,
            SelectionMode::NetworkProvidedSubscriptionNotVerified => 2,
        }
    }

    pub fn parse(value: Bytes) -> (r: Result<Self, GtpError>)
        ensures
            r == SelectionMode::from_wire(bytes_view(value)),
    {
        let mut value = value;
        if bytes_remaining(&value) < 1 {
            return Err(GtpError::Truncated);
        }
        let raw = bytes_get_u8(&mut value) & 0b0000_0011;
        SelectionMode::try_from(raw)
    }

    pub fn write(&self, dst: &mut BytesMut)
        requires
            bytes_mut_view(*old(dst)).len() + 1 <= isize::MAX,
        ensures
            bytes_mut_view(*final(dst)) == bytes_mut_view(*old(dst)) + self.wire(),
    {
        bytes_mut_put_u8(dst, self.to_code());
        assert(bytes_mut_view(*dst) =~= bytes_mut_view(*old(dst)) + self.wire());
    }
}

impl TryFrom<u8> for SelectionMode {
    type Error = GtpError;

    fn try_from(raw: u8) -> (r: Result<Self, Self::Error>) {
        match raw {
            0 => Ok(SelectionMode::MsOrNetworkProvidedSubscriptionVerified),
            1 => Ok(SelectionMode::MsProvidedSubscriptionNotVerified),
            2 => Ok(SelectionMode::NetworkProvidedSubscriptionNotVerified),
            other => Err(GtpError::InvalidSelectionMode(other)),
        }
    }
}

impl TryFromSpecImpl<u8> for SelectionMode {
    open spec fn obeys_try_from_spec() -> bool {
        true
    }

    open spec fn try_from_spec(raw: u8) -> Result<Self, Self::Error> {
        SelectionMode::from_code(raw)
    }
}

/// Selection mode round trip: every mode reads back from its encoding.
pub proof fn lemma_selection_mode_roundtrip(m: SelectionMode)
    ensures
        SelectionMode::from_wire(m.wire()) == Ok::<SelectionMode, GtpError>(m),
{
    let c = m.code();
    assert(c & 0x03 == c) by (bit_vector)
        requires
            c <= 2;
}

} // verus!
