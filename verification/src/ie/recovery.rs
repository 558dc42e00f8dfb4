//! The Recovery element: the sender's restart counter.
use vstd::prelude::*;
use tokio_util::bytes::{Bytes, BytesMut};
use crate::buf::{bytes_view, bytes_mut_view, bytes_remaining, bytes_get_u8, bytes_mut_put_u8};
use crate::error::GtpError;

verus! {

#[derive(Debug, Clone, Copy, PartialEq, Eq, Structural)]
pub struct Recovery {
    pub restart_counter: u8,
}

impl Recovery {
    /// The recovery that `parse` reads from an element value: its first byte.
    pub open spec fn from_wire(s: Seq<u8>) -> Result<Recovery, GtpError> {
        if s.len() < 1 {
            Err(GtpError::Truncated)
        } else {
            Ok(Recovery { restart_counter: s[0] })
        }
    }

    /// The bytes `write` appends: the restart counter.
    pub open spec fn wire(self) -> Seq<u8> {
        seq![self.restart_counter]
    }

    pub fn parse(value: Bytes) -> (r: Result<Self, GtpError>)
        ensures
            r == Recovery::from_wire(bytes_view(value)),
    {
        let mut value = value;
        if bytes_remaining(&value) < 1 {
            return Err(GtpError::Truncated);
        }
        Ok(Recovery { restart_counter: bytes_get_u8(&mut value) })
    }

    pub fn write(&self, dst: &mut BytesMut)
        requires
            bytes_mut_view(*old(dst)).len() + 1 <= isize::MAX,
        ensures
            bytes_mut_view(*final(dst)) == bytes_mut_view(*old(dst)) + self.wire(),
    {
        bytes_mut_put_u8(dst, self.restart_counter);
        assert(bytes_mut_view(*dst) =~= bytes_mut_view(*old(dst)) + self.wire());
    }
}

/// Recovery round trip: every restart counter reads back from its encoding.
pub proof fn lemma_recovery_roundtrip(r: Recovery)
    ensures
        Recovery::from_wire(r.wire()) == Ok::<Recovery, GtpError>(r),
{
}

} // verus!
