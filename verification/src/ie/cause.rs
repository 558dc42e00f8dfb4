//! The Cause element: the outcome a response reports.
use vstd::prelude::*;
use tokio_util::bytes::{Bytes, BytesMut};
use crate::buf::{bytes_view, bytes_mut_view, bytes_remaining, bytes_get_u8, bytes_mut_put_u8};
use crate::error::GtpError;

verus! {

#[derive(Debug, Clone, Copy, PartialEq, Eq, Structural)]
pub struct Cause {
    pub value: u8,
}

/// The cause value that reports a request as accepted.
pub const REQUEST_ACCEPTED: u8 = 16;

impl Cause {
    /// The cause that `parse` reads from an element value: its first byte.
    pub open spec fn from_wire(s: Seq<u8>) -> Result<Cause, GtpError> {
        if s.len() < 1 {
            Err(GtpError::Truncated)
        } else {
            Ok(Cause { value: s[0] })
        }
    }

    /// The bytes `write` appends: the cause value and a spare octet.
    pub open spec fn wire(self) -> Seq<u8> {
        seq![self.value, 0u8]
    }

    pub fn parse(value: Bytes) -> (r: Result<Self, GtpError>)
        ensures
            r == Cause::from_wire(bytes_view(value)),
    {
        let mut value = value;
        if bytes_remaining(&value) < 1 {
            return Err(GtpError::Truncated);
        }
        let cause_value = bytes_get_u8(&mut value);
        Ok(Cause { value: cause_value })
    }

    pub fn write(&self, dst: &mut BytesMut)
        requires
            bytes_mut_view(*old(dst)).len() + 2 <= isize::MAX,
        ensures
            bytes_mut_view(*final(dst)) == bytes_mut_view(*old(dst)) + self.wire(),
    {
        bytes_mut_put_u8(dst, self.value);
        bytes_mut_put_u8(dst, 0);
        assert(bytes_mut_view(*dst) =~= bytes_mut_view(*old(dst)) + self.wire());
    }

    /// Whether the cause reports the request as accepted.
    pub fn is_accepted(&self) -> (r: bool)
        ensures
            r == (self.value == REQUEST_ACCEPTED),
    {
        self.value == REQUEST_ACCEPTED
    }
}

/// Cause round trip: every cause reads back from its encoding.
pub proof fn lemma_cause_roundtrip(c: Cause)
    ensures
        Cause::from_wire(c.wire()) == Ok::<Cause, GtpError>(c),
{
}

} // verus!
