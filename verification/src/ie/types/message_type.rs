//! Message type codes.
use vstd::prelude::*;

verus! {

pub const ECHO_REQUEST: u8 = 1;
pub const ECHO_RESPONSE: u8 = 2;
pub const CREATE_SESSION_REQUEST: u8 = 32;
pub const CREATE_SESSION_RESPONSE: u8 = 33;
pub const DELETE_SESSION_REQUEST: u8 = 36;
pub const DELETE_SESSION_RESPONSE: u8 = 37;

} // verus!
