//! The errors that decoding GTPv2 messages can end in.
use vstd::prelude::*;

verus! {

/// Why a buffer or a message could not be decoded.
#[derive(Debug)]
pub enum GtpError {
    /// The buffer ends before the value it announces.
    Truncated,
    /// A mandatory information element of this type is absent.
    MissingIe(u8),
    /// The header carries no TEID where one is required.
    MissingTeid,
    /// The header announces a GTP version this library does not speak.
    UnsupportedVersion(u8),
    /// The information element of this type holds no usable value.
    InvalidIeValue(u8),
    /// The header carries another TEID than the message type requires.
    InvalidTeid { expected: u32, actual: Option<u32> },
    /// A RAT type value outside the defined range.
    InvalidRatType(u8),
    /// A PDN type value outside the defined range.
    InvalidPdnType(u8),
    /// A selection mode value outside the defined range.
    InvalidSelectionMode(u8),
    /// The underlying stream failed or ended mid-frame.
    Io(std::io::Error),
}

} // verus!
