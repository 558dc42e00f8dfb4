//! The numeric codes of message types and information element types.
pub mod message_type;
pub mod ie_type;
