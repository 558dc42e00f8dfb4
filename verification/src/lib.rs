//! GTPv2-C message model: information elements, headers, whole messages,
//! the typed request/response messages built on them, and the stream framing
//! codec, each with its wire encoding stated as a specification; and the
//! decisions of a load-test server and client that speak it, with the
//! counters such a test keeps.
pub mod buf;
pub mod wire;
pub mod error;
pub mod header;
pub mod ie;
pub mod message;
pub mod messages;
pub mod codec;
pub mod clock;
pub mod load_server;
pub mod load_client;
pub mod metrics;
pub mod closed_loop;
pub mod layout;

pub use error::GtpError;
pub use header::Header;
pub use ie::InformationElement;
pub use message::GtpMessage;
