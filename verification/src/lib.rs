//! Discovery of a mail account's server configuration from an address or a
//! domain, after Mozilla Thunderbird's autoconfig protocol: derive the
//! domain, build the fixed well-known configuration URLs, widen the
//! candidate set through DNS TXT discovery, validate what each candidate
//! returns, and resolve on the first structurally valid configuration,
//! aggregating every failure when no candidate yields one.
//!
//! The transports stay outside: callers fetch and look up, and hand the
//! engine plain outcomes.

pub mod addr;
pub mod candidates;
pub mod config;
pub mod discovery;
pub mod dns;
pub mod engine;
pub mod error;
pub mod http;
pub mod text;

pub use error::Error;
pub use error::ErrorKind;
