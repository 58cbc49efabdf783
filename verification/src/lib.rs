//! Access-pattern hints for the host's memory-advisory facility.
//!
//! The crate holds what can be decided without touching memory: which hint a
//! caller chose and the integer the host knows it by, and how the status that
//! the host reports becomes a `Result`. Handing an address to the host is left
//! to the caller of these functions.

pub mod advise;
pub mod error;
pub mod pattern;

pub use advise::{advise_unsupported, outcome};
pub use error::AdviseError;
pub use pattern::AccessPattern;
