//! Search engine and job lifecycle for vanity addresses: keypairs whose
//! base58 address begins or ends with a chosen pattern.

pub mod client;
pub mod clock;
pub mod job;
pub mod keys;
pub mod laws;
pub mod matcher;
pub mod model;
pub mod request;
pub mod search;
pub mod signal;
pub mod store;
pub mod supervisor;
pub mod text;

pub use crate::keys::VanityResult;
pub use crate::matcher::VanityPosition;
pub use crate::request::VanityRequest;
pub use crate::search::generate_with_timeout;
