//! The provider's API: its addresses, its requests and how its replies are
//! judged.

pub mod errors;
pub mod json;
pub mod url_helpers;
pub mod transport;
pub mod authentication;
pub mod parking_sessions;
pub mod downloads;
