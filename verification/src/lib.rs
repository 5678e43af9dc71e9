//! Error taxonomy of a Firebase Cloud Messaging client.
//!
//! The crate classifies the HTTP status code of a rejected request into a
//! closed set of server error categories and renders every error as a stable,
//! human-readable message. Both operations are pure and total.

pub mod lemmas;
pub mod result;
