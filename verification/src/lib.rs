//! Adapter layer between an HTTP-serving framework and an OAuth2
//! authorization-server protocol engine.
//!
//! The crate translates raw HTTP request data into the engine's normalized
//! request contract, translates the engine's abstract response actions back
//! into concrete HTTP responses, and collapses the many failure domains
//! (header construction, body and query extraction, asynchronous dispatch,
//! protocol logic) into one reportable error type.

pub mod error;
pub mod params;
pub mod request;
pub mod response;
pub mod dispatch;
