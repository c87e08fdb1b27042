//! Typed model of the contacts resource of a transactional-email HTTP API.
//!
//! The crate describes each operation on `/audiences/:id/contacts` as a plain
//! [`request::Request`] value (method, path and body fields) and turns decoded
//! replies into results. Sending the request is left to the caller.

pub mod body;
pub mod eco;
pub mod request;
pub mod service;
pub mod types;

pub use service::ContactsService;
