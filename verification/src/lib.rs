//! An in-memory store of to-do records and the request handlers that expose it
//! as a small CRUD service.
//!
//! The store (`store`) maps identifiers (`ident`) to records (`model`). A
//! request, given as a method, a path and the payload read from its body
//! (`wire`), is bound to an operation (`routes`) and answered by a handler
//! (`handlers`) with a status and a body. `laws` states what holds of store
//! and answers in general. Reading requests from the network, and writing
//! responses to it, is left to the caller, which also puts the store behind a
//! lock where requests are served in parallel.
//!
//! `division` holds a division that reports a zero divisor as an error.

pub mod division;
pub mod handlers;
pub mod ident;
pub mod laws;
pub mod model;
pub mod routes;
pub mod store;
pub mod wire;
