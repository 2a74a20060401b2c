//! A small verified CRUD backend library for a single "student" record type.
//!
//! The library holds the logic of the service: the record type and its
//! validity rules, an in-memory table keyed by `student_id` with a uniqueness
//! invariant, the four repository/handler operations, the uniform response
//! envelope, the JSON wire format, the router, and the fallback middleware
//! that guarantees every response carries a JSON body. The surrounding
//! process (listening socket, transport, shared state) lives outside the
//! library and hands it plain values.

pub mod app_response;
pub mod default_handler;
pub mod interfaces;
pub mod json;
pub mod laws;
pub mod service;
pub mod store;
pub mod student;

use vstd::prelude::*;

verus! {

/// HTTP status for a successful request.
pub const STATUS_OK: u16 = 200;

/// HTTP status for a create that inserted a new record.
pub const STATUS_CREATED: u16 = 201;

/// HTTP status for a request rejected by validation.
pub const STATUS_BAD_REQUEST: u16 = 400;

/// HTTP status for a lookup or delete on an absent key.
pub const STATUS_NOT_FOUND: u16 = 404;

/// HTTP status for an unhandled server-side failure.
pub const STATUS_INTERNAL_SERVER_ERROR: u16 = 500;

} // verus!
