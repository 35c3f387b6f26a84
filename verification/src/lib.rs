//! Request-handling core of a sandboxed per-user web session served over a
//! capability RPC interface.
//!
//! The library holds the logic with real invariants: canonical-path
//! validation, the write-permission gate, content-type inference, and the
//! selection of the response variant for every GET, PUT and DELETE request.
//! Filesystem access and the RPC transport stay outside; each request handler
//! here returns a *plan* describing the single filesystem step (if any) that
//! the surrounding process must perform, and a completion function maps that
//! step's outcome to the structured response.

pub mod content_type;
pub mod error;
pub mod laws;
pub mod paths;
pub mod responder;
pub mod response;
pub mod session;
pub mod text;
pub mod view_info;
