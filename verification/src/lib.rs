//! An in-memory blog post service: CRUD operations over a table of posts,
//! with filtered, paginated listings, a static site configuration, and a
//! health check.

use vstd::prelude::*;

pub mod config;
mod ext;
pub mod service;
pub mod laws;
pub mod list;
pub mod post;
pub mod store;
pub mod text;

verus! {

/// The two ways a request can fail: the addressed post does not exist, or
/// the operation could not be carried out (for a create, the chosen id was
/// already taken).
#[derive(Clone, Copy, Debug, PartialEq, Eq, Structural)]
pub enum ServiceError {
    NotFound,
    InternalError,
}

impl ServiceError {
    /// The HTTP status code that this error maps to.
    pub fn status_code(&self) -> (c: u16)
        ensures
            c == (match self {
                ServiceError::NotFound => 404u16,
                ServiceError::InternalError => 500u16,
            }),
    {
        match self {
            ServiceError::NotFound => 404,
            ServiceError::InternalError => 500,
        }
    }
}

/// Liveness signal: always the same fixed answer, no side effects.
pub fn health_check() -> (r: &'static str)
    ensures
        r@ == "OK"@,
{
    "OK"
}

} // verus!
