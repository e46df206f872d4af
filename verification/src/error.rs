//! Errors the HTTP surface answers with.

use vstd::prelude::*;

verus! {

/// An error answered to an HTTP client.
pub enum AppError {
    /// No node can serve the request (HTTP 503).
    NoNodes(String),
    /// The request is malformed (HTTP 400).
    BadRequest(String),
    /// Nothing is stored under the requested id (HTTP 404).
    NotFound,
    /// Missing or invalid credentials (HTTP 401).
    Unauthorized,
    /// Too many requests in the current window (HTTP 429).
    RateLimited,
    /// The coordinator failed (HTTP 500).
    Internal(String),
}

} // verus!
