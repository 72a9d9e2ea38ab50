//! The HTTP edge of a small shop API.
//!
//! - `routes`: a table that binds (method, path) pairs to handlers, with
//!   nesting under path prefixes; no pair is ever bound twice.
//! - `declared`: the routes this service declares, and how their full paths
//!   come from the prefixes they are nested under.
//! - `service`: the declared route tree, built, and what it answers to a
//!   request.
//! - `middleware`: the deadline of a request, and the rule that turns every
//!   failure of the middleware chain into a response.
//! - `response`, `method`, `text`: the values the others speak of.
//! - `laws`: what holds of the answers.

pub mod declared;
pub mod laws;
pub mod method;
pub mod middleware;
pub mod response;
pub mod routes;
pub mod service;
pub mod text;
