//! A client core for a long-poll replication protocol ("shape streaming").
//!
//! The library holds the continuation-state machine of the protocol: the
//! catch-up / tailing phase with its continuation tokens, the construction of
//! each request URL from that state, and the response-driven transitions and
//! accumulation steps that a fetch loop performs.  The HTTP transport itself
//! is an external collaborator: a caller issues the GET for the URL that
//! [`stream::ShapeStream::get_url`] builds and hands the status, headers and
//! body back as a plain [`response::Response`] value.

pub mod laws;
pub mod response;
pub mod stream;
