//! A small HTTP service, verified: four endpoints (a fixed greeting, a body
//! echo, a JSON status payload, and a name-to-JSON echo) modelled as pure
//! functions from request data to response data.
//!
//! Bodies and paths are UTF-8 text carried as bytes. The route table, the
//! handlers and the JSON framing of the response bodies live here with full
//! contracts; binding a listener and feeding requests in is left to the
//! program around the library.

pub mod handlers;
pub mod json;
pub mod models;
pub mod routes;
