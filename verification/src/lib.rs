//! A minimal health-check service library: a liveness endpoint that always
//! succeeds, and a database-connectivity endpoint that maps the outcome of an
//! administrative ping to an HTTP status and body.
//!
//! The library holds the pure decisions of the service: configuration
//! resolution, routing, and the request/response mappings. The surrounding
//! binary performs the actual network I/O and hands the library plain values.

pub mod config;
pub mod service;
