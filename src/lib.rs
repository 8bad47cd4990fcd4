//! A small key-value record store behind a service of five operations, a
//! layer that wraps the service, and the HTTP-facing request and reply
//! shaping around them.
pub mod client;
pub mod gateway;
pub mod laws;
pub mod middleware;
pub mod service;
pub mod store;
