//! A small self-hosted paste service: the verified core.
//!
//! The library holds the decisions of the service: bearer-token checks, the
//! identifier scheme, the steps that stream an upload into a file and read a
//! paste back, and the mapping of failures to HTTP replies. The program around
//! it performs the I/O that each step asks for.

pub mod config;
pub mod errors;
pub mod ident;
pub mod auth;
pub mod upload;
pub mod store;
pub mod reply;
