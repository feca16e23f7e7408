//! A small HTTP/1.1 server core: request parsing, routing and response
//! encoding, with the socket and filesystem work left to the caller.
pub mod error;
pub mod laws;
pub mod models;
pub mod parser;
pub mod response;
pub mod scan;
pub mod text;
