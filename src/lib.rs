//! A minimal static file server's request handling: extracting the requested
//! path from a raw request, resolving it under a fixed root directory, and
//! building the response from the outcome of reading that file.
pub mod handler;
pub mod laws;
pub mod request;
pub mod resolve;
pub mod response;
