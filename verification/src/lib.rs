//! A minimal client library for a remote text-completion API.
//!
//! The library covers the compute side of one request/response round trip:
//! resolving a credential, parsing command-line flags into a
//! [`args::RequestDescriptor`], rendering the JSON request body, and
//! interpreting the HTTP response. The surrounding process (reading the
//! environment, the network call itself, printing) is left to the binary
//! that embeds the library.

pub mod args;
pub mod client;
pub mod errors;
pub mod jsonio;
pub mod jsontext;
pub mod numbers;
