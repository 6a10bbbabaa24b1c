//! The error taxonomy: a missing credential, a rejected command line, or
//! a failed HTTP exchange. Every error is fatal to the run that meets it.

use vstd::prelude::*;

verus! {

/// One of the four required command-line flags.
#[derive(Clone, Copy, PartialEq, Eq, Structural, Debug)]
pub enum Flag {
    Prompt,
    Model,
    Temperature,
    MaxTokens,
}

/// Why the command line was rejected.
#[derive(Clone, Copy, PartialEq, Eq, Structural, Debug)]
pub enum ArgError {
    /// A token stood where a flag name was expected.
    UnknownFlag,
    /// The flag was the last token, with no value after it.
    MissingValue(Flag),
    /// The flag was given more than once.
    RepeatedFlag(Flag),
    /// The flag's value does not parse as the flag's type.
    BadValue(Flag),
    /// The flag never appeared.
    MissingFlag(Flag),
}

/// Why the one HTTP exchange failed.
#[derive(Debug)]
pub enum Failure {
    /// The response status was outside the 2xx range.
    Status(u16),
    /// The response body was not well-formed JSON (or not UTF-8).
    Decode(serde_json::Error),
    /// The transport failed before a response arrived; the text describes
    /// the underlying cause. Built by the embedding program, never by the
    /// library itself.
    Transport(String),
}

/// Every way a run can fail.
#[derive(Debug)]
pub enum ClientError {
    /// The credential environment variable was unset.
    MissingCredential,
    /// The command line could not be parsed.
    InvalidArguments(ArgError),
    /// The HTTP exchange failed.
    RequestFailed(Failure),
}

} // verus!
