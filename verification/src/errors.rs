//! The ways request construction can fail before anything is sent.

use vstd::prelude::*;
use vstd::string::StringExecFns;

verus! {

/// A request that cannot be turned into an outbound call: the URL is missing,
/// the structured URL has no host, or the method is not one of the supported
/// verbs. Each failure is reported to the caller as a status-0 response whose
/// body carries the message below.
#[derive(Debug, Clone, Copy, PartialEq, Eq, Structural)]
pub enum BuildError {
    MissingUrl,
    MissingHost,
    UnsupportedMethod,
}

/// The message text for each failure.
pub open spec fn message_spec(e: BuildError) -> Seq<char> {
    match e {
        BuildError::MissingUrl => "URL is required"@,
        BuildError::MissingHost => "Host is required"@,
        BuildError::UnsupportedMethod => "Unsupported HTTP method"@,
    }
}

impl BuildError {
    /// The human-readable description of this failure.
    pub fn message(&self) -> (r: String)
        ensures
            r@ == message_spec(*self),
    {
        match self {
            BuildError::MissingUrl => String::from_str("URL is required"),
            BuildError::MissingHost => String::from_str("Host is required"),
            BuildError::UnsupportedMethod => String::from_str("Unsupported HTTP method"),
        }
    }
}

} // verus!
