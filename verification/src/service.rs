//! What a method can fail with.

use vstd::prelude::*;
use vstd::string::StringExecFns;

verus! {

/// Failure of a remote method. It travels back to the caller as a response
/// with a non-zero error code; the connection stays open.
#[derive(Clone, Debug, PartialEq, Eq)]
pub enum MethodError {
    /// The service has no method of the requested name.
    UnknownMethod,
    /// No service of the requested name is registered.
    UnknownService,
    /// The handler ran and failed, with this message.
    HandlerFailed(String),
}

impl MethodError {
    /// The error in words, as it is sent to the caller.
    pub open spec fn spec_description(self) -> Seq<char> {
        match self {
            MethodError::UnknownMethod => "unknown method"@,
            MethodError::UnknownService => "unknown service"@,
            MethodError::HandlerFailed(message) => "handler failed: "@ + message@,
        }
    }

    /// The error in words, as it is sent to the caller. The text is never
    /// empty.
    pub fn description(&self) -> (text: String)
        ensures
            text@ == self.spec_description(),
            text@.len() > 0,
    {
        proof {
            reveal_strlit("unknown method");
            reveal_strlit("unknown service");
            reveal_strlit("handler failed: ");
        }
        match self {
            MethodError::UnknownMethod => String::from_str("unknown method"),
            MethodError::UnknownService => String::from_str("unknown service"),
            MethodError::HandlerFailed(message) => String::from_str("handler failed: ").concat(
                message.as_str(),
            ),
        }
    }
}

} // verus!
