//! Internal error types.

use vstd::prelude::*;
use vstd::string::StrSliceExecFns;
use vstd::string::StringExecFns;

verus! {

/// Marker for error types that surface as internal server errors rather than
/// as client-facing ones.
pub trait InternalError {

}

/// An error caused by incorrect use of an interface, carrying a message for
/// the developer.
#[derive(Debug)]
pub struct DeveloperError(pub String);

impl DeveloperError {
    /// Wrap a developer-facing message.
    pub fn new(message: String) -> (r: DeveloperError)
        ensures
            r.0 == message,
    {
        DeveloperError(message)
    }

    /// A diagnostic message for this error.
    pub fn message(&self) -> (r: String)
        ensures
            r@ == "Developer error: "@ + self.0@,
    {
        let mut s = String::from_str("Developer error: ");
        s.append(self.0.as_str());
        s
    }
}

impl InternalError for DeveloperError {

}

} // verus!
