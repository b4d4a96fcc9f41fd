use vstd::prelude::*;

verus! {

/// An error that can be reported to a client.
pub trait Error {
    /// The response body that reports this error.
    fn to_error(&self) -> crate::api::Error;
}

} // verus!
