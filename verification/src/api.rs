//! What the service reports to a client when a request fails.

use vstd::prelude::*;
use crate::business_logic::ExecutionError;

pub mod traits;

verus! {

/// The status with which every failed request is answered.
pub const BAD_REQUEST: u16 = 400;

/// The body of an error response: a status and a text for the reader.
#[derive(Debug)]
pub struct Error {
    pub code: u16,
    pub error: String,
}

impl Error {
    /// The error that answers a request whose body could not be read;
    /// `detail` says what was wrong with it.
    pub fn bad_request(detail: String) -> (res: Error)
        ensures
            res.code == BAD_REQUEST,
            res.error@ == detail@,
    {
        Error { code: BAD_REQUEST, error: detail }
    }

    /// The status of the response.
    pub fn status_code(&self) -> (res: u16)
        ensures
            res == self.code,
    {
        self.code
    }
}

impl traits::Error for ExecutionError {
    /// A failed stage is the client's fault: the status is `BAD_REQUEST` and
    /// the text is the error's message.
    fn to_error(&self) -> (res: Error)
        ensures
            res.code == BAD_REQUEST,
            res.error@ == "No rule found"@,
    {
        Error { code: BAD_REQUEST, error: self.message() }
    }
}

} // verus!
