use vstd::prelude::*;

verus! {

/// The status of a submission or of a finished request.
#[derive(Debug, Clone, Copy, PartialEq, Eq, Structural)]
pub enum CResult {
    Uninitialized,
    Success,
    Error,
    Backoff,
}

/// The record in which the outcome of a request is written.
pub struct Response {
    pub result: CResult,
    pub length: usize,
    pub error_message: Option<String>,
}

impl Response {
    /// A record that no request has filled yet.
    pub fn new() -> (r: Response)
        ensures
            r.result == CResult::Uninitialized,
            r.length == 0,
            r.error_message.is_none(),
    {
        Response { result: CResult::Uninitialized, length: 0, error_message: None }
    }

    /// Whether the record holds the outcome of a finished request.
    pub open spec fn is_terminal(&self) -> bool {
        self.result == CResult::Success || self.result == CResult::Error
    }

    /// Records a success that moved `length` bytes.
    pub fn success(&mut self, length: usize)
        ensures
            final(self).result == CResult::Success,
            final(self).length == length,
            final(self).error_message.is_none(),
    {
        self.result = CResult::Success;
        self.length = length;
        self.error_message = None;
    }

    /// Records a failure described by `error_message`.
    pub fn from_error(&mut self, error_message: String)
        ensures
            final(self).result == CResult::Error,
            final(self).length == 0,
            final(self).error_message == Some(error_message),
    {
        self.result = CResult::Error;
        self.length = 0;
        self.error_message = Some(error_message);
    }
}

} // verus!
