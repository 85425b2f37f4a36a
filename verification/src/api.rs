//! Result types the diagnostic services hand back to front-ends.

use vstd::prelude::*;

verus! {

/// Text payload of a service outcome, shown on the console or UI.
#[derive(Debug)]
pub struct UdsSericeResponseDetail {
    /// Human-readable outcome, beginning with SUCCESS or FAIL.
    pub console_output: String,
}

/// Outcome of one diagnostic service invocation.
#[derive(Debug)]
pub enum UdsServiceResponse {
    /// The service ran; the detail carries its text.
    Success(UdsSericeResponseDetail),
    /// The service failed; the detail says why.
    Fail(UdsSericeResponseDetail),
}

impl UdsServiceResponse {
    /// Wraps a success text.
    pub fn success(text: String) -> (r: Self)
        ensures
            r matches UdsServiceResponse::Success(d) && d.console_output@ == text@,
    {
        UdsServiceResponse::Success(UdsSericeResponseDetail { console_output: text })
    }

    /// Wraps a failure text.
    pub fn fail(text: String) -> (r: Self)
        ensures
            r matches UdsServiceResponse::Fail(d) && d.console_output@ == text@,
    {
        UdsServiceResponse::Fail(UdsSericeResponseDetail { console_output: text })
    }
}

} // verus!
