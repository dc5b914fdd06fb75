//! The uniform response envelope every repository operation returns.
//!
//! A response carries either a payload (a data-level success) or an engine
//! error message, never both; transport-level failures (the connection lock,
//! initialization) are reported outside the envelope.

use vstd::prelude::*;

verus! {

/// Success/error wrapper for a repository result: exactly one of `data` and
/// `error` is present, according to `success`.
#[derive(Debug)]
pub struct DbResponse<T> {
    pub success: bool,
    pub data: Option<T>,
    pub error: Option<String>,
}

impl<T> DbResponse<T> {
    /// Exactly one of the two payload fields is present, as `success` says.
    pub open spec fn wf(&self) -> bool {
        &&& self.success <==> self.data is Some
        &&& self.success <==> self.error is None
    }

    /// Wraps a payload as a successful response.
    pub fn success(data: T) -> (r: Self)
        ensures
            r.success,
            r.data == Some(data),
            r.error is None,
            r.wf(),
    {
        Self { success: true, data: Some(data), error: None }
    }

    /// Wraps an engine error message as a failed response.
    pub fn error(error: String) -> (r: Self)
        ensures
            !r.success,
            r.data is None,
            r.error == Some(error),
            r.wf(),
    {
        Self { success: false, data: None, error: Some(error) }
    }
}

} // verus!
