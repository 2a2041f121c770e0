//! Translation of firmware numeric status codes into typed results.
//!
//! Every firmware call returns a numeric status. Zero reports success; a
//! reserved "not ready" code must stay distinguishable from both success and
//! general failure; every other non-success code is an opaque failure carried
//! verbatim for diagnostics.

use vstd::prelude::*;

verus! {

/// The code with which a firmware call reports success.
pub const STATUS_SUCCESS: u64 = 0;

/// The reserved code with which a firmware call reports that it is not ready
/// yet: the high (error) bit together with the value 6.
pub const STATUS_NOT_READY: u64 = 0x8000_0000_0000_0006;

/// Numeric status code returned by a firmware call.
#[derive(Clone, Copy, Debug, PartialEq, Eq, Structural)]
pub struct Status(pub u64);

/// Typed failure derived from a non-success status code. The original code
/// is always recoverable from the failure (see [`StatusError::code`]).
#[derive(Clone, Copy, Debug, PartialEq, Eq, Structural)]
pub enum StatusError {
    /// The reserved "not ready" code, kept apart from general failure so that
    /// callers that poll for readiness can tell the two conditions apart.
    NotReady,
    /// Any other non-success code, carried verbatim.
    Failure(u64),
}

impl StatusError {
    /// The status code this failure was derived from.
    pub open spec fn spec_code(self) -> u64 {
        match self {
            StatusError::NotReady => STATUS_NOT_READY,
            StatusError::Failure(code) => code,
        }
    }

    /// The original firmware status code, for diagnostics.
    pub fn code(&self) -> (code: u64)
        ensures
            code == self.spec_code(),
    {
        match self {
            StatusError::NotReady => STATUS_NOT_READY,
            StatusError::Failure(code) => *code,
        }
    }
}

impl Status {
    /// Whether this code reports success.
    pub open spec fn spec_is_success(self) -> bool {
        self.0 == STATUS_SUCCESS
    }

    /// Whether this code is the reserved "not ready" code.
    pub open spec fn spec_is_not_ready(self) -> bool {
        self.0 == STATUS_NOT_READY
    }

    /// The typed failure a non-success code maps to.
    pub open spec fn spec_error(self) -> StatusError {
        if self.0 == STATUS_NOT_READY {
            StatusError::NotReady
        } else {
            StatusError::Failure(self.0)
        }
    }

    /// Whether this code reports success.
    pub fn is_success(&self) -> (success: bool)
        ensures
            success == self.spec_is_success(),
    {
        self.0 == STATUS_SUCCESS
    }

    /// Whether this code is the reserved "not ready" code.
    pub fn is_not_ready(&self) -> (not_ready: bool)
        ensures
            not_ready == self.spec_is_not_ready(),
    {
        self.0 == STATUS_NOT_READY
    }

    /// The typed failure this non-success code maps to. On the success code
    /// it returns the failure for code zero; callers branch on
    /// [`Status::is_success`] first.
    pub fn to_error(&self) -> (err: StatusError)
        ensures
            err == self.spec_error(),
    {
        if self.0 == STATUS_NOT_READY {
            StatusError::NotReady
        } else {
            StatusError::Failure(self.0)
        }
    }

    /// Map this code to a typed result: success becomes `Ok`, every other
    /// code becomes the typed failure that carries it.
    pub fn to_result(&self) -> (result: Result<(), StatusError>)
        ensures
            result is Ok <==> self.spec_is_success(),
            !self.spec_is_success() ==> result == Result::<(), StatusError>::Err(
                self.spec_error(),
            ),
            !self.spec_is_success() ==> result->Err_0.spec_code() == self.0,
    {
        if self.is_success() {
            Ok(())
        } else {
            Err(self.to_error())
        }
    }
}

} // verus!
