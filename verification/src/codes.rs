use vstd::prelude::*;

verus! {

/// Envelope code that marks a successful response.
pub const SUCCESS_CODE: i32 = 0;

/// Envelope code that every rendered system failure carries; business
/// errors must never use it, or the "expected failure" signal is lost.
pub const FAILED_CODE: i32 = -1;

/// Registry of business error codes. A business failure that no more
/// specific registry entry fits.
pub const GENERAL_BUSINESS_CODE: i32 = 10000;

/// Bad credentials were presented.
pub const INVALID_USERNAME_OR_PASSWORD_CODE: i32 = 10001;

/// An authentication token has expired.
pub const TOKEN_EXPIRED_CODE: i32 = 10002;

/// A requested record is absent from storage: an expected business
/// outcome, never a system failure.
pub const NOT_FOUND_CODE: i32 = 10404;

/// A business code may never be zero (success) and never the generic
/// failure sentinel reserved for system errors.
pub open spec fn valid_business_code(code: i32) -> bool {
    code != 0 && code != FAILED_CODE
}

} // verus!
