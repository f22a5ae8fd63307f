use vstd::prelude::*;

use crate::codes::{FAILED_CODE, SUCCESS_CODE};

verus! {

/// The uniform success/failure wire wrapper: every operation's outcome
/// reaches the caller in this one shape, so one parsing path suffices.
#[derive(Debug)]
pub struct ApiResponse<T> {
    pub code: i32,
    pub data: Option<T>,
    pub message: Option<String>,
}

impl<T> ApiResponse<T> {
    /// The envelope invariant: success carries data and no message;
    /// any failure code carries a message and no data.
    pub open spec fn well_formed(&self) -> bool {
        if self.code == SUCCESS_CODE {
            self.data is Some && self.message is None
        } else {
            self.data is None && self.message is Some
        }
    }

    pub fn new(code: i32, data: Option<T>, message: Option<String>) -> (r: Self)
        ensures
            r.code == code,
            r.data == data,
            r.message == message,
    {
        ApiResponse { code, data, message }
    }

    /// A success envelope; well formed whenever a payload is present.
    pub fn success(data: Option<T>) -> (r: Self)
        ensures
            r.code == SUCCESS_CODE,
            r.data == data,
            r.message is None,
            data is Some ==> r.well_formed(),
    {
        ApiResponse::new(SUCCESS_CODE, data, None)
    }

    /// A failure envelope under a caller-chosen code.
    pub fn failed_with_code(code: i32, message: String) -> (r: Self)
        ensures
            r.code == code,
            r.data is None,
            r.message == Some(message),
            code != SUCCESS_CODE ==> r.well_formed(),
    {
        ApiResponse::new(code, None, Some(message))
    }

    /// A failure envelope under the generic failure code.
    pub fn failed(message: String) -> (r: Self)
        ensures
            r.code == FAILED_CODE,
            r.data is None,
            r.message == Some(message),
            r.well_formed(),
    {
        ApiResponse::new(FAILED_CODE, None, Some(message))
    }

    /// A failure envelope built where the caller still holds a partial
    /// payload. The payload is dropped: the envelope invariant forbids
    /// data on every failure path, so the wire sees code and message
    /// only.
    pub fn failed_with_data(_data: Option<T>, message: String) -> (r: Self)
        ensures
            r.code == FAILED_CODE,
            r.data is None,
            r.message == Some(message),
            r.well_formed(),
    {
        ApiResponse::new(FAILED_CODE, None, Some(message))
    }

    /// A failure envelope forgets its payload type: one rendered
    /// failure serves every operation's return type.
    pub fn from_failure(env: ApiResponse<()>) -> (r: Self)
        requires
            env.data is None,
        ensures
            r.code == env.code,
            r.data is None,
            r.message == env.message,
            env.well_formed() ==> r.well_formed(),
    {
        ApiResponse { code: env.code, data: None, message: env.message }
    }
}

} // verus!
