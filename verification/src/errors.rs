use vstd::prelude::*;

use crate::codes::{valid_business_code, GENERAL_BUSINESS_CODE, INVALID_USERNAME_OR_PASSWORD_CODE,
    NOT_FOUND_CODE, TOKEN_EXPIRED_CODE};
use crate::collaborators::{capture_trace, describe_framework_error, describe_pool_error,
    describe_query_error, describe_serialization_error};

verus! {

/// An expected, user-facing failure: safe to disclose verbatim on the
/// wire. Its code is drawn from the registry in `codes` and is never
/// zero and never the generic failure sentinel.
#[derive(Debug)]
pub struct BusinessError {
    pub code: i32,
    pub message: String,
}

impl BusinessError {
    /// The registry constraint on the carried code.
    pub open spec fn well_formed(&self) -> bool {
        valid_business_code(self.code)
    }

    /// Construct a business failure under a registry code. Passing the
    /// success or generic-failure sentinel is a programmer error, ruled
    /// out here rather than reported at run time.
    pub fn new(code: i32, message: String) -> (r: BusinessError)
        requires
            valid_business_code(code),
        ensures
            r.code == code,
            r.message == message,
            r.well_formed(),
    {
        BusinessError { code, message }
    }

    /// A business failure that no more specific registry entry fits.
    pub fn custom(message: String) -> (r: BusinessError)
        ensures
            r.code == GENERAL_BUSINESS_CODE,
            r.message == message,
            r.well_formed(),
    {
        BusinessError::new(GENERAL_BUSINESS_CODE, message)
    }
}

/// Bad credentials were presented.
pub fn invalid_username_or_password() -> (r: BusinessError)
    ensures
        r.code == INVALID_USERNAME_OR_PASSWORD_CODE,
        r.message@ == "用户名或密码错误"@,
        r.well_formed(),
{
    BusinessError::new(INVALID_USERNAME_OR_PASSWORD_CODE, "用户名或密码错误".to_owned())
}

/// An authentication token has expired.
pub fn token_expired() -> (r: BusinessError)
    ensures
        r.code == TOKEN_EXPIRED_CODE,
        r.message@ == "token已过期"@,
        r.well_formed(),
{
    BusinessError::new(TOKEN_EXPIRED_CODE, "token已过期".to_owned())
}

/// The requested record is absent from storage.
pub fn record_not_found() -> (r: BusinessError)
    ensures
        r.code == NOT_FOUND_CODE,
        r.message@ == "记录不存在"@,
        r.well_formed(),
{
    BusinessError::new(NOT_FOUND_CODE, "记录不存在".to_owned())
}

/// The taxonomy of failure: exactly two kinds. `Biz` is expected and
/// safe to show verbatim; `Sys` is unexpected, its wire message is a
/// redacted summary, and its cause and captured trace are for the
/// observability sink only, never for the wire. A value is built at
/// the failure site, moves up the call chain unchanged, and is
/// consumed exactly once by rendering.
#[derive(Debug)]
pub enum CommonError {
    Sys { message: String, cause: Option<String>, trace: Option<String> },
    Biz(BusinessError),
}

impl CommonError {
    pub open spec fn well_formed(&self) -> bool {
        self matches CommonError::Biz(b) ==> b.well_formed()
    }

    /// Construct an expected business failure.
    pub fn business(code: i32, message: String) -> (r: CommonError)
        requires
            valid_business_code(code),
        ensures
            r matches CommonError::Biz(b) && b.code == code && b.message == message,
            r.well_formed(),
    {
        CommonError::Biz(BusinessError::new(code, message))
    }

    /// Construct an unexpected system failure, capturing the diagnostic
    /// context here, at the failure site, so it is not lost by the time
    /// the value is rendered.
    pub fn system(message: String, cause: Option<String>) -> (r: CommonError)
        ensures
            r is Sys,
            r->Sys_message == message,
            r->Sys_cause == cause,
            r->Sys_trace is Some,
            r.well_formed(),
    {
        let trace = capture_trace();
        CommonError::Sys { message, cause, trace: Some(trace) }
    }

    /// A failed query from the persistence driver: always a system
    /// failure, and the driver's own text goes to the cause, never to
    /// the wire message.
    pub fn from_query_error(e: &diesel::result::Error) -> (r: CommonError)
        ensures
            r is Sys,
            r->Sys_message@ == "数据库错误"@,
            r->Sys_cause is Some,
            r->Sys_trace is Some,
            r.well_formed(),
    {
        let cause = describe_query_error(e);
        CommonError::system("数据库错误".to_owned(), Some(cause))
    }

    /// A failed acquisition or health check from the connection pool.
    pub fn from_pool_error(e: &diesel::r2d2::Error) -> (r: CommonError)
        ensures
            r is Sys,
            r->Sys_message@ == "数据库连接池错误"@,
            r->Sys_cause is Some,
            r->Sys_trace is Some,
            r.well_formed(),
    {
        let cause = describe_pool_error(e);
        CommonError::system("数据库连接池错误".to_owned(), Some(cause))
    }

    /// A failure inside the protocol framework.
    pub fn from_framework_error(e: &axum::http::Error) -> (r: CommonError)
        ensures
            r is Sys,
            r->Sys_message@ == "框架错误"@,
            r->Sys_cause is Some,
            r->Sys_trace is Some,
            r.well_formed(),
    {
        let cause = describe_framework_error(e);
        CommonError::system("框架错误".to_owned(), Some(cause))
    }

    /// A failed serialization of an outgoing envelope.
    pub fn from_serialization_error(e: &serde_json::Error) -> (r: CommonError)
        ensures
            r is Sys,
            r->Sys_message@ == "序列化错误"@,
            r->Sys_cause is Some,
            r->Sys_trace is Some,
            r.well_formed(),
    {
        let cause = describe_serialization_error(e);
        CommonError::system("序列化错误".to_owned(), Some(cause))
    }
}

} // verus!
