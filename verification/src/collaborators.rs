//! The failure types of the outside collaborators (persistence driver,
//! pool, protocol framework, serializer), declared so that the core's
//! conversion constructors can take them, and the calls that read them.
//! Their descriptions are diagnostic text for observability only and
//! nothing is claimed of their content.

use vstd::prelude::*;

verus! {

#[verifier::external_type_specification]
#[verifier::external_body]
pub struct ExQueryError(diesel::result::Error);

#[verifier::external_type_specification]
#[verifier::external_body]
pub struct ExPoolError(diesel::r2d2::Error);

#[verifier::external_type_specification]
#[verifier::external_body]
pub struct ExFrameworkError(axum::http::Error);

#[verifier::external_type_specification]
#[verifier::external_body]
pub struct ExSerializationError(serde_json::Error);

/// Relies on `std::backtrace::Backtrace::capture`: records the call
/// stack at the point of failure. The text depends on the machine,
/// the build and the environment, so nothing is claimed of it.
#[verifier::external_body]
pub(crate) fn capture_trace() -> String {
    format!("{}", std::backtrace::Backtrace::capture())
}

/// Relies on `Display for diesel::result::Error`: the driver's own
/// description of a failed query.
#[verifier::external_body]
pub(crate) fn describe_query_error(e: &diesel::result::Error) -> String {
    format!("{}", e)
}

/// Relies on `Display for diesel::r2d2::Error`: the pool's own
/// description of a failed connection acquisition or health check.
#[verifier::external_body]
pub(crate) fn describe_pool_error(e: &diesel::r2d2::Error) -> String {
    format!("{}", e)
}

/// Relies on `Display for axum::http::Error`: the protocol framework's
/// own description of its failure.
#[verifier::external_body]
pub(crate) fn describe_framework_error(e: &axum::http::Error) -> String {
    format!("{}", e)
}

/// Relies on `Display for serde_json::Error`: the serializer's own
/// description of a failed envelope serialization.
#[verifier::external_body]
pub(crate) fn describe_serialization_error(e: &serde_json::Error) -> String {
    format!("{}", e)
}

/// Relies on `String::from_utf8`: it succeeds exactly on valid UTF-8,
/// and the string it returns contains those very bytes, so its view is
/// the sequence of characters they encode.
#[verifier::external_body]
pub(crate) fn string_from_utf8(bytes: Vec<u8>) -> (r: Option<String>)
    ensures
        r is Some <==> vstd::utf8::valid_utf8(bytes@),
        r matches Some(s) ==> vstd::utf8::encode_utf8(s@) == bytes@,
{
    String::from_utf8(bytes).ok()
}

} // verus!
