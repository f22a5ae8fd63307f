use service_core::codes::{FAILED_CODE, GENERAL_BUSINESS_CODE, INVALID_USERNAME_OR_PASSWORD_CODE,
    NOT_FOUND_CODE, SUCCESS_CODE, TOKEN_EXPIRED_CODE};
use service_core::envelope::ApiResponse;
use service_core::errors::{invalid_username_or_password, record_not_found, token_expired,
    BusinessError, CommonError};
use service_core::render::render;

#[test]
fn success_envelope_shape() {
    let env = ApiResponse::success(Some(7i64));
    assert_eq!(env.code, SUCCESS_CODE);
    assert_eq!(env.data, Some(7));
    assert!(env.message.is_none());
}

#[test]
fn new_envelope_keeps_fields() {
    let env: ApiResponse<i32> = ApiResponse::new(5, None, Some("m".to_string()));
    assert_eq!(env.code, 5);
    assert_eq!(env.data, None);
    assert_eq!(env.message, Some("m".to_string()));
}

#[test]
fn failed_envelope_uses_generic_code() {
    let env: ApiResponse<()> = ApiResponse::failed("boom".to_string());
    assert_eq!(env.code, FAILED_CODE);
    assert!(env.data.is_none());
    assert_eq!(env.message, Some("boom".to_string()));
}

#[test]
fn failed_with_code_keeps_code() {
    let env: ApiResponse<()> = ApiResponse::failed_with_code(10001, "bad".to_string());
    assert_eq!(env.code, 10001);
    assert!(env.data.is_none());
    assert_eq!(env.message, Some("bad".to_string()));
}

#[test]
fn failed_with_data_drops_the_payload() {
    let env = ApiResponse::failed_with_data(Some(3u8), "partial".to_string());
    assert_eq!(env.code, FAILED_CODE);
    assert_eq!(env.data, None, "no failure envelope may carry data");
    assert_eq!(env.message, Some("partial".to_string()));
}

#[test]
fn from_failure_erases_payload_type() {
    let failure: ApiResponse<()> = ApiResponse::failed("oops".to_string());
    let typed: ApiResponse<Vec<u8>> = ApiResponse::from_failure(failure);
    assert_eq!(typed.code, FAILED_CODE);
    assert!(typed.data.is_none());
    assert_eq!(typed.message, Some("oops".to_string()));
}

#[test]
fn registry_error_constructors() {
    let e = invalid_username_or_password();
    assert_eq!(e.code, INVALID_USERNAME_OR_PASSWORD_CODE);
    assert_eq!(e.message, "用户名或密码错误");
    let e = token_expired();
    assert_eq!(e.code, TOKEN_EXPIRED_CODE);
    assert_eq!(e.message, "token已过期");
    let e = record_not_found();
    assert_eq!(e.code, NOT_FOUND_CODE);
    assert_eq!(e.message, "记录不存在");
    let e = BusinessError::custom("anything odd".to_string());
    assert_eq!(e.code, GENERAL_BUSINESS_CODE);
    assert_eq!(e.message, "anything odd");
    let e = BusinessError::new(10001, "直接构造".to_string());
    assert_eq!(e.code, 10001);
}

#[test]
fn render_business_keeps_code_and_emits_nothing() {
    let err = CommonError::business(10001, "用户名或密码错误".to_string());
    let (env, record) = render(err);
    assert_eq!(env.code, 10001);
    assert_eq!(env.message, Some("用户名或密码错误".to_string()));
    assert!(env.data.is_none());
    assert!(record.is_none());
}

#[test]
fn render_system_redacts_and_emits_once() {
    let err = CommonError::system(
        "数据库错误".to_string(),
        Some("driver: connection reset by peer".to_string()),
    );
    let (env, record) = render(err);
    assert_eq!(env.code, FAILED_CODE);
    assert_eq!(env.message, Some("数据库错误".to_string()));
    assert!(env.data.is_none());
    let rec = record.expect("a system failure owes exactly one diagnostic record");
    assert_eq!(rec.message, "数据库错误");
    assert_eq!(rec.cause, Some("driver: connection reset by peer".to_string()));
    assert!(rec.trace.is_some());
    assert!(!env.message.unwrap().contains("connection reset"));
}

#[test]
fn render_is_idempotent_on_equal_inputs() {
    let mk = || CommonError::Sys {
        message: "序列化错误".to_string(),
        cause: Some("raw".to_string()),
        trace: Some("frame".to_string()),
    };
    let (a, _) = render(mk());
    let (b, _) = render(mk());
    assert_eq!(a.code, b.code);
    assert_eq!(a.message, b.message);
    assert!(a.data.is_none() && b.data.is_none());
}

#[test]
fn query_error_conversion_routes_to_system() {
    let err = CommonError::from_query_error(&diesel::result::Error::NotFound);
    match err {
        CommonError::Sys { message, cause, trace } => {
            assert_eq!(message, "数据库错误");
            let cause = cause.expect("driver text goes to the cause");
            assert!(!cause.is_empty());
            assert_ne!(cause, message);
            assert!(trace.is_some());
        },
        CommonError::Biz(_) => panic!("a driver failure must never become a business error"),
    }
}

#[test]
fn pool_error_conversion_routes_to_system() {
    let raw = diesel::r2d2::Error::ConnectionError(diesel::ConnectionError::BadConnection(
        "no route to host".to_string(),
    ));
    let err = CommonError::from_pool_error(&raw);
    match err {
        CommonError::Sys { message, cause, .. } => {
            assert_eq!(message, "数据库连接池错误");
            assert!(cause.unwrap().contains("no route to host"));
        },
        CommonError::Biz(_) => panic!("a pool failure must never become a business error"),
    }
}

#[test]
fn serialization_error_conversion_routes_to_system() {
    let raw = serde_json::from_str::<i32>("not a number").unwrap_err();
    let err = CommonError::from_serialization_error(&raw);
    match err {
        CommonError::Sys { message, cause, .. } => {
            assert_eq!(message, "序列化错误");
            assert!(!cause.unwrap().is_empty());
        },
        CommonError::Biz(_) => panic!("a serializer failure must never become a business error"),
    }
}

#[test]
fn framework_error_conversion_routes_to_system() {
    let raw = axum::http::Response::builder()
        .header("an invalid header name", "v")
        .body(())
        .unwrap_err();
    let err = CommonError::from_framework_error(&raw);
    match err {
        CommonError::Sys { message, cause, .. } => {
            assert_eq!(message, "框架错误");
            assert!(!cause.unwrap().is_empty());
        },
        CommonError::Biz(_) => panic!("a framework failure must never become a business error"),
    }
}
