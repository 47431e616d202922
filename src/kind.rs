//! The closed set of error kinds, each with its fixed message, HTTP status
//! and application code.
use http::StatusCode;
use vstd::prelude::*;

verus! {

/// The HTTP status type, carried through as an opaque value.
#[verifier::external_type_specification]
#[verifier::external_body]
pub struct ExStatusCode(StatusCode);

/// The error that `StatusCode::from_u16` reports for a number out of range.
#[verifier::external_type_specification]
#[verifier::external_body]
pub struct ExInvalidStatusCode(http::status::InvalidStatusCode);

/// The status code that `StatusCode::from_u16` builds from a valid number.
pub uninterp spec fn status_of(code: u16) -> StatusCode;

/// Relies on `http::StatusCode::from_u16`: it accepts exactly the numbers
/// 100 to 999 and then holds that number.
pub assume_specification[ StatusCode::from_u16 ](src: u16) -> (r: Result<
    StatusCode,
    http::status::InvalidStatusCode,
>)
    ensures
        (100 <= src <= 999) <==> r is Ok,
        r matches Ok(s) ==> s == status_of(src),
;

/// Every way a request can fail, as reported to the caller.
#[derive(Clone, Copy, Debug, PartialEq, Eq, Structural)]
pub enum AppErrorKind {
    RequestParamInvalid,
    RequestParamMissing,
    MissingCredential,
    MalformedCredential,
    InvalidCredential,
    PermissionDenied,
    ResourceNotFound,
    ResourceConflict,
    UsernameConflict,
    InternalError,
    DBOperationError,
    CacheOperationError,
    ConfigurationError,
    NotImplemented,
}

impl AppErrorKind {
    /// The fixed user-facing text of the kind.
    pub open spec fn spec_message(self) -> Seq<char> {
        match self {
            AppErrorKind::RequestParamInvalid => "请求参数无效"@,
            AppErrorKind::RequestParamMissing => "缺少必须的请求参数"@,
            AppErrorKind::MissingCredential => "缺少访问凭证"@,
            AppErrorKind::MalformedCredential => "不合法的凭证"@,
            AppErrorKind::InvalidCredential => "已失效的凭证"@,
            AppErrorKind::PermissionDenied => "访问权限不足"@,
            AppErrorKind::ResourceNotFound => "请求资源不存在"@,
            AppErrorKind::ResourceConflict => "请求资源不唯一"@,
            AppErrorKind::UsernameConflict => "用户名已存在"@,
            AppErrorKind::InternalError => "服务端内部错误"@,
            AppErrorKind::DBOperationError => "数据库操作错误"@,
            AppErrorKind::CacheOperationError => "缓存操作错误"@,
            AppErrorKind::ConfigurationError => "配置参数错误"@,
            AppErrorKind::NotImplemented => "未实现的功能"@,
        }
    }

    /// The HTTP status number of the kind.
    pub open spec fn spec_http_code(self) -> u16 {
        match self {
            AppErrorKind::RequestParamInvalid => 400,
            AppErrorKind::RequestParamMissing => 400,
            AppErrorKind::MissingCredential => 401,
            AppErrorKind::MalformedCredential => 401,
            AppErrorKind::InvalidCredential => 401,
            AppErrorKind::PermissionDenied => 403,
            AppErrorKind::ResourceNotFound => 404,
            AppErrorKind::ResourceConflict => 409,
            AppErrorKind::UsernameConflict => 409,
            AppErrorKind::InternalError => 500,
            AppErrorKind::DBOperationError => 500,
            AppErrorKind::CacheOperationError => 500,
            AppErrorKind::ConfigurationError => 500,
            AppErrorKind::NotImplemented => 501,
        }
    }

    /// The signed application code of the kind.
    pub open spec fn spec_app_code(self) -> int {
        match self {
            AppErrorKind::RequestParamInvalid => -40000,
            AppErrorKind::RequestParamMissing => -40001,
            AppErrorKind::MissingCredential => -40100,
            AppErrorKind::MalformedCredential => -40101,
            AppErrorKind::InvalidCredential => -40102,
            AppErrorKind::PermissionDenied => -40300,
            AppErrorKind::ResourceNotFound => -40400,
            AppErrorKind::ResourceConflict => -40900,
            AppErrorKind::UsernameConflict => -40901,
            AppErrorKind::InternalError => -50000,
            AppErrorKind::DBOperationError => -50001,
            AppErrorKind::CacheOperationError => -50002,
            AppErrorKind::ConfigurationError => -50003,
            AppErrorKind::NotImplemented => -50100,
        }
    }

    pub fn message(&self) -> (r: &'static str)
        ensures
            r@ == self.spec_message(),
    {
        match self {
            AppErrorKind::RequestParamInvalid => "请求参数无效",
            AppErrorKind::RequestParamMissing => "缺少必须的请求参数",
            AppErrorKind::MissingCredential => "缺少访问凭证",
            AppErrorKind::MalformedCredential => "不合法的凭证",
            AppErrorKind::InvalidCredential => "已失效的凭证",
            AppErrorKind::PermissionDenied => "访问权限不足",
            AppErrorKind::ResourceNotFound => "请求资源不存在",
            AppErrorKind::ResourceConflict => "请求资源不唯一",
            AppErrorKind::UsernameConflict => "用户名已存在",
            AppErrorKind::InternalError => "服务端内部错误",
            AppErrorKind::DBOperationError => "数据库操作错误",
            AppErrorKind::CacheOperationError => "缓存操作错误",
            AppErrorKind::ConfigurationError => "配置参数错误",
            AppErrorKind::NotImplemented => "未实现的功能",
        }
    }

    /// The HTTP status number of the kind, as a plain integer.
    pub fn status_number(&self) -> (r: u16)
        ensures
            r == self.spec_http_code(),
            100 <= r <= 999,
    {
        match self {
            AppErrorKind::RequestParamInvalid => 400,
            AppErrorKind::RequestParamMissing => 400,
            AppErrorKind::MissingCredential => 401,
            AppErrorKind::MalformedCredential => 401,
            AppErrorKind::InvalidCredential => 401,
            AppErrorKind::PermissionDenied => 403,
            AppErrorKind::ResourceNotFound => 404,
            AppErrorKind::ResourceConflict => 409,
            AppErrorKind::UsernameConflict => 409,
            AppErrorKind::InternalError => 500,
            AppErrorKind::DBOperationError => 500,
            AppErrorKind::CacheOperationError => 500,
            AppErrorKind::ConfigurationError => 500,
            AppErrorKind::NotImplemented => 501,
        }
    }

    pub fn http_code(&self) -> (r: StatusCode)
        ensures
            r == status_of(self.spec_http_code()),
    {
        let code = self.status_number();
        match StatusCode::from_u16(code) {
            Ok(status) => status,
            Err(_) => unreached(),
        }
    }

    pub fn app_code(&self) -> (r: i32)
        ensures
            r == self.spec_app_code(),
    {
        match self {
            AppErrorKind::RequestParamInvalid => -40000,
            AppErrorKind::RequestParamMissing => -40001,
            AppErrorKind::MissingCredential => -40100,
            AppErrorKind::MalformedCredential => -40101,
            AppErrorKind::InvalidCredential => -40102,
            AppErrorKind::PermissionDenied => -40300,
            AppErrorKind::ResourceNotFound => -40400,
            AppErrorKind::ResourceConflict => -40900,
            AppErrorKind::UsernameConflict => -40901,
            AppErrorKind::InternalError => -50000,
            AppErrorKind::DBOperationError => -50001,
            AppErrorKind::CacheOperationError => -50002,
            AppErrorKind::ConfigurationError => -50003,
            AppErrorKind::NotImplemented => -50100,
        }
    }
}

impl Default for AppErrorKind {
    fn default() -> (r: Self)
        ensures
            r == AppErrorKind::InternalError,
    {
        AppErrorKind::InternalError
    }
}

} // verus!
