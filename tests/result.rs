use space_backend::{AppError, AppErrorKind, AppResult, ContextExt, IntoAppResult, WrapToAppResult};

#[test]
fn test_result_into_app_result() {
    let result = Err(std::io::Error::new(
        std::io::ErrorKind::NotFound,
        "文件未找到",
    ));
    let app_result: AppResult<()> = result.with_err_kind(AppErrorKind::InternalError);
    assert!(app_result.is_err());
    assert_eq!(app_result.err().unwrap().message(), "服务端内部错误");
}

#[test]
fn test_option_into_app_result() {
    let option: Option<()> = None;
    let app_result: AppResult<()> = option.with_err_kind(AppErrorKind::ResourceNotFound);
    assert!(app_result.is_err());
    assert_eq!(app_result.err().unwrap().message(), "请求资源不存在");
}

#[test]
fn test_context() {
    let result: AppResult<()> = Err(AppError::new("测试错误", AppErrorKind::InternalError));
    let context_result = result.context("详细信息");
    assert!(context_result.is_err());
    assert_eq!(
        format!("Err({})", context_result.err().unwrap().to_debug_string()),
        "Err(服务端内部错误:\n详细信息\n\nCaused by:\n    测试错误)"
    );
}

#[test]
fn test_result_wrap_to_app_result() {
    let result = Err(std::io::Error::new(
        std::io::ErrorKind::NotFound,
        "文件未找到",
    ));
    let app_result: AppResult<()> = result.wrap("详细信息", AppErrorKind::ResourceNotFound);
    assert!(app_result.is_err());
    assert_eq!(
        format!("Err({})", app_result.err().unwrap().to_debug_string()),
        "Err(请求资源不存在:\n详细信息\n\nCaused by:\n    文件未找到)"
    );
}

#[test]
fn test_option_wrap_to_app_result() {
    let option: Option<()> = None;
    let app_result: AppResult<()> = option.wrap("详细信息", AppErrorKind::ResourceNotFound);
    assert!(app_result.is_err());
    assert_eq!(
        format!("Err({})", app_result.err().unwrap().to_debug_string()),
        "Err(请求资源不存在:\n详细信息\n\nCaused by:\n    Unexpected None: Expected a value but found None.)"
    );
}

#[test]
fn successes_pass_through_unchanged() {
    let ok: Result<u32, std::io::Error> = Ok(5);
    assert_eq!(ok.with_err_kind(AppErrorKind::InternalError).ok(), Some(5));
    assert_eq!(Some(6u32).with_err_kind(AppErrorKind::InternalError).ok(), Some(6));
    let ok: AppResult<u32> = Ok(7);
    assert_eq!(ok.context("unused").ok(), Some(7));
    let ok: AppResult<u32> = Ok(8);
    assert_eq!(ok.with_context(|| "unused").ok(), Some(8));
    assert_eq!(Some(9u32).wrap("unused", AppErrorKind::InternalError).ok(), Some(9));
    assert_eq!(
        Some(10u32)
            .wrap_with(|| "unused", AppErrorKind::InternalError)
            .ok(),
        Some(10)
    );
}

#[test]
fn wrap_with_adds_lazy_context_and_kind() {
    let none: Option<u8> = None;
    let error = none
        .wrap_with(|| format!("user {} missing", 3), AppErrorKind::ResourceNotFound)
        .err()
        .unwrap();
    assert_eq!(error.kind, AppErrorKind::ResourceNotFound);
    assert_eq!(error.to_display_string(), "请求资源不存在:\nuser 3 missing");
}

#[test]
fn result_with_context_keeps_kind() {
    let result: AppResult<()> = Err(AppError::new("inner", AppErrorKind::PermissionDenied));
    let error = result.with_context(|| "outer").err().unwrap();
    assert_eq!(error.kind, AppErrorKind::PermissionDenied);
    assert_eq!(
        error.to_debug_string(),
        "访问权限不足:\nouter\n\nCaused by:\n    inner"
    );
}
