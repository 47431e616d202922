use space_backend::auth::bearer_token;
use space_backend::AppErrorKind;

#[test]
fn bearer_header_yields_its_token() {
    assert_eq!(bearer_token(Some("Bearer abc.def")).ok(), Some("abc.def".to_string()));
    assert_eq!(bearer_token(Some("Bearer ")).ok(), Some(String::new()));
}

#[test]
fn repeated_scheme_words_are_all_removed() {
    assert_eq!(bearer_token(Some("Bearer Bearer tok")).ok(), Some("tok".to_string()));
}

#[test]
fn missing_header_is_a_missing_credential() {
    let e = bearer_token(None).err().unwrap();
    assert_eq!(e.kind, AppErrorKind::MissingCredential);
    assert_eq!(e.to_display_string(), "缺少访问凭证:\nAuthorization header not found");
}

#[test]
fn other_schemes_are_malformed() {
    for header in ["Basic abc", "bearer abc", "Bearer", ""] {
        let e = bearer_token(Some(header)).err().unwrap();
        assert_eq!(e.kind, AppErrorKind::MalformedCredential);
        assert_eq!(
            e.to_display_string(),
            "不合法的凭证:\nAuthorization header must start with 'Bearer'"
        );
    }
}
