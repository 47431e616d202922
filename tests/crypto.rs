use space_backend::crypto::{split_salt_hash, Pbkdf2CryptoUtils};
use space_backend::service::CryptoUtilsTrait;
use space_backend::AppErrorKind;

#[test]
fn test_hash_and_verify() {
    let crypto_utils = Pbkdf2CryptoUtils::default();
    let message = "test_message";

    let hash = crypto_utils.hash(message);
    assert!(hash.is_ok(), "Hashing should succeed.");
    let hash = hash.unwrap();

    let verify = crypto_utils.verify(message, &hash);
    assert!(
        verify.is_ok(),
        "Verification should succeed with correct password."
    );
}

#[test]
fn test_hash_and_verify_with_wrong_message() {
    let crypto_utils = Pbkdf2CryptoUtils::default();

    let message = "test_message";
    let wrong_message = "wrong_message";

    let hash = crypto_utils.hash(message);
    assert!(hash.is_ok(), "Hashing should succeed.");
    let hash = hash.unwrap();

    let verify = crypto_utils.verify(wrong_message, &hash);
    assert!(
        verify.is_err(),
        "Verification should fail with incorrect password."
    );
}

#[test]
fn test_hash_and_verify_with_wrong_hash() {
    let crypto_utils = Pbkdf2CryptoUtils::default();
    let message = "test_message";

    let hash = crypto_utils.hash(message);
    assert!(hash.is_ok(), "Hashing should succeed.");
    let hash = hash.unwrap();

    let verify = crypto_utils.verify(message, &hash[1..]);
    assert!(
        verify.is_err(),
        "Verification should fail with incorrect hash."
    );
}

#[test]
fn hash_is_base64_of_salt_and_key() {
    let crypto_utils = Pbkdf2CryptoUtils::default();
    let first = crypto_utils.hash("pw").unwrap();
    let second = crypto_utils.hash("pw").unwrap();
    // 48 bytes in padded base64
    assert_eq!(first.len(), 64);
    assert_ne!(first, second, "each hash draws its own salt");
    assert_ne!(first, "pw");
}

#[test]
fn wrong_password_is_a_malformed_credential() {
    let crypto_utils = Pbkdf2CryptoUtils::default();
    let hash = crypto_utils.hash("right").unwrap();
    let e = crypto_utils.verify("wrong", &hash).err().unwrap();
    assert_eq!(e.kind, AppErrorKind::MalformedCredential);
    assert_eq!(
        e.to_debug_string(),
        "不合法的凭证:\nIncorrect password\n\nCaused by:\n    ring::error::Unspecified"
    );
}

#[test]
fn undecodable_hash_is_an_internal_error() {
    let crypto_utils = Pbkdf2CryptoUtils::default();
    let e = crypto_utils.verify("pw", "not base64!").err().unwrap();
    assert_eq!(e.kind, AppErrorKind::InternalError);
    assert_eq!(e.to_display_string(), "服务端内部错误:\nBase64 decoding failed");
}

#[test]
fn short_hash_reports_the_lengths() {
    let crypto_utils = Pbkdf2CryptoUtils::default();
    // "AAAA" decodes to three bytes
    let e = crypto_utils.verify("pw", "AAAA").err().unwrap();
    assert_eq!(e.kind, AppErrorKind::InternalError);
    assert_eq!(
        e.to_display_string(),
        "服务端内部错误:\nInvalid attempted_msg, salt_len: 16, credential_len: 32, decoded_msg_len: 3"
    );
}

#[test]
fn split_takes_salt_then_key() {
    let (salt, hash) = split_salt_hash(vec![1, 2, 3, 4, 5], 2, 3).ok().unwrap();
    assert_eq!(salt, vec![1, 2]);
    assert_eq!(hash, vec![3, 4, 5]);
    let e = split_salt_hash(vec![1, 2, 3], 2, 3).err().unwrap();
    assert_eq!(
        e.to_display_string(),
        "服务端内部错误:\nInvalid attempted_msg, salt_len: 2, credential_len: 3, decoded_msg_len: 3"
    );
}
