//! Password hashing with PBKDF2-HMAC-SHA256: a random salt, the derived key,
//! and both stored together in standard base64.
use crate::error::AppError;
use crate::kind::AppErrorKind;
use crate::result::{AppResult, WrapToAppResult};
use crate::service::CryptoUtilsTrait;
use crate::text::{decimal, push_decimal};
use base64::engine::general_purpose::STANDARD;
use base64::{DecodeError, Engine};
use ring::error::Unspecified;
use ring::pbkdf2;
use ring::rand::{SecureRandom, SystemRandom};
use std::num::NonZeroU32;
use vstd::prelude::*;
use vstd::string::StringSliceAdditionalSpecFns;

verus! {

/// The failure that ring reports, carried through as an opaque value.
#[verifier::external_type_specification]
#[verifier::external_body]
pub struct ExUnspecified(Unspecified);

/// The failure that base64 decoding reports, carried through as an opaque value.
#[verifier::external_type_specification]
#[verifier::external_body]
pub struct ExDecodeError(DecodeError);

/// The `len`-byte key that PBKDF2-HMAC-SHA256 derives from these inputs.
pub uninterp spec fn pbkdf2_hmac_sha256(
    iterations: u32,
    salt: Seq<u8>,
    secret: Seq<u8>,
    len: nat,
) -> Seq<u8>;

/// The standard, padded base64 text of `bytes`.
pub uninterp spec fn base64_standard(bytes: Seq<u8>) -> Seq<char>;

/// The bytes that standard, padded base64 text `text` stands for, if it is
/// valid.
pub uninterp spec fn base64_standard_decode(text: Seq<char>) -> Option<Seq<u8>>;

/// Whether `derived` is the key that PBKDF2-HMAC-SHA256 derives from these
/// inputs, as ring's `verify` judges it.
pub uninterp spec fn pbkdf2_hmac_sha256_verifies(
    iterations: u32,
    salt: Seq<u8>,
    secret: Seq<u8>,
    derived: Seq<u8>,
) -> bool;

/// Inputs longer than this would exceed what SHA-256 can digest.
pub open spec fn digest_input_limit() -> nat {
    0x1000_0000_0000_0000
}

/// Relies on `ring::rand::SystemRandom::fill`: it overwrites the buffer in
/// place, or reports that the system source failed.
#[verifier::external_body]
fn fill_random(dest: &mut Vec<u8>) -> (r: Result<(), Unspecified>)
    ensures
        final(dest)@.len() == old(dest)@.len(),
{
    SystemRandom::new().fill(dest.as_mut_slice())
}

/// Relies on `ring::pbkdf2::derive` with `PBKDF2_HMAC_SHA256`: it fills a
/// buffer of `len` bytes with the derived key. It panics only for outputs
/// over `u32::MAX` blocks or inputs too long to digest, which `requires`
/// leaves out.
#[verifier::external_body]
fn pbkdf2_derive(iterations: u32, salt: &[u8], secret: &[u8], len: usize) -> (r: Vec<u8>)
    requires
        iterations >= 1,
        len <= 32 * 0xffff_ffff,
        salt@.len() < digest_input_limit(),
        secret@.len() < digest_input_limit(),
    ensures
        r@.len() == len,
        r@ == pbkdf2_hmac_sha256(iterations, salt@, secret@, len as nat),
{
    let mut out = vec![0u8; len];
    pbkdf2::derive(
        pbkdf2::PBKDF2_HMAC_SHA256,
        NonZeroU32::new(iterations).unwrap(),
        salt,
        secret,
        &mut out,
    );
    out
}

/// Relies on `ring::pbkdf2::verify` with `PBKDF2_HMAC_SHA256`: it succeeds
/// when `previously_derived` matches the key derived from the other inputs,
/// and always fails on an empty one.
#[verifier::external_body]
fn pbkdf2_verify(
    iterations: u32,
    salt: &[u8],
    secret: &[u8],
    previously_derived: &[u8],
) -> (r: Result<(), Unspecified>)
    requires
        iterations >= 1,
        previously_derived@.len() <= 32 * 0xffff_ffff,
        salt@.len() < digest_input_limit(),
        secret@.len() < digest_input_limit(),
    ensures
        r is Ok <==> pbkdf2_hmac_sha256_verifies(iterations, salt@, secret@, previously_derived@),
        previously_derived@.len() == 0 ==> r is Err,
{
    pbkdf2::verify(
        pbkdf2::PBKDF2_HMAC_SHA256,
        NonZeroU32::new(iterations).unwrap(),
        salt,
        secret,
        previously_derived,
    )
}

/// Relies on base64's `STANDARD.encode`: the padded standard encoding. It
/// panics only when the encoded length overflows `usize`.
#[verifier::external_body]
fn base64_encode(bytes: &[u8]) -> (r: String)
    requires
        bytes@.len() <= usize::MAX / 2,
    ensures
        r@ == base64_standard(bytes@),
{
    STANDARD.encode(bytes)
}

/// Relies on base64's `STANDARD.decode`: the bytes of valid padded standard
/// base64, or an error.
#[verifier::external_body]
fn base64_decode(text: &str) -> (r: Result<Vec<u8>, DecodeError>)
    ensures
        r is Ok <==> base64_standard_decode(text@) is Some,
        r matches Ok(v) ==> base64_standard_decode(text@) == Some(v@),
{
    STANDARD.decode(text)
}

/// The context of the error for a decoded value of the wrong length.
pub open spec fn bad_length_text(salt_len: nat, credential_len: nat, decoded_len: nat) -> Seq<
    char,
> {
    "Invalid attempted_msg, salt_len: "@ + decimal(salt_len) + ", credential_len: "@ + decimal(
        credential_len,
    ) + ", decoded_msg_len: "@ + decimal(decoded_len)
}

/// Splits a stored value into its salt and its derived key; it must hold
/// exactly `salt_len + credential_len` bytes.
pub fn split_salt_hash(salt_and_hash: Vec<u8>, salt_len: usize, credential_len: usize) -> (r:
    AppResult<(Vec<u8>, Vec<u8>)>)
    requires
        salt_len + credential_len <= usize::MAX,
    ensures
        r is Ok <==> salt_and_hash@.len() == salt_len + credential_len,
        r matches Ok(parts) ==> parts.0@ == salt_and_hash@.subrange(0, salt_len as int)
            && parts.1@ == salt_and_hash@.subrange(salt_len as int, salt_and_hash@.len() as int),
        r matches Err(e) ==> e.kind == AppErrorKind::InternalError && e.chain() == seq![
            bad_length_text(
                salt_len as nat,
                credential_len as nat,
                salt_and_hash@.len() as nat,
            )],
{
    if salt_and_hash.len() != salt_len + credential_len {
        let mut text = String::from_str("Invalid attempted_msg, salt_len: ");
        push_decimal(&mut text, salt_len as u64);
        text.append(", credential_len: ");
        push_decimal(&mut text, credential_len as u64);
        text.append(", decoded_msg_len: ");
        push_decimal(&mut text, salt_and_hash.len() as u64);
        assert(text@ =~= bad_length_text(
            salt_len as nat,
            credential_len as nat,
            salt_and_hash@.len() as nat,
        ));
        return Err(AppError::new(text, AppErrorKind::InternalError));
    }
    let mut salt = salt_and_hash;
    let hash = salt.split_off(salt_len);
    Ok((salt, hash))
}

/// PBKDF2-HMAC-SHA256 with a fresh random salt per hash.
pub struct Pbkdf2CryptoUtils {
    iterations: u32,
    salt_len: usize,
    credential_len: usize,
}

impl Pbkdf2CryptoUtils {
    #[verifier::type_invariant]
    spec fn inv(self) -> bool {
        &&& self.iterations >= 1
        &&& 1 <= self.credential_len <= 1024
        &&& self.salt_len <= 1024
    }

    /// The iteration count.
    pub closed spec fn spec_iterations(&self) -> u32 {
        self.iterations
    }

    /// The number of salt bytes.
    pub closed spec fn spec_salt_len(&self) -> nat {
        self.salt_len as nat
    }

    /// The number of derived-key bytes.
    pub closed spec fn spec_credential_len(&self) -> nat {
        self.credential_len as nat
    }
}

impl Default for Pbkdf2CryptoUtils {
    fn default() -> (r: Self)
        ensures
            r.spec_iterations() == 10_000,
            r.spec_salt_len() == 16,
            r.spec_credential_len() == 32,
    {
        Pbkdf2CryptoUtils { iterations: 10_000, salt_len: 16, credential_len: 32 }
    }
}

impl CryptoUtilsTrait for Pbkdf2CryptoUtils {
    /// The base64 text of a fresh salt followed by the key derived from it.
    fn hash(&self, message: &str) -> (r: AppResult<String>)
        ensures
            r matches Ok(text) ==> exists|salt: Seq<u8>|
                salt.len() == self.spec_salt_len() && text@ == base64_standard(
                    salt + pbkdf2_hmac_sha256(
                        self.spec_iterations(),
                        salt,
                        message.spec_bytes(),
                        self.spec_credential_len(),
                    ),
                ),
            r matches Err(e) ==> e.kind == AppErrorKind::InternalError && e.chain().len() == 2
                && e.chain()[1] == "Failed to generate salt"@,
    {
        proof {
            use_type_invariant(self);
        }
        let mut salt: Vec<u8> = Vec::new();
        let mut i: usize = 0;
        while i < self.salt_len
            invariant
                i <= self.salt_len,
                salt@.len() == i,
            decreases self.salt_len - i,
        {
            salt.push(0);
            i = i + 1;
        }
        match fill_random(&mut salt).wrap("Failed to generate salt", AppErrorKind::InternalError) {
            Ok(()) => {},
            Err(e) => {
                return Err(e);
            },
        }
        let mut derived = pbkdf2_derive(
            self.iterations,
            salt.as_slice(),
            message.as_bytes(),
            self.credential_len,
        );
        let mut salt_and_hash = salt;
        salt_and_hash.append(&mut derived);
        Ok(base64_encode(salt_and_hash.as_slice()))
    }

    /// Succeeds exactly when `encoded_salt_hash` decodes to a salt and a key
    /// of the configured sizes and that key derives from `attempted_msg`.
    fn verify(&self, attempted_msg: &str, encoded_salt_hash: &str) -> (r: AppResult<()>)
        ensures
            r is Ok <==> ({
                let decoded = base64_standard_decode(encoded_salt_hash@);
                &&& decoded is Some
                &&& decoded->Some_0.len() == self.spec_salt_len() + self.spec_credential_len()
                &&& pbkdf2_hmac_sha256_verifies(
                    self.spec_iterations(),
                    decoded->Some_0.subrange(0, self.spec_salt_len() as int),
                    attempted_msg.spec_bytes(),
                    decoded->Some_0.subrange(
                        self.spec_salt_len() as int,
                        decoded->Some_0.len() as int,
                    ),
                )
            }),
            base64_standard_decode(encoded_salt_hash@) is None ==> (r matches Err(e) && e.kind
                == AppErrorKind::InternalError && e.chain().len() == 2 && e.chain()[1]
                == "Base64 decoding failed"@),
            base64_standard_decode(encoded_salt_hash@) matches Some(d) && d.len()
                != self.spec_salt_len() + self.spec_credential_len() ==> (r matches Err(e)
                && e.kind == AppErrorKind::InternalError),
            base64_standard_decode(encoded_salt_hash@) matches Some(d) && d.len()
                == self.spec_salt_len() + self.spec_credential_len() && r is Err ==> (r matches Err(e)
                && e.kind == AppErrorKind::MalformedCredential && e.chain().len() == 2
                && e.chain()[1] == "Incorrect password"@),
    {
        proof {
            use_type_invariant(self);
        }
        let salt_and_hash = match base64_decode(encoded_salt_hash).wrap(
            "Base64 decoding failed",
            AppErrorKind::InternalError,
        ) {
            Ok(v) => v,
            Err(e) => {
                return Err(e);
            },
        };
        let (salt, hash) = match split_salt_hash(salt_and_hash, self.salt_len, self.credential_len) {
            Ok(parts) => parts,
            Err(e) => {
                return Err(e);
            },
        };
        pbkdf2_verify(self.iterations, salt.as_slice(), attempted_msg.as_bytes(), hash.as_slice()).wrap(
            "Incorrect password",
            AppErrorKind::MalformedCredential,
        )
    }
}

} // verus!
