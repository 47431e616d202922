//! The decisions around login tokens: what a decoding failure means, when a
//! token's version is stale, and what a new token claims.
use crate::error::AppError;
use crate::kind::AppErrorKind;
use crate::result::AppResult;
use crate::service::Claims;
use crate::text::{decimal, push_decimal};
use vstd::prelude::*;

verus! {

/// Why a token could not be decoded, as far as the service cares.
#[derive(Clone, Copy, Debug, PartialEq, Eq, Structural)]
pub enum TokenFailure {
    /// The token was issued for a group that is not allowed here.
    InvalidAudience,
    /// The token has expired.
    ExpiredSignature,
    /// The token is not valid yet.
    ImmatureSignature,
    /// Anything else: a bad signature, bad encoding, missing claims.
    Other,
}

/// The error kind a decoding failure is reported as.
pub open spec fn spec_failure_kind(f: TokenFailure) -> AppErrorKind {
    match f {
        TokenFailure::InvalidAudience => AppErrorKind::PermissionDenied,
        TokenFailure::ExpiredSignature => AppErrorKind::InvalidCredential,
        TokenFailure::ImmatureSignature => AppErrorKind::InvalidCredential,
        TokenFailure::Other => AppErrorKind::MalformedCredential,
    }
}

pub fn failure_kind(f: TokenFailure) -> (r: AppErrorKind)
    ensures
        r == spec_failure_kind(f),
{
    match f {
        TokenFailure::InvalidAudience => AppErrorKind::PermissionDenied,
        TokenFailure::ExpiredSignature => AppErrorKind::InvalidCredential,
        TokenFailure::ImmatureSignature => AppErrorKind::InvalidCredential,
        TokenFailure::Other => AppErrorKind::MalformedCredential,
    }
}

/// A token is current unless a newer version has been recorded for its user.
pub fn check_token_version(recorded: Option<String>, claimed: &String) -> (r: AppResult<()>)
    ensures
        r is Ok <==> (recorded is None || recorded->Some_0@ == claimed@),
        r matches Err(e) ==> e.kind == AppErrorKind::InvalidCredential && e.chain() == seq![
            "Token version mismatch"@],
{
    match recorded {
        Some(version) => {
            if version != *claimed {
                return Err(AppError::new("Token version mismatch", AppErrorKind::InvalidCredential));
            }
            Ok(())
        },
        None => Ok(()),
    }
}

/// The decimal notation of a signed number.
pub open spec fn signed_decimal(n: int) -> Seq<char> {
    if n < 0 {
        "-"@ + decimal((-n) as nat)
    } else {
        decimal(n as nat)
    }
}

/// Appends `n` in decimal to `out`.
fn push_signed_decimal(out: &mut String, n: i32)
    ensures
        final(out)@ == old(out)@ + signed_decimal(n as int),
{
    if n < 0 {
        proof {
            reveal_strlit("-");
        }
        out.append("-");
        let magnitude: i64 = -(n as i64);
        push_decimal(out, magnitude as u64);
        assert(final(out)@ =~= old(out)@ + signed_decimal(n as int));
    } else {
        push_decimal(out, n as u64);
    }
}

/// The claims of a token issued at `now` for `exp_sec` seconds; its version
/// is the one recorded for the user, or empty when none is.
pub fn issue_claims(user_id: i32, group_type: i32, now: u64, exp_sec: u64, version: Option<
    String,
>) -> (r: Claims)
    ensures
        r.user_id == user_id,
        r.aud@ == signed_decimal(group_type as int),
        r.exp == if now + exp_sec > u64::MAX {
            u64::MAX as int
        } else {
            now + exp_sec
        },
        r.nbf == now,
        r.version@ == match version {
            Some(v) => v@,
            None => Seq::<char>::empty(),
        },
{
    let mut aud = String::new();
    push_signed_decimal(&mut aud, group_type);
    let version = match version {
        Some(v) => v,
        None => String::new(),
    };
    Claims { user_id, aud, exp: now.saturating_add(exp_sec), nbf: now, version }
}

} // verus!
