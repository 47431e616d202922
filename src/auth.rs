//! Reading the bearer token out of an `Authorization` header.
use crate::error::AppError;
use crate::kind::AppErrorKind;
use crate::result::AppResult;
use vstd::prelude::*;

verus! {

/// The scheme word that a bearer `Authorization` header starts with.
pub open spec fn bearer_scheme() -> Seq<char> {
    "Bearer "@
}

/// Whether `s` starts with `p`.
pub open spec fn starts_with(s: Seq<char>, p: Seq<char>) -> bool {
    p.len() <= s.len() && s.subrange(0, p.len() as int) == p
}

/// `s` with every leading repetition of `p` removed.
pub open spec fn strip_prefixes(s: Seq<char>, p: Seq<char>) -> Seq<char>
    decreases s.len(),
{
    if p.len() > 0 && starts_with(s, p) {
        strip_prefixes(s.subrange(p.len() as int, s.len() as int), p)
    } else {
        s
    }
}

/// Whether `s` starts with `p`.
fn has_prefix(s: &str, p: &str) -> (r: bool)
    ensures
        r == starts_with(s@, p@),
{
    let s_len = s.unicode_len();
    let p_len = p.unicode_len();
    if p_len > s_len {
        return false;
    }
    let mut i: usize = 0;
    while i < p_len
        invariant
            s_len == s@.len(),
            p_len == p@.len(),
            p_len <= s_len,
            i <= p_len,
            forall|j: int| 0 <= j < i ==> s@[j] == p@[j],
        decreases p_len - i,
    {
        if s.get_char(i) != p.get_char(i) {
            assert(s@.subrange(0, p_len as int)[i as int] != p@[i as int]);
            return false;
        }
        i = i + 1;
    }
    assert(s@.subrange(0, p_len as int) =~= p@);
    true
}

/// The token of a bearer `Authorization` header; `header` is `None` when the
/// request has no readable one.
pub fn bearer_token(header: Option<&str>) -> (r: AppResult<String>)
    ensures
        header is None ==> (r matches Err(e) && e.kind == AppErrorKind::MissingCredential
            && e.chain() == seq!["Authorization header not found"@]),
        header is Some && starts_with(header->Some_0@, bearer_scheme()) ==> (r matches Ok(t)
            && t@ == strip_prefixes(header->Some_0@, bearer_scheme())),
        header is Some && !starts_with(header->Some_0@, bearer_scheme()) ==> (r matches Err(e)
            && e.kind == AppErrorKind::MalformedCredential && e.chain() == seq![
            "Authorization header must start with 'Bearer'"@]),
{
    match header {
        None => Err(AppError::new("Authorization header not found", AppErrorKind::MissingCredential)),
        Some(h) => {
            if !has_prefix(h, "Bearer ") {
                return Err(
                    AppError::new(
                        "Authorization header must start with 'Bearer'",
                        AppErrorKind::MalformedCredential,
                    ),
                );
            }
            proof {
                reveal_strlit("Bearer ");
            }
            let mut rest: &str = h;
            while has_prefix(rest, "Bearer ")
                invariant
                    strip_prefixes(rest@, bearer_scheme()) == strip_prefixes(h@, bearer_scheme()),
                    bearer_scheme().len() == 7,
                decreases rest@.len(),
            {
                let len = rest.unicode_len();
                rest = rest.substring_char(7, len);
            }
            Ok(String::from_str(rest))
        },
    }
}

} // verus!
