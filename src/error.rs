//! `AppError`: an error kind paired with a chain of context layers, and the
//! way such an error renders.
use crate::kind::{status_of, AppErrorKind};
use crate::text::{decimal, indent_lines, pad_left5, push_indented, push_padded_number};
use http::StatusCode;
use std::backtrace::Backtrace;
use vstd::prelude::*;

verus! {

/// The stack trace type of std, carried through as an opaque value.
#[verifier::external_type_specification]
#[verifier::external_body]
pub struct ExBacktrace(Backtrace);

/// Relies on `Backtrace::capture`: whether frames are recorded depends on the
/// environment, so nothing is promised of the result.
pub assume_specification[ Backtrace::capture ]() -> Backtrace;

/// A value that can serve as one layer of context on an error.
pub trait ContextText: Sized {
    /// The text that the layer shows.
    spec fn text(&self) -> Seq<char>;

    fn into_text(self) -> (r: String)
        ensures
            r@ == self.text(),
    ;
}

impl<'a> ContextText for &'a str {
    open spec fn text(&self) -> Seq<char> {
        (*self)@
    }

    fn into_text(self) -> (r: String) {
        String::from_str(self)
    }
}

impl ContextText for String {
    open spec fn text(&self) -> Seq<char> {
        self@
    }

    fn into_text(self) -> (r: String) {
        self
    }
}

/// The layer that a chain shows first: its outermost one.
pub open spec fn outermost(chain: Seq<Seq<char>>) -> Seq<char> {
    if chain.len() == 0 {
        Seq::empty()
    } else {
        chain.last()
    }
}

/// How an error of `kind` with context layers `chain` (innermost first) is
/// displayed: the kind's message and the outermost layer.
pub open spec fn display_text(kind: AppErrorKind, chain: Seq<Seq<char>>) -> Seq<char> {
    kind.spec_message() + ":\n"@ + outermost(chain)
}

/// One entry of the "Caused by" list: numbered and indented when the list
/// holds more than one entry.
pub open spec fn cause_entry(text: Seq<char>, numbered: bool, number: nat) -> Seq<char> {
    if numbered {
        pad_left5(decimal(number)) + ": "@ + indent_lines(text, "       "@)
    } else {
        "    "@ + indent_lines(text, "    "@)
    }
}

/// The first `n` entries of the "Caused by" list of the causes `inner`
/// (innermost first), listed from the outermost down, each on a new line.
pub open spec fn cause_list(inner: Seq<Seq<char>>, numbered: bool, n: nat) -> Seq<char>
    decreases n,
{
    if n == 0 || n > inner.len() {
        Seq::empty()
    } else {
        cause_list(inner, numbered, (n - 1) as nat) + "\n"@ + cause_entry(
            inner[inner.len() - n],
            numbered,
            (n - 1) as nat,
        )
    }
}

/// How an error is rendered for diagnosis: the displayed text, then every
/// layer beneath the outermost one, innermost last.
pub open spec fn debug_text(kind: AppErrorKind, chain: Seq<Seq<char>>) -> Seq<char> {
    if chain.len() <= 1 {
        display_text(kind, chain)
    } else {
        let inner = chain.drop_last();
        display_text(kind, chain) + "\n\nCaused by:"@ + cause_list(
            inner,
            inner.len() > 1,
            inner.len(),
        )
    }
}

/// The text of the layer that a missing value produces.
pub open spec fn missing_value_text() -> Seq<char> {
    "Unexpected None: Expected a value but found None."@
}

/// An error of a fixed kind with the context gathered on its way up.
#[derive(Debug)]
pub struct AppError {
    pub kind: AppErrorKind,
    /// The context layers, innermost first.
    pub causes: Vec<String>,
    /// The stack trace taken when the error was first classified.
    pub trace: Backtrace,
}

impl AppError {
    /// The context layers, innermost first.
    pub open spec fn chain(&self) -> Seq<Seq<char>> {
        self.causes@.map_values(|c: String| c@)
    }

    /// An error of `kind` whose only layer is `text`.
    pub fn from_text(text: String, kind: AppErrorKind) -> (r: Self)
        ensures
            r.kind == kind,
            r.chain() == seq![text@],
    {
        let mut causes: Vec<String> = Vec::new();
        causes.push(text);
        let r = AppError { kind, causes, trace: Backtrace::capture() };
        assert(r.chain() =~= seq![text@]);
        r
    }

    pub fn new<C: ContextText>(context: C, kind: AppErrorKind) -> (r: Self)
        ensures
            r.kind == kind,
            r.chain() == seq![context.text()],
    {
        AppError::from_text(context.into_text(), kind)
    }

    /// The error that stands for a value that was expected and missing.
    pub fn missing_value(kind: AppErrorKind) -> (r: Self)
        ensures
            r.kind == kind,
            r.chain() == seq![missing_value_text()],
    {
        AppError::new("Unexpected None: Expected a value but found None.", kind)
    }

    pub fn context<C: ContextText>(self, context: C) -> (r: Self)
        ensures
            r.kind == self.kind,
            r.chain() == self.chain().push(context.text()),
    {
        let AppError { kind, mut causes, trace } = self;
        causes.push(context.into_text());
        let r = AppError { kind, causes, trace };
        assert(r.chain() =~= self.chain().push(context.text()));
        r
    }

    pub fn with_context<C: ContextText, F: FnOnce() -> C>(self, context: F) -> (r: Self)
        requires
            context.requires(()),
        ensures
            r.kind == self.kind,
            exists|c: C| context.ensures((), c) && r.chain() == self.chain().push(c.text()),
    {
        let c = context();
        self.context(c)
    }

    pub fn message(&self) -> (r: &'static str)
        ensures
            r@ == self.kind.spec_message(),
    {
        self.kind.message()
    }

    pub fn http_code(&self) -> (r: StatusCode)
        ensures
            r == status_of(self.kind.spec_http_code()),
    {
        self.kind.http_code()
    }

    pub fn app_code(&self) -> (r: i32)
        ensures
            r == self.kind.spec_app_code(),
    {
        self.kind.app_code()
    }

    /// The stack trace taken when the error was first classified.
    pub fn backtrace(&self) -> (r: &Backtrace)
        ensures
            *r == self.trace,
    {
        &self.trace
    }

    /// The number of context layers.
    pub fn depth(&self) -> (r: usize)
        ensures
            r == self.chain().len(),
    {
        self.causes.len()
    }

    /// The error as displayed: the kind's message and the outermost layer.
    pub fn to_display_string(&self) -> (r: String)
        ensures
            r@ == display_text(self.kind, self.chain()),
    {
        proof {
            reveal_strlit(":\n");
        }
        let mut out = String::from_str(self.kind.message());
        out.append(":\n");
        let n = self.causes.len();
        if n > 0 {
            out.append(self.causes[n - 1].as_str());
        }
        assert(out@ =~= display_text(self.kind, self.chain()));
        out
    }

    /// The error with its whole chain: the displayed text, then each deeper
    /// layer under "Caused by", innermost last.
    pub fn to_debug_string(&self) -> (r: String)
        ensures
            r@ == debug_text(self.kind, self.chain()),
    {
        let mut out = self.to_display_string();
        let n = self.causes.len();
        if n <= 1 {
            return out;
        }
        let ghost chain = self.chain();
        let ghost inner = chain.drop_last();
        let ghost head = out@;
        let numbered = n > 2;
        out.append("\n\nCaused by:");
        let mut k: usize = 0;
        while k < n - 1
            invariant
                n == self.causes@.len(),
                n >= 2,
                chain == self.chain(),
                inner == chain.drop_last(),
                numbered == (inner.len() > 1),
                k <= n - 1,
                out@ == head + "\n\nCaused by:"@ + cause_list(inner, numbered, k as nat),
            decreases n - 1 - k,
        {
            let idx = n - 2 - k;
            let ghost before = out@;
            proof {
                reveal_strlit("\n");
                reveal_strlit(": ");
                reveal_strlit("    ");
                reveal_strlit("       ");
            }
            out.append("\n");
            if numbered {
                push_padded_number(&mut out, k as u64);
                out.append(": ");
                push_indented(&mut out, self.causes[idx].as_str(), "       ");
            } else {
                out.append("    ");
                push_indented(&mut out, self.causes[idx].as_str(), "    ");
            }
            proof {
                assert(inner[inner.len() - (k + 1)] == self.causes@[idx as int]@);
                assert(out@ =~= before + "\n"@ + cause_entry(
                    inner[inner.len() - (k + 1)],
                    numbered,
                    k as nat,
                ));
                assert(out@ =~= head + "\n\nCaused by:"@ + cause_list(
                    inner,
                    numbered,
                    (k + 1) as nat,
                ));
            }
            k = k + 1;
        }
        out
    }
}

/// A lower-level failure that can be lifted into an `AppError`.
pub trait IntoAppError: Sized {
    fn with_err_kind(self, err_kind: AppErrorKind) -> (r: AppError)
        ensures
            r.kind == err_kind,
            r.chain().len() == 1,
    ;
}

impl<E: core::fmt::Display> IntoAppError for E {
    /// The failure's displayed text becomes the innermost layer.
    fn with_err_kind(self, err_kind: AppErrorKind) -> (r: AppError)
        ensures
            exists|s: String|
                vstd::string::to_string_from_display_ensures::<E>(&self, s) && r.chain() == seq![
                    s@],
    {
        let text = self.to_string();
        AppError::from_text(text, err_kind)
    }
}

} // verus!
