//! Extension traits that lift failures and missing values into `AppResult`
//! and add context to the errors they carry.
use crate::error::{missing_value_text, AppError, ContextText, IntoAppError};
use crate::kind::AppErrorKind;
use vstd::prelude::*;

verus! {

pub type AppResult<T> = Result<T, AppError>;

/// A value that may hold a success, which can be turned into an `AppResult`.
pub trait IntoAppResult<T>: Sized {
    /// The success that the value holds, if any.
    spec fn success(&self) -> Option<T>;

    fn with_err_kind(self, err_kind: AppErrorKind) -> (r: AppResult<T>)
        ensures
            r is Ok <==> self.success() is Some,
            r matches Ok(v) ==> self.success() == Some(v),
            r matches Err(e) ==> e.kind == err_kind && e.chain().len() == 1,
    ;
}

impl<T, E: IntoAppError> IntoAppResult<T> for Result<T, E> {
    open spec fn success(&self) -> Option<T> {
        match self {
            Ok(v) => Some(*v),
            Err(_) => None,
        }
    }

    fn with_err_kind(self, err_kind: AppErrorKind) -> (r: AppResult<T>) {
        match self {
            Ok(v) => Ok(v),
            Err(e) => Err(e.with_err_kind(err_kind)),
        }
    }
}

impl<T> IntoAppResult<T> for Option<T> {
    open spec fn success(&self) -> Option<T> {
        *self
    }

    /// A missing value becomes an error whose only layer says so.
    fn with_err_kind(self, err_kind: AppErrorKind) -> (r: AppResult<T>)
        ensures
            r matches Err(e) ==> e.chain() == seq![missing_value_text()],
    {
        match self {
            Some(v) => Ok(v),
            None => Err(AppError::missing_value(err_kind)),
        }
    }
}

/// Adds a context layer to the error of an `AppResult`, if it holds one.
pub trait ContextExt<T>: Sized {
    fn context<C: ContextText>(self, context: C) -> AppResult<T>;

    fn with_context<C: ContextText, F: FnOnce() -> C>(self, context: F) -> AppResult<T>
        requires
            context.requires(()),
    ;
}

impl<T> ContextExt<T> for AppResult<T> {
    fn context<C: ContextText>(self, context: C) -> (r: AppResult<T>)
        ensures
            self matches Ok(v) ==> r == Ok::<T, AppError>(v),
            self matches Err(e) ==> r matches Err(e2) && e2.kind == e.kind && e2.chain()
                == e.chain().push(context.text()),
    {
        match self {
            Ok(v) => Ok(v),
            Err(e) => Err(e.context(context)),
        }
    }

    fn with_context<C: ContextText, F: FnOnce() -> C>(self, context: F) -> (r: AppResult<T>)
        ensures
            self matches Ok(v) ==> r == Ok::<T, AppError>(v),
            self matches Err(e) ==> r matches Err(e2) && e2.kind == e.kind && exists|c: C|
                context.ensures((), c) && e2.chain() == e.chain().push(c.text()),
    {
        match self {
            Ok(v) => Ok(v),
            Err(e) => Err(e.with_context(context)),
        }
    }
}

/// Lifts a value into an `AppResult` of a chosen kind and adds context, in
/// one step.
pub trait WrapToAppResult<T>: Sized {
    fn wrap<C: ContextText>(self, context: C, err_kind: AppErrorKind) -> AppResult<T>;

    fn wrap_with<C: ContextText, F: FnOnce() -> C>(
        self,
        context: F,
        err_kind: AppErrorKind,
    ) -> AppResult<T>
        requires
            context.requires(()),
    ;
}

impl<T, R: IntoAppResult<T>> WrapToAppResult<T> for R {
    fn wrap<C: ContextText>(self, context: C, err_kind: AppErrorKind) -> (r: AppResult<T>)
        ensures
            r is Ok <==> self.success() is Some,
            r matches Ok(v) ==> self.success() == Some(v),
            r matches Err(e) ==> e.kind == err_kind && e.chain().len() == 2 && e.chain()[1]
                == context.text(),
    {
        match self.with_err_kind(err_kind) {
            Ok(v) => Ok(v),
            Err(e) => Err(e.context(context)),
        }
    }

    fn wrap_with<C: ContextText, F: FnOnce() -> C>(
        self,
        context: F,
        err_kind: AppErrorKind,
    ) -> (r: AppResult<T>)
        ensures
            r is Ok <==> self.success() is Some,
            r matches Ok(v) ==> self.success() == Some(v),
            r matches Err(e) ==> e.kind == err_kind && e.chain().len() == 2 && exists|c: C|
                context.ensures((), c) && e.chain()[1] == c.text(),
    {
        match self.with_err_kind(err_kind) {
            Ok(v) => Ok(v),
            Err(e) => Err(e.with_context(context)),
        }
    }
}

} // verus!
