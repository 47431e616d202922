//! The generic data-access engine: how the outcomes of store calls become
//! the results of count, get, list, create, update and delete, and the
//! transactional count-then-mutate protocol of singular update and delete.
//!
//! The store itself is driven by the caller; the functions here take what a
//! store call returned and decide what comes next.
use crate::error::{AppError, IntoAppError};
use crate::kind::AppErrorKind;
use crate::params::PaginateParam;
use crate::result::{AppResult, IntoAppResult};
use crate::text::{decimal, push_decimal};
use vstd::prelude::*;

verus! {

/// The context of the error for a filter that matched no row.
pub open spec fn not_found_text(filter: Seq<char>) -> Seq<char> {
    "Data not found, filter: "@ + filter
}

/// The context of the error for a filter that matched `count` rows where
/// one was expected.
pub open spec fn conflict_text(count: nat, filter: Seq<char>) -> Seq<char> {
    "Multiple data found, count: "@ + decimal(count) + ", filter: "@ + filter
}

/// The context added when a transaction cannot be opened.
pub open spec fn begin_failed_text() -> Seq<char> {
    "Failed to start db transaction."@
}

/// The context added when a transaction cannot be committed.
pub open spec fn commit_failed_text() -> Seq<char> {
    "Failed to commit db transaction."@
}

/// `r` is the error that a failed store call becomes.
pub open spec fn is_store_failure<T>(r: AppResult<T>) -> bool {
    r matches Err(e) && e.kind == AppErrorKind::DBOperationError && e.chain().len() == 1
}

/// The error for a filter (described by `filter`) that matched no row.
pub fn not_found(filter: &str) -> (r: AppError)
    ensures
        r.kind == AppErrorKind::ResourceNotFound,
        r.chain() == seq![not_found_text(filter@)],
{
    let mut text = String::from_str("Data not found, filter: ");
    text.append(filter);
    AppError::new(text, AppErrorKind::ResourceNotFound)
}

/// The error for a filter that matched `count` rows where one was expected.
pub fn conflict(count: u64, filter: &str) -> (r: AppError)
    ensures
        r.kind == AppErrorKind::ResourceConflict,
        r.chain() == seq![conflict_text(count as nat, filter@)],
{
    let mut text = String::from_str("Multiple data found, count: ");
    push_decimal(&mut text, count);
    text.append(", filter: ");
    text.append(filter);
    assert(text@ =~= conflict_text(count as nat, filter@));
    AppError::new(text, AppErrorKind::ResourceConflict)
}

/// The result of a store call that only reads or writes: its value, or a
/// `DBOperationError` whose innermost layer is the store's failure. This is
/// the whole of count, list, create and the bulk update and delete: a
/// row count, 0 included, comes back as it is.
pub fn store_outcome<T, E: IntoAppError>(outcome: Result<T, E>) -> (r: AppResult<T>)
    ensures
        outcome matches Ok(v) ==> r == Ok::<T, AppError>(v),
        outcome is Err ==> is_store_failure(r),
{
    outcome.with_err_kind(AppErrorKind::DBOperationError)
}

/// The result of fetching the first row that `filter` matches: that row,
/// `ResourceNotFound` when there is none, or the store's failure.
pub fn found<M, E: IntoAppError>(outcome: Result<Option<M>, E>, filter: &str) -> (r: AppResult<M>)
    ensures
        outcome matches Ok(Some(m)) ==> r == Ok::<M, AppError>(m),
        outcome matches Ok(None) ==> (r matches Err(e) && e.kind == AppErrorKind::ResourceNotFound
            && e.chain() == seq![not_found_text(filter@)]),
        outcome is Err ==> is_store_failure(r),
{
    match outcome {
        Ok(Some(m)) => Ok(m),
        Ok(None) => Err(not_found(filter)),
        Err(e) => Err(e.with_err_kind(AppErrorKind::DBOperationError)),
    }
}

/// The zero-based index of the page to fetch; page 0 is taken as page 1.
pub fn page_index(paginate: &PaginateParam) -> (r: u64)
    ensures
        r == if paginate.page_num == 0 {
            0
        } else {
            paginate.page_num - 1
        },
{
    if paginate.page_num == 0 {
        0
    } else {
        paginate.page_num - 1
    }
}

/// The result of a bulk insert of `payload_count` rows: that count, or the
/// store's failure.
pub fn inserted_count<X, E: IntoAppError>(payload_count: usize, outcome: Result<X, E>) -> (r:
    AppResult<u64>)
    ensures
        outcome is Ok ==> r == Ok::<u64, AppError>(payload_count as u64),
        outcome is Err ==> is_store_failure(r),
{
    match outcome {
        Ok(_) => Ok(payload_count as u64),
        Err(e) => Err(e.with_err_kind(AppErrorKind::DBOperationError)),
    }
}

/// The store calls of a singular update or delete, in the order made.
#[derive(Clone, Copy, Debug, PartialEq, Eq, Structural)]
pub enum SingularStep {
    /// Open a transaction.
    BeginTransaction,
    /// Count the rows that the filter matches, inside the transaction.
    CountMatches,
    /// Run the bulk update or delete with the same filter, inside the
    /// transaction.
    MutateMatches,
    /// Commit the transaction.
    CommitTransaction,
}

/// What the driver of a singular mutation does next.
pub enum SingularNext {
    /// Make this store call and report its outcome.
    Perform(SingularStep),
    /// Stop with this result. A transaction that is still open is abandoned
    /// without commit, which rolls it back.
    Finish(AppResult<()>),
}

/// Where a singular mutation stands.
#[derive(Clone, Copy, Debug, PartialEq, Eq, Structural)]
pub enum SingularPhase {
    Beginning,
    Counting,
    Mutating,
    Committing,
    Finished,
}

/// A singular update or delete: one that must affect exactly one row.
/// It opens a transaction, counts the matches, fails on 0 or more than 1,
/// and only then mutates and commits.
pub struct SingularMutation {
    pub phase: SingularPhase,
    /// The filter, as shown in error messages.
    pub filter: String,
}

impl SingularMutation {
    /// Starts a mutation for the filter described by `filter`.
    pub fn start(filter: &str) -> (r: (SingularMutation, SingularNext))
        ensures
            r.0.phase == SingularPhase::Beginning,
            r.0.filter@ == filter@,
            r.1 == SingularNext::Perform(SingularStep::BeginTransaction),
    {
        let m = SingularMutation { phase: SingularPhase::Beginning, filter: String::from_str(filter) };
        (m, SingularNext::Perform(SingularStep::BeginTransaction))
    }

    /// Takes the outcome of opening the transaction.
    pub fn on_begun<E: IntoAppError>(&mut self, outcome: Result<(), E>) -> (r: SingularNext)
        requires
            old(self).phase == SingularPhase::Beginning,
        ensures
            final(self).filter == old(self).filter,
            outcome is Ok ==> final(self).phase == SingularPhase::Counting && r
                == SingularNext::Perform(SingularStep::CountMatches),
            outcome is Err ==> final(self).phase == SingularPhase::Finished && (r matches SingularNext::Finish(Err(e))
                && e.kind == AppErrorKind::DBOperationError && e.chain().len() == 2
                && e.chain()[1] == begin_failed_text()),
    {
        match outcome {
            Ok(()) => {
                self.phase = SingularPhase::Counting;
                SingularNext::Perform(SingularStep::CountMatches)
            },
            Err(e) => {
                self.phase = SingularPhase::Finished;
                let err = e.with_err_kind(AppErrorKind::DBOperationError).context(
                    "Failed to start db transaction.",
                );
                SingularNext::Finish(Err(err))
            },
        }
    }

    /// Takes the number of rows that the filter matched inside the
    /// transaction, and decides: none is `ResourceNotFound`, more than one
    /// is `ResourceConflict`, exactly one goes on to the mutation.
    pub fn on_counted<E: IntoAppError>(&mut self, outcome: Result<u64, E>) -> (r: SingularNext)
        requires
            old(self).phase == SingularPhase::Counting,
        ensures
            final(self).filter == old(self).filter,
            outcome == Ok::<u64, E>(0) ==> final(self).phase == SingularPhase::Finished && (r matches SingularNext::Finish(Err(e))
                && e.kind == AppErrorKind::ResourceNotFound && e.chain() == seq![
                not_found_text(old(self).filter@)]),
            outcome == Ok::<u64, E>(1) ==> final(self).phase == SingularPhase::Mutating && r
                == SingularNext::Perform(SingularStep::MutateMatches),
            outcome is Ok && outcome->Ok_0 > 1 ==> final(self).phase == SingularPhase::Finished && (r matches SingularNext::Finish(Err(e))
                && e.kind == AppErrorKind::ResourceConflict && e.chain() == seq![
                conflict_text(outcome->Ok_0 as nat, old(self).filter@)]),
            outcome is Err ==> final(self).phase == SingularPhase::Finished && (r matches SingularNext::Finish(res)
                && is_store_failure(res)),
    {
        match outcome {
            Ok(count) => {
                if count == 0 {
                    self.phase = SingularPhase::Finished;
                    SingularNext::Finish(Err(not_found(self.filter.as_str())))
                } else if count == 1 {
                    self.phase = SingularPhase::Mutating;
                    SingularNext::Perform(SingularStep::MutateMatches)
                } else {
                    self.phase = SingularPhase::Finished;
                    SingularNext::Finish(Err(conflict(count, self.filter.as_str())))
                }
            },
            Err(e) => {
                self.phase = SingularPhase::Finished;
                SingularNext::Finish(Err(e.with_err_kind(AppErrorKind::DBOperationError)))
            },
        }
    }

    /// Takes the outcome of the bulk update or delete.
    pub fn on_mutated<E: IntoAppError>(&mut self, outcome: Result<u64, E>) -> (r: SingularNext)
        requires
            old(self).phase == SingularPhase::Mutating,
        ensures
            final(self).filter == old(self).filter,
            outcome is Ok ==> final(self).phase == SingularPhase::Committing && r
                == SingularNext::Perform(SingularStep::CommitTransaction),
            outcome is Err ==> final(self).phase == SingularPhase::Finished && (r matches SingularNext::Finish(res)
                && is_store_failure(res)),
    {
        match outcome {
            Ok(_) => {
                self.phase = SingularPhase::Committing;
                SingularNext::Perform(SingularStep::CommitTransaction)
            },
            Err(e) => {
                self.phase = SingularPhase::Finished;
                SingularNext::Finish(Err(e.with_err_kind(AppErrorKind::DBOperationError)))
            },
        }
    }

    /// Takes the outcome of the commit: success ends the mutation.
    pub fn on_committed<E: IntoAppError>(&mut self, outcome: Result<(), E>) -> (r: SingularNext)
        requires
            old(self).phase == SingularPhase::Committing,
        ensures
            final(self).filter == old(self).filter,
            final(self).phase == SingularPhase::Finished,
            outcome is Ok ==> r == SingularNext::Finish(Ok(())),
            outcome is Err ==> (r matches SingularNext::Finish(Err(e)) && e.kind
                == AppErrorKind::DBOperationError && e.chain().len() == 2 && e.chain()[1]
                == commit_failed_text()),
    {
        self.phase = SingularPhase::Finished;
        match outcome {
            Ok(()) => SingularNext::Finish(Ok(())),
            Err(e) => {
                let err = e.with_err_kind(AppErrorKind::DBOperationError).context(
                    "Failed to commit db transaction.",
                );
                SingularNext::Finish(Err(err))
            },
        }
    }
}

} // verus!
