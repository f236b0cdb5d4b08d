use crate::auth::ResourceKind;
use crate::error::{agrees, ApiError, ErrorKind, Failure};
use vstd::prelude::*;

verus! {

/// The ways in which the store can fail a statement.
#[derive(Clone, Copy, Debug, PartialEq, Eq, Structural)]
pub enum FailureKind {
    /// A value that must be unique is already there.
    UniqueViolation,
    /// A row refers to one that is absent, or is still referred to.
    ForeignKeyViolation,
    /// No connection came free within the time allowed.
    PoolTimedOut,
    /// Anything else.
    Other,
}

/// A statement that the store failed, with the store's own words.
#[derive(Debug, PartialEq, Eq)]
pub struct StorageFailure {
    pub kind: FailureKind,
    pub detail: String,
}

/// The error that a failure of the store becomes: a broken uniqueness or
/// referential rule is a conflict, a pool that timed out makes the service
/// unavailable, the rest is internal. The store's words are the message.
pub open spec fn storage_error(failure: StorageFailure) -> Failure {
    Failure {
        kind: match failure.kind {
            FailureKind::UniqueViolation | FailureKind::ForeignKeyViolation => ErrorKind::Conflict,
            FailureKind::PoolTimedOut => ErrorKind::Unavailable,
            FailureKind::Other => ErrorKind::Internal,
        },
        message: failure.detail@,
    }
}

/// The message that reports a resource of the kind as absent.
pub open spec fn missing_message(kind: ResourceKind) -> Seq<char> {
    match kind {
        ResourceKind::User => "User not found"@,
        ResourceKind::Student => "Student not found"@,
        ResourceKind::Grade => "Grade not found"@,
        ResourceKind::Absence => "Absence not found"@,
        ResourceKind::ParentLink => "Parent-student link not found"@,
    }
}

/// The error that reports a resource of the kind as absent.
pub open spec fn missing(kind: ResourceKind) -> Failure {
    Failure { kind: ErrorKind::NotFound, message: missing_message(kind) }
}

/// The error for an answer of the store that was not asked for.
pub open spec fn out_of_turn() -> Failure {
    Failure { kind: ErrorKind::Internal, message: "Unexpected reply from the store"@ }
}

/// Computes [`out_of_turn`].
pub fn unexpected_reply() -> (e: ApiError)
    ensures
        e@ == out_of_turn(),
{
    ApiError::new(ErrorKind::Internal, "Unexpected reply from the store")
}

impl StorageFailure {
    /// Computes [`storage_error`].
    pub fn into_error(self) -> (e: ApiError)
        ensures
            e@ == storage_error(self),
    {
        let kind = match self.kind {
            FailureKind::UniqueViolation | FailureKind::ForeignKeyViolation => ErrorKind::Conflict,
            FailureKind::PoolTimedOut => ErrorKind::Unavailable,
            FailureKind::Other => ErrorKind::Internal,
        };
        ApiError { kind, message: self.detail }
    }
}

/// The error that reports a resource of the kind as absent.
pub fn not_found(kind: ResourceKind) -> (e: ApiError)
    ensures
        e@ == missing(kind),
{
    match kind {
        ResourceKind::User => ApiError::new(ErrorKind::NotFound, "User not found"),
        ResourceKind::Student => ApiError::new(ErrorKind::NotFound, "Student not found"),
        ResourceKind::Grade => ApiError::new(ErrorKind::NotFound, "Grade not found"),
        ResourceKind::Absence => ApiError::new(ErrorKind::NotFound, "Absence not found"),
        ResourceKind::ParentLink => ApiError::new(
            ErrorKind::NotFound,
            "Parent-student link not found",
        ),
    }
}

/// The reply to a statement that writes a row or reads a list: what the store
/// handed back, or the store's failure as an error.
pub fn stored<T>(outcome: Result<T, StorageFailure>) -> (r: Result<T, ApiError>)
    ensures
        match outcome {
            Ok(value) => r == Ok::<T, ApiError>(value),
            Err(failure) => r is Err && r->Err_0@ == storage_error(failure),
        },
{
    match outcome {
        Ok(value) => Ok(value),
        Err(failure) => Err(failure.into_error()),
    }
}

/// The reply to a statement that looks for one row: the row, not-found where
/// there is none, or the store's failure as an error.
pub fn found<T>(outcome: Result<Option<T>, StorageFailure>, kind: ResourceKind) -> (r: Result<
    T,
    ApiError,
>)
    ensures
        match outcome {
            Ok(Some(row)) => r == Ok::<T, ApiError>(row),
            Ok(None) => r is Err && r->Err_0@ == missing(kind),
            Err(failure) => r is Err && r->Err_0@ == storage_error(failure),
        },
{
    match outcome {
        Ok(Some(row)) => Ok(row),
        Ok(None) => Err(not_found(kind)),
        Err(failure) => Err(failure.into_error()),
    }
}

/// The reply to a statement that deletes by identity, from the number of rows
/// it removed: success where it removed any, not-found where it removed none.
pub fn removed(outcome: Result<u64, StorageFailure>, kind: ResourceKind) -> (r: Result<
    (),
    ApiError,
>)
    ensures
        match outcome {
            Ok(rows) => agrees(removal(rows as int, kind), r),
            Err(failure) => r is Err && r->Err_0@ == storage_error(failure),
        },
{
    match outcome {
        Ok(rows) => if rows == 0 {
            Err(not_found(kind))
        } else {
            Ok(())
        },
        Err(failure) => Err(failure.into_error()),
    }
}

/// What [`removed`] makes of a statement that removed `rows` rows.
pub open spec fn removal(rows: int, kind: ResourceKind) -> Result<(), Failure> {
    if rows == 0 {
        Err(missing(kind))
    } else {
        Ok(())
    }
}

/// The number of rows that a delete by identity removes from a table, the
/// table being given by the identities of its rows.
pub open spec fn rows_deleted(table: Seq<u128>, id: u128) -> int
    decreases table.len(),
{
    if table.len() == 0 {
        0
    } else if table.last() == id {
        rows_deleted(table.drop_last(), id) + 1
    } else {
        rows_deleted(table.drop_last(), id)
    }
}

/// The table after a delete by identity: the rows with another identity, in
/// their order.
pub open spec fn after_delete(table: Seq<u128>, id: u128) -> Seq<u128>
    decreases table.len(),
{
    if table.len() == 0 {
        table
    } else if table.last() == id {
        after_delete(table.drop_last(), id)
    } else {
        after_delete(table.drop_last(), id).push(table.last())
    }
}

/// A delete of what is not in the table removes nothing and so is answered
/// as not found; and after any delete, a second delete of the same identity
/// removes nothing and is answered as not found.
pub proof fn lemma_delete_twice(table: Seq<u128>, id: u128, kind: ResourceKind)
    ensures
        !table.contains(id) ==> rows_deleted(table, id) == 0,
        !table.contains(id) ==> removal(rows_deleted(table, id), kind) == Err::<(), Failure>(
            missing(kind),
        ),
        !after_delete(table, id).contains(id),
        rows_deleted(after_delete(table, id), id) == 0,
        removal(rows_deleted(after_delete(table, id), id), kind) == Err::<(), Failure>(
            missing(kind),
        ),
    decreases table.len(),
{
    if table.len() > 0 {
        let rest = table.drop_last();
        lemma_delete_twice(rest, id, kind);
        if !table.contains(id) {
            assert forall|i: int| 0 <= i < rest.len() implies rest[i] != id by {
                assert(table[i] == rest[i]);
            }
            assert(table[table.len() - 1] != id);
        }
        let before = after_delete(rest, id);
        if table.last() != id {
            let after = before.push(table.last());
            assert(after.drop_last() =~= before);
            assert forall|i: int| 0 <= i < after.len() implies after[i] != id by {
                if i < before.len() {
                    assert(before[i] == after[i]);
                }
            }
        }
    }
}

/// How the pool of connections to the store is set up.
#[derive(Clone, Copy, Debug, PartialEq, Eq, Structural)]
pub struct PoolSettings {
    /// The most connections that are open at a time.
    pub max_connections: u32,
    /// The seconds a request waits for a connection before it fails.
    pub acquire_timeout_secs: u64,
}

impl PoolSettings {
    /// Ten connections, and five seconds to wait for one.
    pub fn standard() -> (settings: PoolSettings)
        ensures
            settings == (PoolSettings { max_connections: 10, acquire_timeout_secs: 5 }),
    {
        PoolSettings { max_connections: 10, acquire_timeout_secs: 5 }
    }
}

/// The text that reports whether the store could be reached.
pub fn health_text(reachable: bool) -> (text: &'static str)
    ensures
        text@ == if reachable {
            "DB OK"@
        } else {
            "DB ERROR"@
        },
{
    if reachable {
        "DB OK"
    } else {
        "DB ERROR"
    }
}

} // verus!
