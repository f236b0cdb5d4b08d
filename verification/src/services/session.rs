use crate::error::{agrees, ApiError, ErrorKind, Failure};
use crate::ident::{uuid_from_str, uuid_of_text};
use crate::models::user::User;
use crate::storage::{storage_error, StorageFailure};
use vstd::prelude::*;

verus! {

/// The name of the header that carries the caller's credential.
pub fn credential_header() -> (name: &'static str)
    ensures
        name@ == "x-user-id"@,
{
    "x-user-id"
}

/// The error for a credential that is absent or is no identifier.
pub open spec fn bad_credential() -> Failure {
    Failure { kind: ErrorKind::Unauthorized, message: "Missing or invalid x-user-id header"@ }
}

/// The error for a credential that denotes no user.
pub open spec fn unknown_caller() -> Failure {
    Failure { kind: ErrorKind::Unauthorized, message: "User not found"@ }
}

/// The identifier that a credential denotes, if it denotes one.
pub open spec fn credential_id(header: Option<&str>) -> Option<u128> {
    match header {
        Some(text) => uuid_of_text(text@),
        None => None,
    }
}

/// The caller's identifier from what the credential was read as.
pub open spec fn caller_id_of(parsed: Option<u128>) -> Result<u128, Failure> {
    match parsed {
        Some(id) => Ok(id),
        None => Err(bad_credential()),
    }
}

/// The caller from what the store found under the caller's identifier.
pub open spec fn caller_of(lookup: Result<Option<User>, StorageFailure>) -> Result<User, Failure> {
    match lookup {
        Ok(Some(user)) => Ok(user),
        Ok(None) => Err(unknown_caller()),
        Err(failure) => Err(storage_error(failure)),
    }
}

/// Computes [`caller_id_of`].
pub fn accept_credential(parsed: Option<u128>) -> (r: Result<u128, ApiError>)
    ensures
        agrees(caller_id_of(parsed), r),
{
    match parsed {
        Some(id) => Ok(id),
        None => Err(ApiError::new(ErrorKind::Unauthorized, "Missing or invalid x-user-id header")),
    }
}

/// Reads the caller's identifier out of the credential header: the request is
/// unauthorized where the header is absent or holds no identifier.
pub fn caller_id_from_header(header: Option<&str>) -> (r: Result<u128, ApiError>)
    ensures
        agrees(caller_id_of(credential_id(header)), r),
{
    let parsed = match header {
        Some(text) => uuid_from_str(text),
        None => None,
    };
    accept_credential(parsed)
}

/// Resolves the caller from what the store found under the identifier: the
/// request is unauthorized where there is no such user.
pub fn resolve_caller(lookup: Result<Option<User>, StorageFailure>) -> (r: Result<User, ApiError>)
    ensures
        agrees(caller_of(lookup), r),
{
    match lookup {
        Ok(Some(user)) => Ok(user),
        Ok(None) => Err(ApiError::new(ErrorKind::Unauthorized, "User not found")),
        Err(failure) => Err(failure.into_error()),
    }
}

} // verus!
