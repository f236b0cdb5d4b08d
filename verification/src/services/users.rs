use crate::auth::{guard, guarded, Operation, ResourceKind};
use crate::error::{agrees, ApiError};
use crate::models::user::{NewUser, NewUserForm, UpdateUser, UpdateUserForm, User};
use vstd::prelude::*;

verus! {

/// Admits a request to create a user: the caller must be an administrator,
/// and the body must then be valid. What comes back is what to insert.
pub fn create_user(caller: &User, form: NewUserForm) -> (r: Result<NewUser, ApiError>)
    ensures
        agrees(
            guarded(*caller, Operation::Create, ResourceKind::User, None, NewUser::of_form(form)),
            r,
        ),
{
    guard(caller, Operation::Create, ResourceKind::User, None)?;
    NewUser::validate(form)
}

/// Admits a request to list the users: the caller must be an administrator
/// or a director.
pub fn list_users(caller: &User) -> (r: Result<(), ApiError>)
    ensures
        agrees(guarded(*caller, Operation::List, ResourceKind::User, None, Ok(())), r),
{
    guard(caller, Operation::List, ResourceKind::User, None)
}

/// Admits a request to update a user: the caller must be an administrator,
/// and the body must then be valid. What comes back are the changes to make.
pub fn update_user(caller: &User, form: UpdateUserForm) -> (r: Result<UpdateUser, ApiError>)
    ensures
        agrees(
            guarded(
                *caller,
                Operation::Update,
                ResourceKind::User,
                None,
                UpdateUser::of_form(form),
            ),
            r,
        ),
{
    guard(caller, Operation::Update, ResourceKind::User, None)?;
    UpdateUser::validate(form)
}

/// Admits a request to delete a user: the caller must be an administrator.
pub fn delete_user(caller: &User) -> (r: Result<(), ApiError>)
    ensures
        agrees(guarded(*caller, Operation::Delete, ResourceKind::User, None, Ok(())), r),
{
    guard(caller, Operation::Delete, ResourceKind::User, None)
}

} // verus!
