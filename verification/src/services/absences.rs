use crate::auth::{guard, guarded, Operation, ResourceKind};
use crate::error::{agrees, ApiError};
use crate::models::absence::{NewAbsence, NewAbsenceForm, UpdateAbsence, UpdateAbsenceForm};
use crate::models::user::User;
use vstd::prelude::*;

verus! {

/// Admits a request to record an absence: the caller must be an
/// administrator, a director or a teacher, and the body must then be valid.
pub fn create_absence(caller: &User, form: NewAbsenceForm) -> (r: Result<NewAbsence, ApiError>)
    ensures
        agrees(
            guarded(
                *caller,
                Operation::Create,
                ResourceKind::Absence,
                None,
                NewAbsence::of_form(form),
            ),
            r,
        ),
        r matches Ok(absence) ==> absence.date.valid(),
{
    guard(caller, Operation::Create, ResourceKind::Absence, None)?;
    NewAbsence::validate(form)
}

/// Admits a request to update an absence: the caller must be an
/// administrator, a director or a teacher, and the body must then be valid.
pub fn update_absence(caller: &User, form: UpdateAbsenceForm) -> (r: Result<
    UpdateAbsence,
    ApiError,
>)
    ensures
        agrees(
            guarded(
                *caller,
                Operation::Update,
                ResourceKind::Absence,
                None,
                UpdateAbsence::of_form(form),
            ),
            r,
        ),
{
    guard(caller, Operation::Update, ResourceKind::Absence, None)?;
    UpdateAbsence::validate(form)
}

/// Admits a request to delete an absence: the caller must be an
/// administrator, a director or a teacher.
pub fn delete_absence(caller: &User) -> (r: Result<(), ApiError>)
    ensures
        agrees(guarded(*caller, Operation::Delete, ResourceKind::Absence, None, Ok(())), r),
{
    guard(caller, Operation::Delete, ResourceKind::Absence, None)
}

} // verus!
