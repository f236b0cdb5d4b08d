use crate::auth::{guard, guarded, Operation, ResourceKind};
use crate::error::{agrees, ApiError};
use crate::models::grade::{GradeScale, NewGrade, NewGradeForm, UpdateGrade, UpdateGradeForm};
use crate::models::user::User;
use vstd::prelude::*;

verus! {

/// Admits a request to record a grade: the caller must be an administrator,
/// a director or a teacher, and the body must then be valid on the scale.
pub fn create_grade(caller: &User, form: NewGradeForm, scale: GradeScale) -> (r: Result<
    NewGrade,
    ApiError,
>)
    ensures
        agrees(
            guarded(
                *caller,
                Operation::Create,
                ResourceKind::Grade,
                None,
                NewGrade::of_form(form, scale),
            ),
            r,
        ),
        r matches Ok(grade) ==> scale.holds(grade.value as int),
{
    guard(caller, Operation::Create, ResourceKind::Grade, None)?;
    NewGrade::validate(form, scale)
}

/// Admits a request to update a grade: the caller must be an administrator,
/// a director or a teacher, and the body must then be valid on the scale.
pub fn update_grade(caller: &User, form: UpdateGradeForm, scale: GradeScale) -> (r: Result<
    UpdateGrade,
    ApiError,
>)
    ensures
        agrees(
            guarded(
                *caller,
                Operation::Update,
                ResourceKind::Grade,
                None,
                UpdateGrade::of_form(form, scale),
            ),
            r,
        ),
{
    guard(caller, Operation::Update, ResourceKind::Grade, None)?;
    UpdateGrade::validate(form, scale)
}

/// Admits a request to delete a grade: the caller must be an administrator,
/// a director or a teacher.
pub fn delete_grade(caller: &User) -> (r: Result<(), ApiError>)
    ensures
        agrees(guarded(*caller, Operation::Delete, ResourceKind::Grade, None, Ok(())), r),
{
    guard(caller, Operation::Delete, ResourceKind::Grade, None)
}

} // verus!
