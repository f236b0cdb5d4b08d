use crate::error::{agrees, ApiError, Failure};
use crate::field::{
    change, field_failure, id_field, keep, keep_or, malformed_failure, optional, read_id,
    read_text, required, text_field, Field,
};
use vstd::prelude::*;

verus! {

/// A student as the store holds it, with the owning user's name and address
/// where the row was read together with that user.
#[derive(Debug, PartialEq, Eq)]
pub struct Student {
    pub id: u128,
    pub user_id: u128,
    pub class: String,
    pub created_at: i64,
    pub first_name: Option<String>,
    pub last_name: Option<String>,
    pub email: Option<String>,
}

/// A student to create.
#[derive(Debug, PartialEq, Eq)]
pub struct NewStudent {
    pub user_id: u128,
    pub class: String,
}

/// The changes to make to a student.
#[derive(Debug, PartialEq, Eq)]
pub struct UpdateStudent {
    pub class: Option<String>,
}

/// The body of a request to create a student, as it came.
#[derive(Debug, PartialEq, Eq)]
pub struct NewStudentForm {
    pub user_id: Option<String>,
    pub class: Option<String>,
}

/// The body of a request to update a student, as it came.
#[derive(Debug, PartialEq, Eq)]
pub struct UpdateStudentForm {
    pub class: Option<String>,
}

impl NewStudent {
    /// The student to create that the fields make, or the error for the first
    /// field that has no value.
    pub open spec fn checked(user_id: Field<u128>, class: Field<String>) -> Result<
        NewStudent,
        Failure,
    > {
        if !(user_id is Given) {
            Err(field_failure(user_id, "user_id"@))
        } else if !(class is Given) {
            Err(field_failure(class, "class"@))
        } else {
            Ok(NewStudent { user_id: user_id->Given_0, class: class->Given_0 })
        }
    }

    /// What [`NewStudent::validate`] makes of a form.
    pub open spec fn of_form(form: NewStudentForm) -> Result<NewStudent, Failure> {
        NewStudent::checked(id_field(form.user_id), text_field(form.class))
    }

    /// Computes [`NewStudent::checked`].
    pub fn from_fields(user_id: Field<u128>, class: Field<String>) -> (r: Result<
        NewStudent,
        ApiError,
    >)
        ensures
            agrees(NewStudent::checked(user_id, class), r),
    {
        let user_id = required(user_id, "user_id")?;
        let class = required(class, "class")?;
        Ok(NewStudent { user_id, class })
    }

    /// Validates the body of a request to create a student: the owning user's
    /// identifier and the class are required.
    pub fn validate(form: NewStudentForm) -> (r: Result<NewStudent, ApiError>)
        ensures
            agrees(NewStudent::of_form(form), r),
    {
        NewStudent::from_fields(read_id(form.user_id), read_text(form.class))
    }
}

impl UpdateStudent {
    /// The changes that the field makes.
    pub open spec fn checked(class: Field<String>) -> Result<UpdateStudent, Failure> {
        if class is Malformed {
            Err(malformed_failure("class"@))
        } else {
            Ok(UpdateStudent { class: change(class) })
        }
    }

    /// What [`UpdateStudent::validate`] makes of a form.
    pub open spec fn of_form(form: UpdateStudentForm) -> Result<UpdateStudent, Failure> {
        UpdateStudent::checked(text_field(form.class))
    }

    /// Computes [`UpdateStudent::checked`].
    pub fn from_fields(class: Field<String>) -> (r: Result<UpdateStudent, ApiError>)
        ensures
            agrees(UpdateStudent::checked(class), r),
    {
        let class = optional(class, "class")?;
        Ok(UpdateStudent { class })
    }

    /// Validates the body of a request to update a student.
    pub fn validate(form: UpdateStudentForm) -> (r: Result<UpdateStudent, ApiError>)
        ensures
            agrees(UpdateStudent::of_form(form), r),
    {
        UpdateStudent::from_fields(read_text(form.class))
    }

    /// The student after the changes: the class takes its new value where the
    /// changes name one, every other field keeps the one it had.
    pub open spec fn merged(self, current: Student) -> Student {
        Student {
            id: current.id,
            user_id: current.user_id,
            class: keep(self.class, current.class),
            created_at: current.created_at,
            first_name: current.first_name,
            last_name: current.last_name,
            email: current.email,
        }
    }

    /// Computes [`UpdateStudent::merged`].
    pub fn apply(self, current: Student) -> (r: Student)
        ensures
            r == self.merged(current),
    {
        Student {
            id: current.id,
            user_id: current.user_id,
            class: keep_or(self.class, current.class),
            created_at: current.created_at,
            first_name: current.first_name,
            last_name: current.last_name,
            email: current.email,
        }
    }
}

} // verus!
