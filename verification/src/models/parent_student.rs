use crate::error::{agrees, ApiError, Failure};
use crate::field::{field_failure, id_field, read_id, required, Field};
use vstd::prelude::*;

verus! {

/// A link between a parent and a student. The pair is the link's whole
/// identity.
#[derive(Clone, Copy, Debug, PartialEq, Eq, Structural)]
pub struct ParentStudent {
    pub parent_id: u128,
    pub student_id: u128,
}

/// A link to create.
#[derive(Clone, Copy, Debug, PartialEq, Eq, Structural)]
pub struct LinkParentStudent {
    pub parent_id: u128,
    pub student_id: u128,
}

/// The body of a request to create a link, as it came.
#[derive(Debug, PartialEq, Eq)]
pub struct LinkParentStudentForm {
    pub parent_id: Option<String>,
    pub student_id: Option<String>,
}

impl LinkParentStudent {
    /// The link to create that the fields make, or the error for the first
    /// field that has no value.
    pub open spec fn checked(parent_id: Field<u128>, student_id: Field<u128>) -> Result<
        LinkParentStudent,
        Failure,
    > {
        if !(parent_id is Given) {
            Err(field_failure(parent_id, "parent_id"@))
        } else if !(student_id is Given) {
            Err(field_failure(student_id, "student_id"@))
        } else {
            Ok(
                LinkParentStudent {
                    parent_id: parent_id->Given_0,
                    student_id: student_id->Given_0,
                },
            )
        }
    }

    /// What [`LinkParentStudent::validate`] makes of a form.
    pub open spec fn of_form(form: LinkParentStudentForm) -> Result<LinkParentStudent, Failure> {
        LinkParentStudent::checked(id_field(form.parent_id), id_field(form.student_id))
    }

    /// Computes [`LinkParentStudent::checked`].
    pub fn from_fields(parent_id: Field<u128>, student_id: Field<u128>) -> (r: Result<
        LinkParentStudent,
        ApiError,
    >)
        ensures
            agrees(LinkParentStudent::checked(parent_id, student_id), r),
    {
        let parent_id = required(parent_id, "parent_id")?;
        let student_id = required(student_id, "student_id")?;
        Ok(LinkParentStudent { parent_id, student_id })
    }

    /// Validates the body of a request to create a link: both identifiers are
    /// required.
    pub fn validate(form: LinkParentStudentForm) -> (r: Result<LinkParentStudent, ApiError>)
        ensures
            agrees(LinkParentStudent::of_form(form), r),
    {
        LinkParentStudent::from_fields(read_id(form.parent_id), read_id(form.student_id))
    }
}

} // verus!
