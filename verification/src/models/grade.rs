use crate::error::{agrees, ApiError, Failure};
use crate::field::{
    change, field_failure, grade_field, id_field, keep, keep_or, malformed_failure, optional,
    read_grade, read_id, read_text, required, text_field, Field,
};
use vstd::prelude::*;

verus! {

/// A grade as the store holds it.
#[derive(Debug, PartialEq, Eq)]
pub struct Grade {
    pub id: u128,
    pub student_id: u128,
    pub subject: String,
    pub value: i16,
    pub teacher_id: u128,
    pub created_at: i64,
}

/// A grade to record.
#[derive(Debug, PartialEq, Eq)]
pub struct NewGrade {
    pub student_id: u128,
    pub subject: String,
    pub value: i16,
    pub teacher_id: u128,
}

/// The changes to make to a grade.
#[derive(Debug, PartialEq, Eq)]
pub struct UpdateGrade {
    pub value: Option<i16>,
    pub subject: Option<String>,
}

/// The body of a request to record a grade, as it came.
#[derive(Debug, PartialEq, Eq)]
pub struct NewGradeForm {
    pub student_id: Option<String>,
    pub subject: Option<String>,
    pub value: Option<i64>,
    pub teacher_id: Option<String>,
}

/// The body of a request to update a grade, as it came.
#[derive(Debug, PartialEq, Eq)]
pub struct UpdateGradeForm {
    pub value: Option<i64>,
    pub subject: Option<String>,
}

/// The range of values a grade may take, both ends included.
#[derive(Clone, Copy, Debug, PartialEq, Eq, Structural)]
pub struct GradeScale {
    pub lowest: i16,
    pub highest: i16,
}

impl GradeScale {
    /// The value lies on the scale.
    pub open spec fn holds(self, value: int) -> bool {
        self.lowest <= value <= self.highest
    }

    /// The scale from 0 to 20.
    pub fn twenty() -> (scale: GradeScale)
        ensures
            scale == (GradeScale { lowest: 0, highest: 20 }),
    {
        GradeScale { lowest: 0, highest: 20 }
    }

    /// The scale from 0 to 100.
    pub fn hundred() -> (scale: GradeScale)
        ensures
            scale == (GradeScale { lowest: 0, highest: 100 }),
    {
        GradeScale { lowest: 0, highest: 100 }
    }
}

impl NewGrade {
    /// The grade to record that the fields make, or the error for the first
    /// field, in the order of the parameters, that has no value.
    pub open spec fn checked(
        student_id: Field<u128>,
        subject: Field<String>,
        value: Field<i16>,
        teacher_id: Field<u128>,
    ) -> Result<NewGrade, Failure> {
        if !(student_id is Given) {
            Err(field_failure(student_id, "student_id"@))
        } else if !(subject is Given) {
            Err(field_failure(subject, "subject"@))
        } else if !(value is Given) {
            Err(field_failure(value, "value"@))
        } else if !(teacher_id is Given) {
            Err(field_failure(teacher_id, "teacher_id"@))
        } else {
            Ok(
                NewGrade {
                    student_id: student_id->Given_0,
                    subject: subject->Given_0,
                    value: value->Given_0,
                    teacher_id: teacher_id->Given_0,
                },
            )
        }
    }

    /// What [`NewGrade::validate`] makes of a form.
    pub open spec fn of_form(form: NewGradeForm, scale: GradeScale) -> Result<NewGrade, Failure> {
        NewGrade::checked(
            id_field(form.student_id),
            text_field(form.subject),
            grade_field(form.value, scale),
            id_field(form.teacher_id),
        )
    }

    /// Computes [`NewGrade::checked`].
    pub fn from_fields(
        student_id: Field<u128>,
        subject: Field<String>,
        value: Field<i16>,
        teacher_id: Field<u128>,
    ) -> (r: Result<NewGrade, ApiError>)
        ensures
            agrees(NewGrade::checked(student_id, subject, value, teacher_id), r),
    {
        let student_id = required(student_id, "student_id")?;
        let subject = required(subject, "subject")?;
        let value = required(value, "value")?;
        let teacher_id = required(teacher_id, "teacher_id")?;
        Ok(NewGrade { student_id, subject, value, teacher_id })
    }

    /// Validates the body of a request to record a grade: every field is
    /// required and the value must lie on the scale.
    pub fn validate(form: NewGradeForm, scale: GradeScale) -> (r: Result<NewGrade, ApiError>)
        ensures
            agrees(NewGrade::of_form(form, scale), r),
            r matches Ok(grade) ==> scale.holds(grade.value as int),
    {
        NewGrade::from_fields(
            read_id(form.student_id),
            read_text(form.subject),
            read_grade(form.value, scale),
            read_id(form.teacher_id),
        )
    }
}

impl UpdateGrade {
    /// The changes that the fields make, or the error for the first field that
    /// is malformed.
    pub open spec fn checked(value: Field<i16>, subject: Field<String>) -> Result<
        UpdateGrade,
        Failure,
    > {
        if value is Malformed {
            Err(malformed_failure("value"@))
        } else if subject is Malformed {
            Err(malformed_failure("subject"@))
        } else {
            Ok(UpdateGrade { value: change(value), subject: change(subject) })
        }
    }

    /// What [`UpdateGrade::validate`] makes of a form.
    pub open spec fn of_form(form: UpdateGradeForm, scale: GradeScale) -> Result<
        UpdateGrade,
        Failure,
    > {
        UpdateGrade::checked(grade_field(form.value, scale), text_field(form.subject))
    }

    /// Computes [`UpdateGrade::checked`].
    pub fn from_fields(value: Field<i16>, subject: Field<String>) -> (r: Result<
        UpdateGrade,
        ApiError,
    >)
        ensures
            agrees(UpdateGrade::checked(value, subject), r),
    {
        let value = optional(value, "value")?;
        let subject = optional(subject, "subject")?;
        Ok(UpdateGrade { value, subject })
    }

    /// Validates the body of a request to update a grade: a value that is
    /// given must lie on the scale.
    pub fn validate(form: UpdateGradeForm, scale: GradeScale) -> (r: Result<UpdateGrade, ApiError>)
        ensures
            agrees(UpdateGrade::of_form(form, scale), r),
            r matches Ok(UpdateGrade { value: Some(value), .. }) ==> scale.holds(value as int),
    {
        UpdateGrade::from_fields(read_grade(form.value, scale), read_text(form.subject))
    }

    /// The grade after the changes: value and subject take their new values
    /// where the changes name them, every other field keeps the one it had.
    pub open spec fn merged(self, current: Grade) -> Grade {
        Grade {
            id: current.id,
            student_id: current.student_id,
            subject: keep(self.subject, current.subject),
            value: keep(self.value, current.value),
            teacher_id: current.teacher_id,
            created_at: current.created_at,
        }
    }

    /// Computes [`UpdateGrade::merged`].
    pub fn apply(self, current: Grade) -> (r: Grade)
        ensures
            r == self.merged(current),
    {
        Grade {
            id: current.id,
            student_id: current.student_id,
            subject: keep_or(self.subject, current.subject),
            value: keep_or(self.value, current.value),
            teacher_id: current.teacher_id,
            created_at: current.created_at,
        }
    }
}

} // verus!
