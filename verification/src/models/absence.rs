use crate::date::Date;
use crate::error::{agrees, ApiError, Failure};
use crate::field::{
    change, date_field, field_failure, id_field, keep, keep_or, malformed_failure, optional,
    read_date, read_id, read_text, required, text_field, Field,
};
use vstd::prelude::*;

verus! {

/// An absence as the store holds it.
#[derive(Debug, PartialEq, Eq)]
pub struct Absence {
    pub id: u128,
    pub student_id: u128,
    pub date: Date,
    pub reason: Option<String>,
    pub created_at: i64,
}

/// An absence to record.
#[derive(Debug, PartialEq, Eq)]
pub struct NewAbsence {
    pub student_id: u128,
    pub date: Date,
    pub reason: Option<String>,
}

/// The changes to make to an absence. A reason that is `None` is left as it
/// is: the changes cannot take a reason away.
#[derive(Debug, PartialEq, Eq)]
pub struct UpdateAbsence {
    pub date: Option<Date>,
    pub reason: Option<String>,
}

/// The body of a request to record an absence, as it came.
#[derive(Debug, PartialEq, Eq)]
pub struct NewAbsenceForm {
    pub student_id: Option<String>,
    pub date: Option<String>,
    pub reason: Option<String>,
}

/// The body of a request to update an absence, as it came.
#[derive(Debug, PartialEq, Eq)]
pub struct UpdateAbsenceForm {
    pub date: Option<String>,
    pub reason: Option<String>,
}

impl NewAbsence {
    /// The absence to record that the fields make, or the error for the first
    /// field, in the order of the parameters, that has no value where one is
    /// required. The reason may be left out.
    pub open spec fn checked(
        student_id: Field<u128>,
        date: Field<Date>,
        reason: Field<String>,
    ) -> Result<NewAbsence, Failure> {
        if !(student_id is Given) {
            Err(field_failure(student_id, "student_id"@))
        } else if !(date is Given) {
            Err(field_failure(date, "date"@))
        } else if reason is Malformed {
            Err(malformed_failure("reason"@))
        } else {
            Ok(
                NewAbsence {
                    student_id: student_id->Given_0,
                    date: date->Given_0,
                    reason: change(reason),
                },
            )
        }
    }

    /// What [`NewAbsence::validate`] makes of a form.
    pub open spec fn of_form(form: NewAbsenceForm) -> Result<NewAbsence, Failure> {
        NewAbsence::checked(
            id_field(form.student_id),
            date_field(form.date),
            text_field(form.reason),
        )
    }

    /// Computes [`NewAbsence::checked`].
    pub fn from_fields(student_id: Field<u128>, date: Field<Date>, reason: Field<String>) -> (r:
        Result<NewAbsence, ApiError>)
        ensures
            agrees(NewAbsence::checked(student_id, date, reason), r),
    {
        let student_id = required(student_id, "student_id")?;
        let date = required(date, "date")?;
        let reason = optional(reason, "reason")?;
        Ok(NewAbsence { student_id, date, reason })
    }

    /// Validates the body of a request to record an absence: the student and
    /// the date are required, and the date must be a calendar date.
    pub fn validate(form: NewAbsenceForm) -> (r: Result<NewAbsence, ApiError>)
        ensures
            agrees(NewAbsence::of_form(form), r),
            r matches Ok(absence) ==> absence.date.valid(),
    {
        NewAbsence::from_fields(
            read_id(form.student_id),
            read_date(form.date),
            read_text(form.reason),
        )
    }
}

impl UpdateAbsence {
    /// The changes that the fields make, or the error for the first field that
    /// is malformed.
    pub open spec fn checked(date: Field<Date>, reason: Field<String>) -> Result<
        UpdateAbsence,
        Failure,
    > {
        if date is Malformed {
            Err(malformed_failure("date"@))
        } else if reason is Malformed {
            Err(malformed_failure("reason"@))
        } else {
            Ok(UpdateAbsence { date: change(date), reason: change(reason) })
        }
    }

    /// What [`UpdateAbsence::validate`] makes of a form.
    pub open spec fn of_form(form: UpdateAbsenceForm) -> Result<UpdateAbsence, Failure> {
        UpdateAbsence::checked(date_field(form.date), text_field(form.reason))
    }

    /// Computes [`UpdateAbsence::checked`].
    pub fn from_fields(date: Field<Date>, reason: Field<String>) -> (r: Result<
        UpdateAbsence,
        ApiError,
    >)
        ensures
            agrees(UpdateAbsence::checked(date, reason), r),
    {
        let date = optional(date, "date")?;
        let reason = optional(reason, "reason")?;
        Ok(UpdateAbsence { date, reason })
    }

    /// Validates the body of a request to update an absence: a date that is
    /// given must be a calendar date.
    pub fn validate(form: UpdateAbsenceForm) -> (r: Result<UpdateAbsence, ApiError>)
        ensures
            agrees(UpdateAbsence::of_form(form), r),
            r matches Ok(UpdateAbsence { date: Some(date), .. }) ==> date.valid(),
    {
        UpdateAbsence::from_fields(read_date(form.date), read_text(form.reason))
    }

    /// The absence after the changes: date and reason take their new values
    /// where the changes name them, every other field keeps the one it had.
    pub open spec fn merged(self, current: Absence) -> Absence {
        Absence {
            id: current.id,
            student_id: current.student_id,
            date: keep(self.date, current.date),
            reason: match self.reason {
                Some(reason) => Some(reason),
                None => current.reason,
            },
            created_at: current.created_at,
        }
    }

    /// Computes [`UpdateAbsence::merged`].
    pub fn apply(self, current: Absence) -> (r: Absence)
        ensures
            r == self.merged(current),
    {
        Absence {
            id: current.id,
            student_id: current.student_id,
            date: keep_or(self.date, current.date),
            reason: match self.reason {
                Some(reason) => Some(reason),
                None => current.reason,
            },
            created_at: current.created_at,
        }
    }
}

} // verus!
