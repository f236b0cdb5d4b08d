use crate::date::{date_from_str, date_of_text, Date};
use crate::error::{ApiError, ErrorKind, Failure};
use crate::ident::{uuid_from_str, uuid_of_text};
use crate::models::grade::GradeScale;
use crate::models::user::Role;
use crate::text::{is_well_formed_email, well_formed_email};
use vstd::prelude::*;

verus! {

/// One field of a request body, after reading: absent, present but not of the
/// shape the field must have, or present with its value.
#[derive(Debug, PartialEq, Eq)]
pub enum Field<T> {
    Missing,
    Malformed,
    Given(T),
}

/// The error for a required field that is absent.
pub open spec fn required_failure(name: Seq<char>) -> Failure {
    Failure { kind: ErrorKind::Validation, message: name + " is required"@ }
}

/// The error for a field that is present but malformed.
pub open spec fn malformed_failure(name: Seq<char>) -> Failure {
    Failure { kind: ErrorKind::Validation, message: name + " is malformed"@ }
}

/// The error that a field gives where a value is required of it.
pub open spec fn field_failure<T>(field: Field<T>, name: Seq<char>) -> Failure {
    if field is Missing {
        required_failure(name)
    } else {
        malformed_failure(name)
    }
}

/// `r` is what a required field gives: its value, or the error that names it.
pub open spec fn is_required<T>(field: Field<T>, name: Seq<char>, r: Result<T, ApiError>) -> bool {
    match field {
        Field::Given(value) => r == Ok::<T, ApiError>(value),
        Field::Missing => r is Err && r->Err_0@ == required_failure(name),
        Field::Malformed => r is Err && r->Err_0@ == malformed_failure(name),
    }
}

/// `r` is what an optional field gives: its value if there is one, nothing if
/// it is absent, or the error that names it if it is malformed.
pub open spec fn is_optional<T>(
    field: Field<T>,
    name: Seq<char>,
    r: Result<Option<T>, ApiError>,
) -> bool {
    match field {
        Field::Given(value) => r == Ok::<Option<T>, ApiError>(Some(value)),
        Field::Missing => r == Ok::<Option<T>, ApiError>(None),
        Field::Malformed => r is Err && r->Err_0@ == malformed_failure(name),
    }
}

/// The value of a field that must be there.
pub fn required<T>(field: Field<T>, name: &str) -> (r: Result<T, ApiError>)
    ensures
        is_required(field, name@, r),
{
    match field {
        Field::Given(value) => Ok(value),
        Field::Missing => Err(ApiError::joined(ErrorKind::Validation, name, " is required")),
        Field::Malformed => Err(ApiError::joined(ErrorKind::Validation, name, " is malformed")),
    }
}

/// The value of a field that may be left out.
pub fn optional<T>(field: Field<T>, name: &str) -> (r: Result<Option<T>, ApiError>)
    ensures
        is_optional(field, name@, r),
{
    match field {
        Field::Given(value) => Ok(Some(value)),
        Field::Missing => Ok(None),
        Field::Malformed => Err(ApiError::joined(ErrorKind::Validation, name, " is malformed")),
    }
}

/// A text field: any text will do.
pub open spec fn text_field(raw: Option<String>) -> Field<String> {
    match raw {
        None => Field::Missing,
        Some(text) => Field::Given(text),
    }
}

/// An address field: the text must be a well-formed address.
pub open spec fn email_field(raw: Option<String>) -> Field<String> {
    match raw {
        None => Field::Missing,
        Some(text) => if well_formed_email(text@) {
            Field::Given(text)
        } else {
            Field::Malformed
        },
    }
}

/// A role field: the text must name one of the roles.
pub open spec fn role_field(raw: Option<String>) -> Field<Role> {
    match raw {
        None => Field::Missing,
        Some(text) => match Role::of_name(text@) {
            Some(role) => Field::Given(role),
            None => Field::Malformed,
        },
    }
}

/// A grade field: the number must lie on the scale.
pub open spec fn grade_field(raw: Option<i64>, scale: GradeScale) -> Field<i16> {
    match raw {
        None => Field::Missing,
        Some(value) => if scale.holds(value as int) {
            Field::Given(value as i16)
        } else {
            Field::Malformed
        },
    }
}

/// An identifier field, from what the text was read as.
pub open spec fn parsed_field<T>(raw: Option<String>, parsed: Option<T>) -> Field<T> {
    match raw {
        None => Field::Missing,
        Some(_) => match parsed {
            Some(value) => Field::Given(value),
            None => Field::Malformed,
        },
    }
}

/// An identifier field: the text must denote an identifier.
pub open spec fn id_field(raw: Option<String>) -> Field<u128> {
    match raw {
        None => Field::Missing,
        Some(text) => parsed_field(raw, uuid_of_text(text@)),
    }
}

/// A date field: the text must denote a calendar date.
pub open spec fn date_field(raw: Option<String>) -> Field<Date> {
    match raw {
        None => Field::Missing,
        Some(text) => parsed_field(raw, date_of_text(text@)),
    }
}

/// Computes [`text_field`].
pub fn read_text(raw: Option<String>) -> (field: Field<String>)
    ensures
        field == text_field(raw),
{
    match raw {
        None => Field::Missing,
        Some(text) => Field::Given(text),
    }
}

/// Computes [`email_field`].
pub fn read_email(raw: Option<String>) -> (field: Field<String>)
    ensures
        field == email_field(raw),
{
    match raw {
        None => Field::Missing,
        Some(text) => if is_well_formed_email(text.as_str()) {
            Field::Given(text)
        } else {
            Field::Malformed
        },
    }
}

/// Computes [`role_field`].
pub fn read_role(raw: Option<String>) -> (field: Field<Role>)
    ensures
        field == role_field(raw),
{
    match raw {
        None => Field::Missing,
        Some(text) => match Role::from_name(text.as_str()) {
            Some(role) => Field::Given(role),
            None => Field::Malformed,
        },
    }
}

/// Computes [`grade_field`].
pub fn read_grade(raw: Option<i64>, scale: GradeScale) -> (field: Field<i16>)
    ensures
        field == grade_field(raw, scale),
{
    match raw {
        None => Field::Missing,
        Some(value) => if scale.lowest as i64 <= value && value <= scale.highest as i64 {
            Field::Given(value as i16)
        } else {
            Field::Malformed
        },
    }
}

/// Computes [`parsed_field`].
pub fn read_parsed<T>(raw: &Option<String>, parsed: Option<T>) -> (field: Field<T>)
    ensures
        field == parsed_field(*raw, parsed),
{
    match raw {
        None => Field::Missing,
        Some(_) => match parsed {
            Some(value) => Field::Given(value),
            None => Field::Malformed,
        },
    }
}

/// Computes [`id_field`].
pub fn read_id(raw: Option<String>) -> (field: Field<u128>)
    ensures
        field == id_field(raw),
{
    match &raw {
        None => Field::Missing,
        Some(text) => {
            let parsed = uuid_from_str(text.as_str());
            read_parsed(&raw, parsed)
        },
    }
}

/// Computes [`date_field`]. A date that was read exists in the calendar.
pub fn read_date(raw: Option<String>) -> (field: Field<Date>)
    ensures
        field == date_field(raw),
        field matches Field::Given(date) ==> date.valid(),
{
    match &raw {
        None => Field::Missing,
        Some(text) => {
            let parsed = date_from_str(text.as_str());
            read_parsed(&raw, parsed)
        },
    }
}

/// What an optional field gives to a set of changes.
pub open spec fn change<T>(field: Field<T>) -> Option<T> {
    match field {
        Field::Given(value) => Some(value),
        _ => None,
    }
}

/// The new value where a change names one, the current value where not.
pub open spec fn keep<T>(change: Option<T>, current: T) -> T {
    match change {
        Some(value) => value,
        None => current,
    }
}

/// Computes [`keep`].
pub fn keep_or<T>(change: Option<T>, current: T) -> (r: T)
    ensures
        r == keep(change, current),
{
    match change {
        Some(value) => value,
        None => current,
    }
}

} // verus!
