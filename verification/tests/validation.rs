use gradebook::date::Date;
use gradebook::error::ErrorKind;
use gradebook::field::{
    optional, read_date, read_email, read_grade, read_id, read_role, read_text, required, Field,
};
use gradebook::models::absence::{NewAbsence, NewAbsenceForm, UpdateAbsence, UpdateAbsenceForm};
use gradebook::models::grade::{GradeScale, NewGrade, NewGradeForm, UpdateGrade, UpdateGradeForm};
use gradebook::models::parent_student::{LinkParentStudent, LinkParentStudentForm};
use gradebook::models::student::{NewStudent, NewStudentForm, UpdateStudent, UpdateStudentForm};
use gradebook::models::user::{NewUser, NewUserForm, Role, UpdateUser, UpdateUserForm};
use gradebook::text::{is_well_formed_email, same_text};

fn text(s: &str) -> Option<String> {
    Some(String::from(s))
}

const STUDENT: &str = "550e8400-e29b-41d4-a716-446655440000";

const STUDENT_ID: u128 = 0x550e8400_e29b_41d4_a716_446655440000;

const TEACHER: &str = "6ba7b8109dad11d180b400c04fd430c8";

const TEACHER_ID: u128 = 0x6ba7b810_9dad_11d1_80b4_00c04fd430c8;

fn user_form() -> NewUserForm {
    NewUserForm {
        email: text("ada@example.org"),
        password: text("s3cret"),
        role: text("teacher"),
        first_name: text("Ada"),
        last_name: text("Lovelace"),
    }
}

#[test]
fn texts_compare_by_their_characters() {
    assert!(same_text("admin", "admin"));
    assert!(!same_text("admin", "Admin"));
    assert!(!same_text("admin", "admin "));
    assert!(same_text("", ""));
}

#[test]
fn well_formed_addresses_are_accepted() {
    assert!(is_well_formed_email("ada@example.org"));
    assert!(is_well_formed_email("a@b"));
    assert!(is_well_formed_email("first.last+tag@sub.example.org"));
}

#[test]
fn malformed_addresses_are_refused() {
    assert!(!is_well_formed_email(""));
    assert!(!is_well_formed_email("@"));
    assert!(!is_well_formed_email("ada"));
    assert!(!is_well_formed_email("@example.org"));
    assert!(!is_well_formed_email("ada@"));
    assert!(!is_well_formed_email("ada@@example.org"));
    assert!(!is_well_formed_email("ada@example@org"));
    assert!(!is_well_formed_email("ada lovelace@example.org"));
    assert!(!is_well_formed_email("ada@example.org\n"));
    assert!(!is_well_formed_email("adä@example.org"));
}

#[test]
fn roles_are_read_from_their_lower_case_names() {
    assert_eq!(Role::from_name("admin"), Some(Role::Admin));
    assert_eq!(Role::from_name("director"), Some(Role::Director));
    assert_eq!(Role::from_name("teacher"), Some(Role::Teacher));
    assert_eq!(Role::from_name("parent"), Some(Role::Parent));
    assert_eq!(Role::from_name("student"), Some(Role::Student));
}

#[test]
fn unknown_roles_are_refused() {
    assert_eq!(Role::from_name("Admin"), None);
    assert_eq!(Role::from_name("janitor"), None);
    assert_eq!(Role::from_name(""), None);
    assert_eq!(Role::from_name("admin "), None);
}

#[test]
fn roles_are_read_back_from_their_names() {
    for role in [Role::Admin, Role::Director, Role::Teacher, Role::Parent, Role::Student] {
        assert_eq!(Role::from_name(role.as_str()), Some(role));
    }
    assert_eq!(Role::Teacher.as_label(), "Teacher");
    assert_eq!(Role::Admin.as_str(), "admin");
}

#[test]
fn identifiers_are_read_in_every_notation() {
    assert_eq!(read_id(text(STUDENT)), Field::Given(STUDENT_ID));
    assert_eq!(read_id(text(TEACHER)), Field::Given(TEACHER_ID));
    assert_eq!(
        read_id(text("urn:uuid:550e8400-e29b-41d4-a716-446655440000")),
        Field::Given(STUDENT_ID)
    );
    assert_eq!(
        read_id(text("{550E8400-E29B-41D4-A716-446655440000}")),
        Field::Given(STUDENT_ID)
    );
    assert_eq!(read_id(text("00000000-0000-0000-0000-000000000000")), Field::Given(0));
}

#[test]
fn texts_that_are_no_identifier_are_malformed() {
    assert_eq!(read_id(text("")), Field::Malformed);
    assert_eq!(read_id(text("42")), Field::Malformed);
    assert_eq!(read_id(text("550e8400-e29b-41d4-a716-44665544000")), Field::Malformed);
    assert_eq!(read_id(text("550e8400-e29b-41d4-a716-44665544000g")), Field::Malformed);
    assert_eq!(read_id(None), Field::Missing);
}

#[test]
fn dates_are_read_as_year_month_and_day() {
    assert_eq!(read_date(text("2024-02-29")), Field::Given(Date { year: 2024, month: 2, day: 29 }));
    assert_eq!(read_date(text("1999-12-31")), Field::Given(Date { year: 1999, month: 12, day: 31 }));
    assert_eq!(Date::parse("2023-09-01"), Some(Date { year: 2023, month: 9, day: 1 }));
}

#[test]
fn texts_that_are_no_date_are_malformed() {
    assert_eq!(read_date(text("2023-02-29")), Field::Malformed);
    assert_eq!(read_date(text("2023-13-01")), Field::Malformed);
    assert_eq!(read_date(text("2023-04-31")), Field::Malformed);
    assert_eq!(read_date(text("yesterday")), Field::Malformed);
    assert_eq!(read_date(text("")), Field::Malformed);
    assert_eq!(read_date(None), Field::Missing);
    assert_eq!(Date::parse("2023-00-10"), None);
}

#[test]
fn every_date_that_is_read_can_be_built() {
    for written in ["2024-02-29", "1970-01-01", "2100-02-28", "0001-01-01", "9999-12-31"] {
        let date = Date::parse(written).unwrap();
        assert_eq!(Date::new(date.year, date.month, date.day), Some(date));
    }
}

#[test]
fn grades_are_held_to_the_scale() {
    let scale = GradeScale::twenty();
    assert_eq!(scale, GradeScale { lowest: 0, highest: 20 });
    assert_eq!(read_grade(Some(0), scale), Field::Given(0));
    assert_eq!(read_grade(Some(20), scale), Field::Given(20));
    assert_eq!(read_grade(Some(21), scale), Field::Malformed);
    assert_eq!(read_grade(Some(-1), scale), Field::Malformed);
    assert_eq!(read_grade(Some(70_000), scale), Field::Malformed);
    assert_eq!(read_grade(None, scale), Field::Missing);
    let hundred = GradeScale::hundred();
    assert_eq!(hundred, GradeScale { lowest: 0, highest: 100 });
    assert_eq!(read_grade(Some(100), hundred), Field::Given(100));
    assert_eq!(read_grade(Some(101), hundred), Field::Malformed);
}

#[test]
fn fields_are_read_from_what_came() {
    assert_eq!(read_text(text("3B")), Field::Given(String::from("3B")));
    assert_eq!(read_text(None), Field::Missing);
    assert_eq!(read_email(text("ada@example.org")), Field::Given(String::from("ada@example.org")));
    assert_eq!(read_email(text("ada")), Field::Malformed);
    assert_eq!(read_email(None), Field::Missing);
    assert_eq!(read_role(text("parent")), Field::Given(Role::Parent));
    assert_eq!(read_role(text("Parent")), Field::Malformed);
    assert_eq!(read_role(None), Field::Missing);
}

#[test]
fn a_required_field_names_itself_in_its_error() {
    assert_eq!(required(Field::Given(5u8), "value"), Ok(5u8));
    let error = required(Field::<u8>::Missing, "value").unwrap_err();
    assert_eq!(error.kind, ErrorKind::Validation);
    assert_eq!(error.message, "value is required");
    assert_eq!(error.status_code(), 400);
    let error = required(Field::<u8>::Malformed, "value").unwrap_err();
    assert_eq!(error.kind, ErrorKind::Validation);
    assert_eq!(error.message, "value is malformed");
}

#[test]
fn an_optional_field_may_be_left_out() {
    assert_eq!(optional(Field::Given(5u8), "value"), Ok(Some(5u8)));
    assert_eq!(optional(Field::<u8>::Missing, "value"), Ok(None));
    let error = optional(Field::<u8>::Malformed, "value").unwrap_err();
    assert_eq!(error.kind, ErrorKind::Validation);
    assert_eq!(error.message, "value is malformed");
}

#[test]
fn a_complete_user_is_accepted() {
    assert_eq!(
        NewUser::validate(user_form()),
        Ok(NewUser {
            email: String::from("ada@example.org"),
            password: String::from("s3cret"),
            role: Role::Teacher,
            first_name: String::from("Ada"),
            last_name: String::from("Lovelace"),
        })
    );
}

#[test]
fn a_user_without_a_field_is_refused() {
    let error = NewUser::validate(NewUserForm { email: None, ..user_form() }).unwrap_err();
    assert_eq!(error.message, "email is required");
    let error = NewUser::validate(NewUserForm { password: None, ..user_form() }).unwrap_err();
    assert_eq!(error.message, "password is required");
    let error = NewUser::validate(NewUserForm { role: None, ..user_form() }).unwrap_err();
    assert_eq!(error.message, "role is required");
    let error = NewUser::validate(NewUserForm { first_name: None, ..user_form() }).unwrap_err();
    assert_eq!(error.message, "first_name is required");
    let error = NewUser::validate(NewUserForm { last_name: None, ..user_form() }).unwrap_err();
    assert_eq!(error.message, "last_name is required");
    assert_eq!(error.kind, ErrorKind::Validation);
}

#[test]
fn a_user_with_an_unknown_role_is_refused() {
    let error =
        NewUser::validate(NewUserForm { role: text("janitor"), ..user_form() }).unwrap_err();
    assert_eq!(error.kind, ErrorKind::Validation);
    assert_eq!(error.message, "role is malformed");
}

#[test]
fn a_user_with_a_malformed_address_is_refused() {
    let error =
        NewUser::validate(NewUserForm { email: text("ada.example.org"), ..user_form() })
            .unwrap_err();
    assert_eq!(error.kind, ErrorKind::Validation);
    assert_eq!(error.message, "email is malformed");
}

#[test]
fn the_first_bad_field_is_reported() {
    let error = NewUser::validate(NewUserForm {
        email: text("nobody"),
        password: None,
        role: text("janitor"),
        first_name: None,
        last_name: None,
    })
    .unwrap_err();
    assert_eq!(error.message, "email is malformed");
    let error = NewUser::from_fields(
        Field::Given(String::from("a@b")),
        Field::Given(String::from("pw")),
        Field::Malformed,
        Field::Missing,
        Field::Missing,
    )
    .unwrap_err();
    assert_eq!(error.message, "role is malformed");
}

#[test]
fn changes_to_a_user_may_leave_everything_out() {
    let form = UpdateUserForm {
        email: None,
        password: None,
        role: None,
        first_name: None,
        last_name: None,
    };
    assert_eq!(
        UpdateUser::validate(form),
        Ok(UpdateUser { email: None, password: None, role: None, first_name: None, last_name: None })
    );
}

#[test]
fn changes_to_a_user_are_held_to_the_shapes() {
    let form = UpdateUserForm {
        email: text("new@example.org"),
        password: None,
        role: text("director"),
        first_name: None,
        last_name: text("Byron"),
    };
    assert_eq!(
        UpdateUser::validate(form),
        Ok(UpdateUser {
            email: text("new@example.org"),
            password: None,
            role: Some(Role::Director),
            first_name: None,
            last_name: text("Byron"),
        })
    );
    let form = UpdateUserForm {
        email: text("new"),
        password: None,
        role: None,
        first_name: None,
        last_name: None,
    };
    assert_eq!(UpdateUser::validate(form).unwrap_err().message, "email is malformed");
    let form = UpdateUserForm {
        email: None,
        password: None,
        role: text("root"),
        first_name: None,
        last_name: None,
    };
    assert_eq!(UpdateUser::validate(form).unwrap_err().message, "role is malformed");
}

#[test]
fn a_student_needs_its_user_and_its_class() {
    let form = NewStudentForm { user_id: text(STUDENT), class: text("3B") };
    assert_eq!(
        NewStudent::validate(form),
        Ok(NewStudent { user_id: STUDENT_ID, class: String::from("3B") })
    );
    let form = NewStudentForm { user_id: None, class: text("3B") };
    assert_eq!(NewStudent::validate(form).unwrap_err().message, "user_id is required");
    let form = NewStudentForm { user_id: text("nobody"), class: text("3B") };
    assert_eq!(NewStudent::validate(form).unwrap_err().message, "user_id is malformed");
    let form = NewStudentForm { user_id: text(STUDENT), class: None };
    assert_eq!(NewStudent::validate(form).unwrap_err().message, "class is required");
}

#[test]
fn changes_to_a_student_name_the_class_or_nothing() {
    assert_eq!(
        UpdateStudent::validate(UpdateStudentForm { class: text("4A") }),
        Ok(UpdateStudent { class: text("4A") })
    );
    assert_eq!(
        UpdateStudent::validate(UpdateStudentForm { class: None }),
        Ok(UpdateStudent { class: None })
    );
    assert_eq!(
        UpdateStudent::from_fields(Field::Malformed).unwrap_err().message,
        "class is malformed"
    );
}

#[test]
fn a_grade_on_the_scale_is_accepted() {
    let form = NewGradeForm {
        student_id: text(STUDENT),
        subject: text("Mathematics"),
        value: Some(17),
        teacher_id: text(TEACHER),
    };
    assert_eq!(
        NewGrade::validate(form, GradeScale::twenty()),
        Ok(NewGrade {
            student_id: STUDENT_ID,
            subject: String::from("Mathematics"),
            value: 17,
            teacher_id: TEACHER_ID,
        })
    );
}

#[test]
fn a_grade_off_the_scale_or_incomplete_is_refused() {
    let scale = GradeScale::twenty();
    let form = NewGradeForm {
        student_id: text(STUDENT),
        subject: text("Mathematics"),
        value: Some(21),
        teacher_id: text(TEACHER),
    };
    let error = NewGrade::validate(form, scale).unwrap_err();
    assert_eq!(error.kind, ErrorKind::Validation);
    assert_eq!(error.message, "value is malformed");
    let form = NewGradeForm {
        student_id: text(STUDENT),
        subject: text("Mathematics"),
        value: None,
        teacher_id: text(TEACHER),
    };
    assert_eq!(NewGrade::validate(form, scale).unwrap_err().message, "value is required");
    let form = NewGradeForm {
        student_id: text(STUDENT),
        subject: None,
        value: Some(3),
        teacher_id: text(TEACHER),
    };
    assert_eq!(NewGrade::validate(form, scale).unwrap_err().message, "subject is required");
    let form = NewGradeForm {
        student_id: text(STUDENT),
        subject: text("Mathematics"),
        value: Some(3),
        teacher_id: text("x"),
    };
    assert_eq!(NewGrade::validate(form, scale).unwrap_err().message, "teacher_id is malformed");
    let form = NewGradeForm {
        student_id: None,
        subject: text("Mathematics"),
        value: Some(3),
        teacher_id: None,
    };
    assert_eq!(NewGrade::validate(form, scale).unwrap_err().message, "student_id is required");
}

#[test]
fn changes_to_a_grade_are_held_to_the_scale() {
    let scale = GradeScale::hundred();
    assert_eq!(
        UpdateGrade::validate(UpdateGradeForm { value: Some(100), subject: None }, scale),
        Ok(UpdateGrade { value: Some(100), subject: None })
    );
    assert_eq!(
        UpdateGrade::validate(UpdateGradeForm { value: None, subject: text("Physics") }, scale),
        Ok(UpdateGrade { value: None, subject: text("Physics") })
    );
    let error =
        UpdateGrade::validate(UpdateGradeForm { value: Some(101), subject: None }, scale)
            .unwrap_err();
    assert_eq!(error.message, "value is malformed");
    assert_eq!(
        UpdateGrade::from_fields(Field::Missing, Field::Malformed).unwrap_err().message,
        "subject is malformed"
    );
}

#[test]
fn an_absence_needs_its_student_and_a_calendar_date() {
    let form =
        NewAbsenceForm { student_id: text(STUDENT), date: text("2024-03-04"), reason: None };
    assert_eq!(
        NewAbsence::validate(form),
        Ok(NewAbsence {
            student_id: STUDENT_ID,
            date: Date { year: 2024, month: 3, day: 4 },
            reason: None,
        })
    );
    let form = NewAbsenceForm {
        student_id: text(STUDENT),
        date: text("2024-03-04"),
        reason: text("flu"),
    };
    assert_eq!(NewAbsence::validate(form).unwrap().reason, text("flu"));
    let form =
        NewAbsenceForm { student_id: text(STUDENT), date: text("2024-02-30"), reason: None };
    let error = NewAbsence::validate(form).unwrap_err();
    assert_eq!(error.kind, ErrorKind::Validation);
    assert_eq!(error.message, "date is malformed");
    let form = NewAbsenceForm { student_id: text(STUDENT), date: None, reason: None };
    assert_eq!(NewAbsence::validate(form).unwrap_err().message, "date is required");
    let form = NewAbsenceForm { student_id: None, date: text("2024-03-04"), reason: None };
    assert_eq!(NewAbsence::validate(form).unwrap_err().message, "student_id is required");
    assert_eq!(
        NewAbsence::from_fields(
            Field::Given(1),
            Field::Given(Date { year: 2024, month: 3, day: 4 }),
            Field::Malformed
        )
        .unwrap_err()
        .message,
        "reason is malformed"
    );
}

#[test]
fn changes_to_an_absence_are_held_to_the_calendar() {
    assert_eq!(
        UpdateAbsence::validate(UpdateAbsenceForm { date: text("2024-12-24"), reason: None }),
        Ok(UpdateAbsence { date: Some(Date { year: 2024, month: 12, day: 24 }), reason: None })
    );
    assert_eq!(
        UpdateAbsence::validate(UpdateAbsenceForm { date: None, reason: None }),
        Ok(UpdateAbsence { date: None, reason: None })
    );
    let error =
        UpdateAbsence::validate(UpdateAbsenceForm { date: text("24.12.2024"), reason: None })
            .unwrap_err();
    assert_eq!(error.message, "date is malformed");
    assert_eq!(
        UpdateAbsence::from_fields(Field::Missing, Field::Malformed).unwrap_err().message,
        "reason is malformed"
    );
}

#[test]
fn a_link_needs_both_identifiers() {
    let form = LinkParentStudentForm { parent_id: text(TEACHER), student_id: text(STUDENT) };
    assert_eq!(
        LinkParentStudent::validate(form),
        Ok(LinkParentStudent { parent_id: TEACHER_ID, student_id: STUDENT_ID })
    );
    let form = LinkParentStudentForm { parent_id: None, student_id: text(STUDENT) };
    assert_eq!(LinkParentStudent::validate(form).unwrap_err().message, "parent_id is required");
    let form = LinkParentStudentForm { parent_id: text(TEACHER), student_id: text("?") };
    assert_eq!(LinkParentStudent::validate(form).unwrap_err().message, "student_id is malformed");
    let form = LinkParentStudentForm { parent_id: text(TEACHER), student_id: None };
    assert_eq!(LinkParentStudent::validate(form).unwrap_err().message, "student_id is required");
}
