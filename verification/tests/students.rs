use gradebook::error::{ApiError, ErrorKind};
use gradebook::models::student::Student;
use gradebook::models::user::{Role, User};
use gradebook::services::listing::{ListEvent, ListState};
use gradebook::services::students::{get_student, ReadAction};
use gradebook::storage::{FailureKind, StorageFailure};
use gradebook::visibility::{ReadPolicy, Visibility};

fn reading_user(id: u128, role: Role) -> User {
    User {
        id,
        email: String::from("someone@example.org"),
        hashed_password: String::from("x"),
        role,
        first_name: String::from("Some"),
        last_name: String::from("One"),
        created_at: 0,
    }
}

fn reading_student(id: u128, user_id: u128) -> Student {
    Student {
        id,
        user_id,
        class: String::from("3B"),
        created_at: 0,
        first_name: Some(String::from("Ada")),
        last_name: Some(String::from("Lovelace")),
        email: Some(String::from("ada@example.org")),
    }
}

fn reading_missing() -> ApiError {
    ApiError { kind: ErrorKind::NotFound, message: String::from("Student not found") }
}

#[test]
fn every_role_reads_any_student_under_the_permissive_policy() {
    for role in [Role::Admin, Role::Director, Role::Teacher, Role::Parent, Role::Student] {
        let caller = reading_user(5, role);
        let (state, action) =
            get_student(ReadPolicy::Permissive, &caller, 10, ListState::Start, ListEvent::Begin);
        assert_eq!(state, ListState::AwaitingRows(Visibility::All));
        assert_eq!(action, ReadAction::FindStudent { id: 10 });
        let rows = vec![reading_student(10, 7)];
        let (state, action) =
            get_student(ReadPolicy::Permissive, &caller, 10, state, ListEvent::Rows(Ok(rows)));
        assert_eq!(state, ListState::Done);
        assert_eq!(action, ReadAction::Finish(Ok(reading_student(10, 7))));
    }
}

#[test]
fn a_student_that_is_absent_is_not_found() {
    let caller = reading_user(5, Role::Teacher);
    let (state, _) =
        get_student(ReadPolicy::Permissive, &caller, 10, ListState::Start, ListEvent::Begin);
    let (state, action) =
        get_student(ReadPolicy::Permissive, &caller, 10, state, ListEvent::Rows(Ok(vec![])));
    assert_eq!(state, ListState::Done);
    assert_eq!(action, ReadAction::Finish(Err(reading_missing())));
    assert_eq!(reading_missing().status_code(), 404);
}

#[test]
fn the_student_with_the_identifier_is_the_one_answered() {
    let caller = reading_user(5, Role::Admin);
    let rows = vec![reading_student(9, 6), reading_student(10, 7), reading_student(10, 8)];
    let (_, action) = get_student(
        ReadPolicy::RowLevel,
        &caller,
        10,
        ListState::AwaitingRows(Visibility::All),
        ListEvent::Rows(Ok(rows)),
    );
    assert_eq!(action, ReadAction::Finish(Ok(reading_student(10, 7))));
    let (_, action) = get_student(
        ReadPolicy::RowLevel,
        &caller,
        11,
        ListState::AwaitingRows(Visibility::All),
        ListEvent::Rows(Ok(vec![reading_student(9, 6), reading_student(10, 7)])),
    );
    assert_eq!(action, ReadAction::Finish(Err(reading_missing())));
}

#[test]
fn a_parent_reads_a_linked_student_under_the_row_level_policy() {
    let parent = reading_user(5, Role::Parent);
    let (state, action) =
        get_student(ReadPolicy::RowLevel, &parent, 10, ListState::Start, ListEvent::Begin);
    assert_eq!(state, ListState::AwaitingLinks);
    assert_eq!(action, ReadAction::FindLinkedStudents { parent_id: 5 });
    let (state, action) = get_student(
        ReadPolicy::RowLevel,
        &parent,
        10,
        state,
        ListEvent::LinkedStudents(Ok(vec![12, 10])),
    );
    assert_eq!(state, ListState::AwaitingRows(Visibility::Only(vec![12, 10])));
    assert_eq!(action, ReadAction::FindStudent { id: 10 });
    let (state, action) = get_student(
        ReadPolicy::RowLevel,
        &parent,
        10,
        state,
        ListEvent::Rows(Ok(vec![reading_student(10, 7)])),
    );
    assert_eq!(state, ListState::Done);
    assert_eq!(action, ReadAction::Finish(Ok(reading_student(10, 7))));
}

#[test]
fn a_parent_is_not_told_of_a_student_that_is_not_linked() {
    let parent = reading_user(5, Role::Parent);
    let (state, _) =
        get_student(ReadPolicy::RowLevel, &parent, 10, ListState::Start, ListEvent::Begin);
    let (state, action) = get_student(
        ReadPolicy::RowLevel,
        &parent,
        10,
        state,
        ListEvent::LinkedStudents(Ok(vec![11, 12])),
    );
    assert_eq!(state, ListState::Done);
    assert_eq!(action, ReadAction::Finish(Err(reading_missing())));
    let (state, _) =
        get_student(ReadPolicy::RowLevel, &parent, 10, ListState::Start, ListEvent::Begin);
    let (state, action) =
        get_student(ReadPolicy::RowLevel, &parent, 10, state, ListEvent::LinkedStudents(Ok(vec![])));
    assert_eq!(state, ListState::Done);
    assert_eq!(action, ReadAction::Finish(Err(reading_missing())));
}

#[test]
fn a_row_out_of_sight_is_dropped_even_if_the_store_hands_it_back() {
    let parent = reading_user(5, Role::Parent);
    let (_, action) = get_student(
        ReadPolicy::RowLevel,
        &parent,
        10,
        ListState::AwaitingRows(Visibility::Only(vec![11])),
        ListEvent::Rows(Ok(vec![reading_student(10, 7)])),
    );
    assert_eq!(action, ReadAction::Finish(Err(reading_missing())));
}

#[test]
fn a_student_reads_their_own_record_under_the_row_level_policy() {
    let student = reading_user(7, Role::Student);
    let (state, action) =
        get_student(ReadPolicy::RowLevel, &student, 10, ListState::Start, ListEvent::Begin);
    assert_eq!(state, ListState::AwaitingStudent);
    assert_eq!(action, ReadAction::FindOwnStudent { user_id: 7 });
    let (state, action) =
        get_student(ReadPolicy::RowLevel, &student, 10, state, ListEvent::OwnStudent(Ok(Some(10))));
    assert_eq!(action, ReadAction::FindStudent { id: 10 });
    let (_, action) = get_student(
        ReadPolicy::RowLevel,
        &student,
        10,
        state,
        ListEvent::Rows(Ok(vec![reading_student(10, 7)])),
    );
    assert_eq!(action, ReadAction::Finish(Ok(reading_student(10, 7))));
}

#[test]
fn a_student_is_not_told_of_another_students_record() {
    let student = reading_user(7, Role::Student);
    let (state, _) =
        get_student(ReadPolicy::RowLevel, &student, 11, ListState::Start, ListEvent::Begin);
    let (state, action) =
        get_student(ReadPolicy::RowLevel, &student, 11, state, ListEvent::OwnStudent(Ok(Some(10))));
    assert_eq!(state, ListState::Done);
    assert_eq!(action, ReadAction::Finish(Err(reading_missing())));
    let (state, _) =
        get_student(ReadPolicy::RowLevel, &student, 11, ListState::Start, ListEvent::Begin);
    let (state, action) =
        get_student(ReadPolicy::RowLevel, &student, 11, state, ListEvent::OwnStudent(Ok(None)));
    assert_eq!(state, ListState::Done);
    assert_eq!(action, ReadAction::Finish(Err(reading_missing())));
}

#[test]
fn staff_read_any_student_under_the_row_level_policy() {
    for role in [Role::Admin, Role::Director, Role::Teacher] {
        let caller = reading_user(5, role);
        let (state, action) =
            get_student(ReadPolicy::RowLevel, &caller, 10, ListState::Start, ListEvent::Begin);
        assert_eq!(state, ListState::AwaitingRows(Visibility::All));
        assert_eq!(action, ReadAction::FindStudent { id: 10 });
    }
}

#[test]
fn a_failure_of_the_store_ends_the_reading() {
    let caller = reading_user(5, Role::Parent);
    let failure = StorageFailure { kind: FailureKind::Other, detail: String::from("broken") };
    let (state, action) = get_student(
        ReadPolicy::RowLevel,
        &caller,
        10,
        ListState::AwaitingLinks,
        ListEvent::LinkedStudents(Err(failure)),
    );
    assert_eq!(state, ListState::Done);
    assert_eq!(
        action,
        ReadAction::Finish(Err(ApiError {
            kind: ErrorKind::Internal,
            message: String::from("broken")
        }))
    );
    let failure =
        StorageFailure { kind: FailureKind::PoolTimedOut, detail: String::from("timed out") };
    let (_, action) = get_student(
        ReadPolicy::Permissive,
        &caller,
        10,
        ListState::AwaitingRows(Visibility::All),
        ListEvent::Rows(Err(failure)),
    );
    assert_eq!(
        action,
        ReadAction::Finish(Err(ApiError {
            kind: ErrorKind::Unavailable,
            message: String::from("timed out")
        }))
    );
}

#[test]
fn an_answer_out_of_turn_ends_the_reading() {
    let caller = reading_user(5, Role::Teacher);
    let (state, action) = get_student(
        ReadPolicy::Permissive,
        &caller,
        10,
        ListState::Start,
        ListEvent::Rows(Ok(vec![reading_student(10, 7)])),
    );
    assert_eq!(state, ListState::Done);
    assert_eq!(
        action,
        ReadAction::Finish(Err(ApiError {
            kind: ErrorKind::Internal,
            message: String::from("Unexpected reply from the store")
        }))
    );
    let (_, action) =
        get_student(ReadPolicy::Permissive, &caller, 10, ListState::Done, ListEvent::Begin);
    assert!(matches!(action, ReadAction::Finish(Err(ApiError { kind: ErrorKind::Internal, .. }))));
}
