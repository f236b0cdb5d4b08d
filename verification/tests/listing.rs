use gradebook::auth::{Decision, DenyReason, ResourceKind};
use gradebook::date::Date;
use gradebook::error::{ApiError, ErrorKind};
use gradebook::models::absence::Absence;
use gradebook::models::grade::Grade;
use gradebook::models::student::Student;
use gradebook::models::user::{Role, User};
use gradebook::services::listing::{
    list_absences, list_grades, list_step, list_students, ListAction, ListEvent, ListState,
};
use gradebook::storage::{FailureKind, StorageFailure};
use gradebook::visibility::{holds_id, visibility_filter, ReadPolicy, Scope, Visibility};

fn listing_user(id: u128, role: Role) -> User {
    User {
        id,
        email: String::from("someone@example.org"),
        hashed_password: String::from("x"),
        role,
        first_name: String::from("Some"),
        last_name: String::from("One"),
        created_at: 0,
    }
}

fn listing_grade(id: u128, student_id: u128, value: i16) -> Grade {
    Grade { id, student_id, subject: String::from("Mathematics"), value, teacher_id: 900, created_at: 0 }
}

fn listing_absence(id: u128, student_id: u128) -> Absence {
    Absence {
        id,
        student_id,
        date: Date { year: 2024, month: 3, day: 4 },
        reason: None,
        created_at: 0,
    }
}

fn listing_student(id: u128, user_id: u128) -> Student {
    Student {
        id,
        user_id,
        class: String::from("3B"),
        created_at: 0,
        first_name: None,
        last_name: None,
        email: None,
    }
}

fn listing_failure() -> StorageFailure {
    StorageFailure { kind: FailureKind::Other, detail: String::from("connection reset") }
}

#[test]
fn staff_list_every_grade_at_once() {
    for role in [Role::Admin, Role::Director, Role::Teacher] {
        let caller = listing_user(1, role);
        let (state, action) = list_grades(&caller, ListState::Start, ListEvent::Begin);
        assert_eq!(state, ListState::AwaitingRows(Visibility::All));
        assert_eq!(action, ListAction::FindRows(Visibility::All));
        let rows = vec![listing_grade(1, 10, 12), listing_grade(2, 11, 16)];
        let (state, action) = list_grades(&caller, state, ListEvent::Rows(Ok(rows)));
        assert_eq!(state, ListState::Done);
        assert_eq!(
            action,
            ListAction::Finish(Ok(vec![listing_grade(1, 10, 12), listing_grade(2, 11, 16)]))
        );
    }
}

#[test]
fn a_parent_lists_the_grades_of_linked_students() {
    let caller = listing_user(5, Role::Parent);
    let (state, action) = list_grades(&caller, ListState::Start, ListEvent::Begin);
    assert_eq!(state, ListState::AwaitingLinks);
    assert_eq!(action, ListAction::FindLinkedStudents { parent_id: 5 });
    let (state, action) =
        list_grades(&caller, state, ListEvent::LinkedStudents(Ok(vec![10, 12])));
    assert_eq!(state, ListState::AwaitingRows(Visibility::Only(vec![10, 12])));
    assert_eq!(action, ListAction::FindRows(Visibility::Only(vec![10, 12])));
    let rows = vec![
        listing_grade(1, 10, 12),
        listing_grade(2, 11, 16),
        listing_grade(3, 12, 20),
        listing_grade(4, 10, 8),
    ];
    let (state, action) = list_grades(&caller, state, ListEvent::Rows(Ok(rows)));
    assert_eq!(state, ListState::Done);
    assert_eq!(
        action,
        ListAction::Finish(Ok(vec![
            listing_grade(1, 10, 12),
            listing_grade(3, 12, 20),
            listing_grade(4, 10, 8)
        ]))
    );
}

#[test]
fn a_parent_without_children_gets_an_empty_list_of_grades() {
    let caller = listing_user(5, Role::Parent);
    let (state, _) = list_grades(&caller, ListState::Start, ListEvent::Begin);
    let (state, action) = list_grades(&caller, state, ListEvent::LinkedStudents(Ok(vec![])));
    assert_eq!(state, ListState::Done);
    assert_eq!(action, ListAction::Finish(Ok(vec![])));
}

#[test]
fn a_parent_without_children_gets_an_empty_list_of_absences() {
    let caller = listing_user(5, Role::Parent);
    let (state, action) = list_absences(&caller, ListState::Start, ListEvent::Begin);
    assert_eq!(action, ListAction::FindLinkedStudents { parent_id: 5 });
    let (state, action) = list_absences(&caller, state, ListEvent::LinkedStudents(Ok(vec![])));
    assert_eq!(state, ListState::Done);
    assert_eq!(action, ListAction::Finish(Ok(vec![])));
}

#[test]
fn a_student_lists_their_own_grades() {
    let caller = listing_user(7, Role::Student);
    let (state, action) = list_grades(&caller, ListState::Start, ListEvent::Begin);
    assert_eq!(state, ListState::AwaitingStudent);
    assert_eq!(action, ListAction::FindOwnStudent { user_id: 7 });
    let (state, action) = list_grades(&caller, state, ListEvent::OwnStudent(Ok(Some(11))));
    assert_eq!(state, ListState::AwaitingRows(Visibility::Only(vec![11])));
    assert_eq!(action, ListAction::FindRows(Visibility::Only(vec![11])));
    let rows = vec![listing_grade(1, 10, 12), listing_grade(2, 11, 16)];
    let (state, action) = list_grades(&caller, state, ListEvent::Rows(Ok(rows)));
    assert_eq!(state, ListState::Done);
    assert_eq!(action, ListAction::Finish(Ok(vec![listing_grade(2, 11, 16)])));
}

#[test]
fn a_student_without_a_record_gets_an_empty_list_of_grades() {
    let caller = listing_user(7, Role::Student);
    let (state, _) = list_grades(&caller, ListState::Start, ListEvent::Begin);
    let (state, action) = list_grades(&caller, state, ListEvent::OwnStudent(Ok(None)));
    assert_eq!(state, ListState::Done);
    assert_eq!(action, ListAction::Finish(Ok(vec![])));
}

#[test]
fn a_student_without_a_record_gets_an_empty_list_of_absences() {
    let caller = listing_user(7, Role::Student);
    let (state, action) = list_absences(&caller, ListState::Start, ListEvent::Begin);
    assert_eq!(action, ListAction::FindOwnStudent { user_id: 7 });
    let (state, action) = list_absences(&caller, state, ListEvent::OwnStudent(Ok(None)));
    assert_eq!(state, ListState::Done);
    assert_eq!(action, ListAction::Finish(Ok(vec![])));
}

#[test]
fn absences_are_narrowed_as_grades_are() {
    let caller = listing_user(5, Role::Parent);
    let (state, _) = list_absences(&caller, ListState::Start, ListEvent::Begin);
    let (state, _) = list_absences(&caller, state, ListEvent::LinkedStudents(Ok(vec![12])));
    let rows = vec![listing_absence(1, 10), listing_absence(2, 12), listing_absence(3, 12)];
    let (_, action) = list_absences(&caller, state, ListEvent::Rows(Ok(rows)));
    assert_eq!(
        action,
        ListAction::Finish(Ok(vec![listing_absence(2, 12), listing_absence(3, 12)]))
    );
}

#[test]
fn a_failure_of_the_store_ends_the_listing() {
    let caller = listing_user(5, Role::Parent);
    let (state, _) = list_grades(&caller, ListState::Start, ListEvent::Begin);
    let (state, action) =
        list_grades(&caller, state, ListEvent::LinkedStudents(Err(listing_failure())));
    assert_eq!(state, ListState::Done);
    assert_eq!(
        action,
        ListAction::Finish(Err(ApiError {
            kind: ErrorKind::Internal,
            message: String::from("connection reset")
        }))
    );
    let student = listing_user(7, Role::Student);
    let (state, _) = list_grades(&student, ListState::Start, ListEvent::Begin);
    let (_, action) = list_grades(&student, state, ListEvent::OwnStudent(Err(listing_failure())));
    assert!(matches!(action, ListAction::Finish(Err(ApiError { kind: ErrorKind::Internal, .. }))));
    let admin = listing_user(1, Role::Admin);
    let (state, _) = list_grades(&admin, ListState::Start, ListEvent::Begin);
    let timed_out =
        StorageFailure { kind: FailureKind::PoolTimedOut, detail: String::from("pool timed out") };
    let (_, action) = list_grades(&admin, state, ListEvent::Rows(Err(timed_out)));
    assert_eq!(
        action,
        ListAction::Finish(Err(ApiError {
            kind: ErrorKind::Unavailable,
            message: String::from("pool timed out")
        }))
    );
}

#[test]
fn an_answer_out_of_turn_ends_the_listing() {
    let caller = listing_user(5, Role::Parent);
    let unexpected = ApiError {
        kind: ErrorKind::Internal,
        message: String::from("Unexpected reply from the store"),
    };
    let (state, action) = list_grades(&caller, ListState::Start, ListEvent::Rows(Ok(vec![])));
    assert_eq!(state, ListState::Done);
    assert_eq!(action, ListAction::Finish(Err(unexpected)));
    let (state, action) =
        list_grades(&caller, ListState::AwaitingLinks, ListEvent::OwnStudent(Ok(Some(3))));
    assert_eq!(state, ListState::Done);
    assert!(matches!(action, ListAction::Finish(Err(_))));
    let (_, action) = list_grades(&caller, ListState::AwaitingStudent, ListEvent::Begin);
    assert!(matches!(action, ListAction::Finish(Err(_))));
    let (_, action) = list_grades(
        &caller,
        ListState::AwaitingRows(Visibility::All),
        ListEvent::LinkedStudents(Ok(vec![1])),
    );
    assert!(matches!(action, ListAction::Finish(Err(_))));
    let (_, action) = list_grades(&caller, ListState::Done, ListEvent::Begin);
    assert!(matches!(action, ListAction::Finish(Err(_))));
}

#[test]
fn students_are_listed_unfiltered_under_the_permissive_policy() {
    for role in [Role::Admin, Role::Director, Role::Teacher, Role::Parent, Role::Student] {
        let caller = listing_user(5, role);
        let (state, action) =
            list_students(ReadPolicy::Permissive, &caller, ListState::Start, ListEvent::Begin);
        assert_eq!(action, ListAction::FindRows(Visibility::All));
        let rows = vec![listing_student(10, 7), listing_student(11, 8)];
        let (_, action) =
            list_students(ReadPolicy::Permissive, &caller, state, ListEvent::Rows(Ok(rows)));
        assert_eq!(
            action,
            ListAction::Finish(Ok(vec![listing_student(10, 7), listing_student(11, 8)]))
        );
    }
}

#[test]
fn students_are_narrowed_under_the_row_level_policy() {
    let parent = listing_user(5, Role::Parent);
    let (state, action) =
        list_students(ReadPolicy::RowLevel, &parent, ListState::Start, ListEvent::Begin);
    assert_eq!(action, ListAction::FindLinkedStudents { parent_id: 5 });
    let (state, _) =
        list_students(ReadPolicy::RowLevel, &parent, state, ListEvent::LinkedStudents(Ok(vec![11])));
    let rows = vec![listing_student(10, 7), listing_student(11, 8)];
    let (_, action) = list_students(ReadPolicy::RowLevel, &parent, state, ListEvent::Rows(Ok(rows)));
    assert_eq!(action, ListAction::Finish(Ok(vec![listing_student(11, 8)])));
    let teacher = listing_user(6, Role::Teacher);
    let (_, action) =
        list_students(ReadPolicy::RowLevel, &teacher, ListState::Start, ListEvent::Begin);
    assert_eq!(action, ListAction::FindRows(Visibility::All));
}

#[test]
fn kinds_that_belong_to_no_student_are_not_listed_this_way() {
    let parent = listing_user(5, Role::Parent);
    let (state, action) = list_step::<Grade>(
        ReadPolicy::Permissive,
        &parent,
        ResourceKind::ParentLink,
        ListState::Start,
        ListEvent::Begin,
    );
    assert_eq!(state, ListState::Done);
    assert_eq!(
        action,
        ListAction::Finish(Err(ApiError {
            kind: ErrorKind::Forbidden,
            message: String::from("Insufficient permissions for role Parent")
        }))
    );
}

#[test]
fn the_scope_is_keyed_on_role_and_kind() {
    let parent = listing_user(5, Role::Parent);
    let student = listing_user(7, Role::Student);
    let teacher = listing_user(9, Role::Teacher);
    let admin = listing_user(1, Role::Admin);
    let policy = ReadPolicy::Permissive;
    for kind in [ResourceKind::Grade, ResourceKind::Absence] {
        assert_eq!(visibility_filter(policy, &parent, kind), Scope::ChildrenOf { parent_id: 5 });
        assert_eq!(visibility_filter(policy, &student, kind), Scope::StudentOf { user_id: 7 });
        assert_eq!(visibility_filter(policy, &teacher, kind), Scope::Everything);
        assert_eq!(visibility_filter(policy, &admin, kind), Scope::Everything);
    }
    assert_eq!(visibility_filter(policy, &parent, ResourceKind::Student), Scope::Everything);
    assert_eq!(
        visibility_filter(ReadPolicy::RowLevel, &parent, ResourceKind::Student),
        Scope::ChildrenOf { parent_id: 5 }
    );
    assert_eq!(
        visibility_filter(ReadPolicy::RowLevel, &student, ResourceKind::Student),
        Scope::StudentOf { user_id: 7 }
    );
    assert_eq!(visibility_filter(policy, &admin, ResourceKind::User), Scope::Everything);
    assert_eq!(visibility_filter(policy, &teacher, ResourceKind::User), Scope::Nothing);
    assert_eq!(
        visibility_filter(policy, &parent, ResourceKind::ParentLink),
        Scope::LinksOf { parent_id: 5 }
    );
    assert_eq!(visibility_filter(policy, &admin, ResourceKind::ParentLink), Scope::Everything);
    assert_eq!(visibility_filter(policy, &student, ResourceKind::ParentLink), Scope::Nothing);
}

#[test]
fn a_visibility_permits_the_students_it_lists() {
    let only = Visibility::Only(vec![3, 5]);
    assert!(only.allows(3));
    assert!(only.allows(5));
    assert!(!only.allows(4));
    assert!(Visibility::All.allows(4));
    assert!(!Visibility::Only(vec![]).allows(4));
    assert_eq!(only.authorize_row(3), Decision::Allow);
    assert_eq!(only.authorize_row(4), Decision::Deny(DenyReason::NotFound));
    assert!(holds_id(&vec![1, 2, 3], 2));
    assert!(!holds_id(&vec![1, 2, 3], 4));
    assert_eq!(
        only.retain(vec![listing_grade(1, 4, 1), listing_grade(2, 5, 2), listing_grade(3, 3, 3)]),
        vec![listing_grade(2, 5, 2), listing_grade(3, 3, 3)]
    );
    assert_eq!(Visibility::Only(vec![]).retain(vec![listing_grade(1, 4, 1)]), vec![]);
    assert_eq!(Visibility::All.retain(vec![listing_grade(1, 4, 1)]), vec![listing_grade(1, 4, 1)]);
}
