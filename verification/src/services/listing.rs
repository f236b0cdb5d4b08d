use crate::auth::{denial, DenyReason, ResourceKind};
use crate::error::{ApiError, ErrorKind, Failure};
use crate::models::absence::Absence;
use crate::models::grade::Grade;
use crate::models::user::User;
use crate::storage::{out_of_turn, storage_error, unexpected_reply, StorageFailure};
use crate::models::student::Student;
use crate::visibility::{
    scope_of, visibility_filter, ReadPolicy, Relations, Scope, Sight, StudentRecord, Visibility,
};
use vstd::prelude::*;

verus! {

/// Where the listing of a caller's grades or absences stands.
#[derive(Debug, PartialEq, Eq)]
pub enum ListState {
    /// Nothing has been asked of the store yet.
    Start,
    /// The students linked to the caller have been asked for.
    AwaitingLinks,
    /// The caller's own student record has been asked for.
    AwaitingStudent,
    /// The rows have been asked for; the caller may be shown those that the
    /// visibility permits.
    AwaitingRows(Visibility),
    /// The listing has been answered.
    Done,
}

/// The mathematical content of a [`ListState`].
pub ghost enum ListStage {
    Start,
    AwaitingLinks,
    AwaitingStudent,
    AwaitingRows(Sight),
    Done,
}

impl View for ListState {
    type V = ListStage;

    open spec fn view(&self) -> ListStage {
        match self {
            ListState::Start => ListStage::Start,
            ListState::AwaitingLinks => ListStage::AwaitingLinks,
            ListState::AwaitingStudent => ListStage::AwaitingStudent,
            ListState::AwaitingRows(visibility) => ListStage::AwaitingRows(visibility@),
            ListState::Done => ListStage::Done,
        }
    }
}

/// What happened since the last step of a listing.
#[derive(Debug, PartialEq, Eq)]
pub enum ListEvent<T> {
    /// The request came in.
    Begin,
    /// The store answered which students are linked to the parent.
    LinkedStudents(Result<Vec<u128>, StorageFailure>),
    /// The store answered which student record the user owns.
    OwnStudent(Result<Option<u128>, StorageFailure>),
    /// The store answered with rows.
    Rows(Result<Vec<T>, StorageFailure>),
}

/// What to do next in a listing.
#[derive(Debug, PartialEq, Eq)]
pub enum ListAction<T> {
    /// Ask the store for the students linked to the parent.
    FindLinkedStudents { parent_id: u128 },
    /// Ask the store for the student record that the user owns.
    FindOwnStudent { user_id: u128 },
    /// Ask the store for the rows: all of them, or those of the listed
    /// students.
    FindRows(Visibility),
    /// Answer the request.
    Finish(Result<Vec<T>, ApiError>),
}

/// The mathematical content of a [`ListAction`].
pub ghost enum ListOrder<T> {
    FindLinkedStudents { parent_id: u128 },
    FindOwnStudent { user_id: u128 },
    FindRows(Sight),
    Finish(Result<Seq<T>, Failure>),
}

impl<T> View for ListAction<T> {
    type V = ListOrder<T>;

    open spec fn view(&self) -> ListOrder<T> {
        match self {
            ListAction::FindLinkedStudents { parent_id } => ListOrder::FindLinkedStudents {
                parent_id: *parent_id,
            },
            ListAction::FindOwnStudent { user_id } => ListOrder::FindOwnStudent {
                user_id: *user_id,
            },
            ListAction::FindRows(visibility) => ListOrder::FindRows(visibility@),
            ListAction::Finish(Ok(rows)) => ListOrder::Finish(Ok(rows@)),
            ListAction::Finish(Err(error)) => ListOrder::Finish(Err(error@)),
        }
    }
}

/// The end of a listing with the given answer.
pub open spec fn finish<T>(answer: Result<Seq<T>, Failure>) -> (ListStage, ListOrder<T>) {
    (ListStage::Done, ListOrder::Finish(answer))
}

/// The request for the rows that the sight permits.
pub open spec fn find_rows<T>(sight: Sight) -> (ListStage, ListOrder<T>) {
    (ListStage::AwaitingRows(sight), ListOrder::FindRows(sight))
}

/// One step of a listing of rows of `kind` for `caller`: the stage it moves to
/// and what is to be done, from the stage it is at and what happened.
///
/// A caller who sees everything has the rows asked for at once. For a parent
/// the linked students are asked for first, and for a student the caller's
/// own record; where there is none, the listing ends with no rows and the
/// rows are never asked for. The rows that come back are narrowed to those
/// the caller may see. A failure of the store ends the listing with its
/// error, and so does an answer that was not asked for.
pub open spec fn list_next<T: StudentRecord>(
    policy: ReadPolicy,
    caller: User,
    kind: ResourceKind,
    stage: ListStage,
    event: ListEvent<T>,
) -> (ListStage, ListOrder<T>) {
    match (stage, event) {
        (ListStage::Start, ListEvent::Begin) => match scope_of(
            policy,
            caller.role,
            caller.id,
            kind,
        ) {
            Scope::Everything => find_rows(Sight::All),
            Scope::ChildrenOf { parent_id } => (
                ListStage::AwaitingLinks,
                ListOrder::FindLinkedStudents { parent_id },
            ),
            Scope::StudentOf { user_id } => (
                ListStage::AwaitingStudent,
                ListOrder::FindOwnStudent { user_id },
            ),
            Scope::LinksOf { .. } | Scope::Nothing => finish(
                Err(denial(DenyReason::InsufficientRole, caller.role)),
            ),
        },
        (ListStage::AwaitingLinks, ListEvent::LinkedStudents(Ok(ids))) => if ids@.len() == 0 {
            finish(Ok(Seq::empty()))
        } else {
            find_rows(Sight::Only(ids@))
        },
        (ListStage::AwaitingStudent, ListEvent::OwnStudent(Ok(None))) => finish(
            Ok(Seq::empty()),
        ),
        (ListStage::AwaitingStudent, ListEvent::OwnStudent(Ok(Some(id)))) => find_rows(
            Sight::Only(seq![id]),
        ),
        (ListStage::AwaitingRows(sight), ListEvent::Rows(Ok(rows))) => finish(
            Ok(sight.visible(rows@)),
        ),
        (ListStage::AwaitingLinks, ListEvent::LinkedStudents(Err(failure))) => finish(
            Err(storage_error(failure)),
        ),
        (ListStage::AwaitingStudent, ListEvent::OwnStudent(Err(failure))) => finish(
            Err(storage_error(failure)),
        ),
        (ListStage::AwaitingRows(_), ListEvent::Rows(Err(failure))) => finish(
            Err(storage_error(failure)),
        ),
        _ => finish(Err(out_of_turn())),
    }
}

fn copy_ids(ids: &Vec<u128>) -> (copy: Vec<u128>)
    ensures
        copy@ == ids@,
{
    let mut copy: Vec<u128> = Vec::new();
    let mut i: usize = 0;
    while i < ids.len()
        invariant
            i <= ids@.len(),
            copy@ == ids@.take(i as int),
        decreases ids@.len() - i,
    {
        copy.push(ids[i]);
        assert(ids@.take(i + 1) =~= ids@.take(i as int).push(ids@[i as int]));
        i = i + 1;
    }
    assert(ids@.take(ids@.len() as int) =~= ids@);
    copy
}

fn ask_rows<T>(ids: Vec<u128>) -> (r: (ListState, ListAction<T>))
    ensures
        (r.0@, r.1@) == find_rows::<T>(Sight::Only(ids@)),
{
    let copy = copy_ids(&ids);
    (ListState::AwaitingRows(Visibility::Only(ids)), ListAction::FindRows(Visibility::Only(copy)))
}

fn end<T>(answer: Result<Vec<T>, ApiError>) -> (r: (ListState, ListAction<T>))
    ensures
        r.0 == ListState::Done,
        r.1 == ListAction::Finish(answer),
{
    (ListState::Done, ListAction::Finish(answer))
}

fn stray<T>() -> (r: (ListState, ListAction<T>))
    ensures
        (r.0@, r.1@) == finish::<T>(Err(out_of_turn())),
{
    end(Err(unexpected_reply()))
}

/// Computes [`list_next`].
pub fn list_step<T: StudentRecord>(
    policy: ReadPolicy,
    caller: &User,
    kind: ResourceKind,
    state: ListState,
    event: ListEvent<T>,
) -> (r: (ListState, ListAction<T>))
    ensures
        (r.0@, r.1@) == list_next(policy, *caller, kind, state@, event),
{
    match state {
        ListState::Start => match event {
            ListEvent::Begin => match visibility_filter(policy, caller, kind) {
                Scope::Everything => (
                    ListState::AwaitingRows(Visibility::All),
                    ListAction::FindRows(Visibility::All),
                ),
                Scope::ChildrenOf { parent_id } => (
                    ListState::AwaitingLinks,
                    ListAction::FindLinkedStudents { parent_id },
                ),
                Scope::StudentOf { user_id } => (
                    ListState::AwaitingStudent,
                    ListAction::FindOwnStudent { user_id },
                ),
                Scope::LinksOf { .. } | Scope::Nothing => end(
                    Err(
                        ApiError::joined(
                            ErrorKind::Forbidden,
                            "Insufficient permissions for role ",
                            caller.role.as_label(),
                        ),
                    ),
                ),
            },
            _ => stray(),
        },
        ListState::AwaitingLinks => match event {
            ListEvent::LinkedStudents(Ok(ids)) => if ids.len() == 0 {
                end(Ok(Vec::new()))
            } else {
                ask_rows(ids)
            },
            ListEvent::LinkedStudents(Err(failure)) => end(Err(failure.into_error())),
            _ => stray(),
        },
        ListState::AwaitingStudent => match event {
            ListEvent::OwnStudent(Ok(None)) => end(Ok(Vec::new())),
            ListEvent::OwnStudent(Ok(Some(id))) => {
                let mut ids: Vec<u128> = Vec::new();
                ids.push(id);
                assert(ids@ =~= seq![id]);
                ask_rows(ids)
            },
            ListEvent::OwnStudent(Err(failure)) => end(Err(failure.into_error())),
            _ => stray(),
        },
        ListState::AwaitingRows(visibility) => match event {
            ListEvent::Rows(Ok(rows)) => end(Ok(visibility.retain(rows))),
            ListEvent::Rows(Err(failure)) => end(Err(failure.into_error())),
            _ => stray(),
        },
        ListState::Done => stray(),
    }
}

/// One step of the listing of grades for `caller`.
pub fn list_grades(caller: &User, state: ListState, event: ListEvent<Grade>) -> (r: (
    ListState,
    ListAction<Grade>,
))
    ensures
        (r.0@, r.1@) == list_next(
            ReadPolicy::RowLevel,
            *caller,
            ResourceKind::Grade,
            state@,
            event,
        ),
{
    list_step(ReadPolicy::RowLevel, caller, ResourceKind::Grade, state, event)
}

/// One step of the listing of absences for `caller`.
pub fn list_absences(caller: &User, state: ListState, event: ListEvent<Absence>) -> (r: (
    ListState,
    ListAction<Absence>,
))
    ensures
        (r.0@, r.1@) == list_next(
            ReadPolicy::RowLevel,
            *caller,
            ResourceKind::Absence,
            state@,
            event,
        ),
{
    list_step(ReadPolicy::RowLevel, caller, ResourceKind::Absence, state, event)
}

/// One step of the listing of students for `caller`, under the policy
/// chosen for reading student records.
pub fn list_students(
    policy: ReadPolicy,
    caller: &User,
    state: ListState,
    event: ListEvent<Student>,
) -> (r: (ListState, ListAction<Student>))
    ensures
        (r.0@, r.1@) == list_next(policy, *caller, ResourceKind::Student, state@, event),
{
    list_step(policy, caller, ResourceKind::Student, state, event)
}

/// What the caller receives from a listing in which the store answers every
/// question: `linked` where the linked students are asked for, `own` where
/// the caller's own student record is, `rows` where the rows are.
pub open spec fn listed<T: StudentRecord>(
    policy: ReadPolicy,
    caller: User,
    kind: ResourceKind,
    linked: Vec<u128>,
    own: Option<u128>,
    rows: Vec<T>,
) -> Result<Seq<T>, Failure> {
    let first = list_next::<T>(policy, caller, kind, ListStage::Start, ListEvent::Begin);
    let second = match first.1 {
        ListOrder::FindLinkedStudents { .. } => list_next::<T>(
            policy,
            caller,
            kind,
            first.0,
            ListEvent::LinkedStudents(Ok(linked)),
        ),
        ListOrder::FindOwnStudent { .. } => list_next::<T>(
            policy,
            caller,
            kind,
            first.0,
            ListEvent::OwnStudent(Ok(own)),
        ),
        _ => first,
    };
    let third = match second.1 {
        ListOrder::FindRows(_) => list_next::<T>(
            policy,
            caller,
            kind,
            second.0,
            ListEvent::Rows(Ok(rows)),
        ),
        _ => second,
    };
    match third.1 {
        ListOrder::Finish(answer) => answer,
        _ => Err(out_of_turn()),
    }
}

/// The store's answers about the caller are true of the relations.
pub open spec fn faithful(
    relations: Relations,
    caller: User,
    linked: Seq<u128>,
    own: Option<u128>,
) -> bool {
    &&& relations.one_student_per_user()
    &&& forall|student_id: u128|
        linked.contains(student_id) <==> #[trigger] relations.linked(caller.id, student_id)
    &&& match own {
        Some(student_id) => relations.owns(caller.id, student_id),
        None => forall|student_id: u128| !#[trigger] relations.owns(caller.id, student_id),
    }
}

/// Where the store answers truly, a listing of grades or absences hands the
/// caller exactly those of the rows that the caller's scope shows, in their
/// order, and never an error.
pub proof fn lemma_listing_shows_scope<T: StudentRecord>(
    policy: ReadPolicy,
    relations: Relations,
    caller: User,
    kind: ResourceKind,
    linked: Vec<u128>,
    own: Option<u128>,
    rows: Vec<T>,
)
    requires
        kind is Grade || kind is Absence || kind is Student,
        faithful(relations, caller, linked@, own),
    ensures
        listed(policy, caller, kind, linked, own, rows) == Ok::<Seq<T>, Failure>(
            rows@.filter(
                |row: T|
                    scope_of(policy, caller.role, caller.id, kind).shows(relations, row.owner()),
            ),
        ),
{
    let scope = scope_of(policy, caller.role, caller.id, kind);
    let shown = |row: T| scope.shows(relations, row.owner());
    match scope {
        Scope::Everything => {
            lemma_same_filter(rows@, |row: T| Sight::All.permits(row.owner()), shown);
        },
        Scope::ChildrenOf { parent_id } => {
            if linked@.len() == 0 {
                assert forall|row: T| !#[trigger] shown(row) by {
                    assert(!linked@.contains(row.owner()));
                }
                lemma_empty_filter(rows@, shown);
            } else {
                lemma_same_filter(
                    rows@,
                    |row: T| Sight::Only(linked@).permits(row.owner()),
                    shown,
                );
            }
        },
        Scope::StudentOf { user_id } => {
            match own {
                None => {
                    lemma_empty_filter(rows@, shown);
                },
                Some(id) => {
                    assert forall|row: T|
                        (#[trigger] Sight::Only(seq![id]).permits(row.owner())) == shown(row) by {
                        if row.owner() == id {
                            assert(seq![id][0] == id);
                        }
                    }
                    lemma_same_filter(
                        rows@,
                        |row: T| Sight::Only(seq![id]).permits(row.owner()),
                        shown,
                    );
                },
            }
        },
        _ => {},
    }
}

/// Two predicates that agree on every value keep the same rows.
proof fn lemma_same_filter<T>(rows: Seq<T>, p: spec_fn(T) -> bool, q: spec_fn(T) -> bool)
    requires
        forall|row: T| #[trigger] p(row) == q(row),
    ensures
        rows.filter(p) == rows.filter(q),
    decreases rows.len(),
{
    reveal_with_fuel(Seq::filter, 2);
    if rows.len() > 0 {
        lemma_same_filter(rows.drop_last(), p, q);
    }
}

/// A predicate that holds of nothing keeps no row.
proof fn lemma_empty_filter<T>(rows: Seq<T>, p: spec_fn(T) -> bool)
    requires
        forall|row: T| !#[trigger] p(row),
    ensures
        rows.filter(p) == Seq::<T>::empty(),
    decreases rows.len(),
{
    reveal_with_fuel(Seq::filter, 2);
    if rows.len() > 0 {
        lemma_empty_filter(rows.drop_last(), p);
    }
}

/// A parent to whom no student is linked receives an empty list of grades or
/// absences and no error, and the rows are never asked for.
pub proof fn lemma_parent_without_children<T: StudentRecord>(
    policy: ReadPolicy,
    caller: User,
    kind: ResourceKind,
    linked: Vec<u128>,
    own: Option<u128>,
    rows: Vec<T>,
)
    requires
        caller.role is Parent,
        kind is Grade || kind is Absence,
        linked@.len() == 0,
    ensures
        list_next::<T>(policy, caller, kind, ListStage::Start, ListEvent::Begin) == (
            ListStage::AwaitingLinks,
            ListOrder::<T>::FindLinkedStudents { parent_id: caller.id },
        ),
        list_next::<T>(
            policy,
            caller,
            kind,
            ListStage::AwaitingLinks,
            ListEvent::LinkedStudents(Ok(linked)),
        ) == finish::<T>(Ok(Seq::empty())),
        listed(policy, caller, kind, linked, own, rows) == Ok::<Seq<T>, Failure>(Seq::empty()),
{
}

/// A student whose user owns no student record receives an empty list of
/// grades or absences and no error, and the rows are never asked for.
pub proof fn lemma_student_without_record<T: StudentRecord>(
    policy: ReadPolicy,
    caller: User,
    kind: ResourceKind,
    linked: Vec<u128>,
    rows: Vec<T>,
)
    requires
        caller.role is Student,
        kind is Grade || kind is Absence,
    ensures
        list_next::<T>(policy, caller, kind, ListStage::Start, ListEvent::Begin) == (
            ListStage::AwaitingStudent,
            ListOrder::<T>::FindOwnStudent { user_id: caller.id },
        ),
        list_next::<T>(
            policy,
            caller,
            kind,
            ListStage::AwaitingStudent,
            ListEvent::OwnStudent(Ok(None)),
        ) == finish::<T>(Ok(Seq::empty())),
        listed(policy, caller, kind, linked, None, rows) == Ok::<Seq<T>, Failure>(Seq::empty()),
{
}

/// Every row that a listing hands out is one that the visibility permits.
pub proof fn lemma_listed_rows_are_permitted<T: StudentRecord>(sight: Sight, rows: Seq<T>, i: int)
    requires
        0 <= i < sight.visible(rows).len(),
    ensures
        sight.permits(sight.visible(rows)[i].owner()),
        rows.contains(sight.visible(rows)[i]),
{
    let p = |row: T| sight.permits(row.owner());
    rows.lemma_filter_pred(p, i);
    assert(rows.filter(p).contains(rows.filter(p)[i]));
    lemma_filter_within(rows, p, rows.filter(p)[i]);
}

/// What a filter keeps was there before.
proof fn lemma_filter_within<T>(rows: Seq<T>, p: spec_fn(T) -> bool, row: T)
    requires
        rows.filter(p).contains(row),
    ensures
        rows.contains(row),
    decreases rows.len(),
{
    reveal_with_fuel(Seq::filter, 2);
    if rows.len() > 0 {
        let rest = rows.drop_last();
        if rest.filter(p).contains(row) {
            lemma_filter_within(rest, p, row);
            let k = choose|k: int| 0 <= k < rest.len() && rest[k] == row;
            assert(rows[k] == row);
        } else {
            let kept = rows.filter(p);
            let k = choose|k: int| 0 <= k < kept.len() && kept[k] == row;
            assert(kept[k] == row);
            if p(rows.last()) {
                assert(kept == rest.filter(p).push(rows.last()));
                if k < rest.filter(p).len() {
                    assert(rest.filter(p)[k] == row);
                }
                assert(rows[rows.len() - 1] == row);
            }
        }
    }
}

} // verus!
