use crate::auth::{guard, guarded, Decision, Operation, ResourceKind};
use crate::error::{agrees, ApiError, Failure};
use crate::models::student::{
    NewStudent, NewStudentForm, Student, UpdateStudent, UpdateStudentForm,
};
use crate::models::user::User;
use crate::services::listing::{
    list_next, list_students, ListAction, ListEvent, ListOrder, ListStage, ListState,
};
use crate::storage::{missing, not_found};
use crate::visibility::{ReadPolicy, Sight};
use vstd::prelude::*;

verus! {

/// Admits a request to create a student: the caller must be an administrator
/// or a director, and the body must then be valid.
pub fn create_student(caller: &User, form: NewStudentForm) -> (r: Result<NewStudent, ApiError>)
    ensures
        agrees(
            guarded(
                *caller,
                Operation::Create,
                ResourceKind::Student,
                None,
                NewStudent::of_form(form),
            ),
            r,
        ),
{
    guard(caller, Operation::Create, ResourceKind::Student, None)?;
    NewStudent::validate(form)
}

/// One step of a request for the student with the identifier `id`: the state
/// it moves to and what is to be done, from the state it is at and what
/// happened. Every role may ask. Under the permissive policy the student is
/// asked for at once; under the row-level policy a parent's linked students,
/// or a student's own record, are asked for first, and a student out of the
/// caller's sight is answered as not found without being asked for. The
/// answer is the student with the identifier among the rows that came back,
/// or not found.
pub fn get_student(
    policy: ReadPolicy,
    caller: &User,
    id: u128,
    state: ListState,
    event: ListEvent<Student>,
) -> (r: (ListState, ReadAction))
    ensures
        (r.0@, r.1@) == get_student_next(policy, *caller, id, state@, event),
{
    let (next, action) = list_students(policy, caller, state, event);
    match action {
        ListAction::FindLinkedStudents { parent_id } => (
            next,
            ReadAction::FindLinkedStudents { parent_id },
        ),
        ListAction::FindOwnStudent { user_id } => (next, ReadAction::FindOwnStudent { user_id }),
        ListAction::FindRows(visibility) => match visibility.authorize_row(id) {
            Decision::Allow => (next, ReadAction::FindStudent { id }),
            Decision::Deny(_) => (
                ListState::Done,
                ReadAction::Finish(Err(not_found(ResourceKind::Student))),
            ),
        },
        ListAction::Finish(Ok(rows)) => (ListState::Done, ReadAction::Finish(pick(rows, id))),
        ListAction::Finish(Err(error)) => (ListState::Done, ReadAction::Finish(Err(error))),
    }
}

/// What to do next in a request for one student.
#[derive(Debug, PartialEq, Eq)]
pub enum ReadAction {
    /// Ask the store for the students linked to the parent.
    FindLinkedStudents { parent_id: u128 },
    /// Ask the store for the student record that the user owns.
    FindOwnStudent { user_id: u128 },
    /// Ask the store for the student with the identifier.
    FindStudent { id: u128 },
    /// Answer the request.
    Finish(Result<Student, ApiError>),
}

/// The mathematical content of a [`ReadAction`].
pub ghost enum ReadOrder {
    FindLinkedStudents { parent_id: u128 },
    FindOwnStudent { user_id: u128 },
    FindStudent { id: u128 },
    Finish(Result<Student, Failure>),
}

impl View for ReadAction {
    type V = ReadOrder;

    open spec fn view(&self) -> ReadOrder {
        match self {
            ReadAction::FindLinkedStudents { parent_id } => ReadOrder::FindLinkedStudents {
                parent_id: *parent_id,
            },
            ReadAction::FindOwnStudent { user_id } => ReadOrder::FindOwnStudent {
                user_id: *user_id,
            },
            ReadAction::FindStudent { id } => ReadOrder::FindStudent { id: *id },
            ReadAction::Finish(Ok(student)) => ReadOrder::Finish(Ok(*student)),
            ReadAction::Finish(Err(error)) => ReadOrder::Finish(Err(error@)),
        }
    }
}

/// The first of the rows that has the identifier, if any has.
pub open spec fn student_with(rows: Seq<Student>, id: u128) -> Option<Student>
    decreases rows.len(),
{
    if rows.len() == 0 {
        None
    } else if rows.first().id == id {
        Some(rows.first())
    } else {
        student_with(rows.drop_first(), id)
    }
}

/// The answer to a request for the student with the identifier, from the
/// rows that the caller may see.
pub open spec fn student_among(rows: Seq<Student>, id: u128) -> Result<Student, Failure> {
    match student_with(rows, id) {
        Some(student) => Ok(student),
        None => Err(missing(ResourceKind::Student)),
    }
}

/// The end of a request for one student with the given answer.
pub open spec fn finish(answer: Result<Student, Failure>) -> (ListStage, ReadOrder) {
    (ListStage::Done, ReadOrder::Finish(answer))
}

/// One step of a request for the student with the identifier `id`.
///
/// The request goes the way of a listing of students for the caller, but for
/// two things. Where the listing would ask for the rows, the one student is
/// asked for if the caller may see that student, and the request ends as not
/// found if not. And where the listing would answer with rows, the answer is
/// the student with the identifier among them, or not found.
pub open spec fn get_student_next(
    policy: ReadPolicy,
    caller: User,
    id: u128,
    stage: ListStage,
    event: ListEvent<Student>,
) -> (ListStage, ReadOrder) {
    let step = list_next::<Student>(policy, caller, ResourceKind::Student, stage, event);
    match step.1 {
        ListOrder::FindLinkedStudents { parent_id } => (
            step.0,
            ReadOrder::FindLinkedStudents { parent_id },
        ),
        ListOrder::FindOwnStudent { user_id } => (step.0, ReadOrder::FindOwnStudent { user_id }),
        ListOrder::FindRows(sight) => if sight.permits(id) {
            (step.0, ReadOrder::FindStudent { id })
        } else {
            finish(Err(missing(ResourceKind::Student)))
        },
        ListOrder::Finish(Ok(rows)) => finish(student_among(rows, id)),
        ListOrder::Finish(Err(failure)) => finish(Err(failure)),
    }
}

fn pick(rows: Vec<Student>, id: u128) -> (r: Result<Student, ApiError>)
    ensures
        agrees(student_among(rows@, id), r),
{
    let ghost all = rows@;
    assert(all.skip(0) =~= all);
    for row in it: rows
        invariant
            it.seq() == all,
            student_with(all, id) == student_with(all.skip(it.index() as int), id),
    {
        proof {
            let k = it.index() as int;
            assert(all.skip(k).first() == all[k]);
            assert(all.skip(k).drop_first() =~= all.skip(k + 1));
        }
        if row.id == id {
            return Ok(row);
        }
    }
    proof {
        assert(all.skip(all.len() as int).len() == 0);
    }
    Err(not_found(ResourceKind::Student))
}

/// Under the permissive policy every caller is shown the student with the
/// identifier if the store holds it: the student is asked for at once, and
/// the answer is that student among the rows that come back, or not found.
pub proof fn lemma_permissive_read(caller: User, id: u128, rows: Vec<Student>)
    ensures
        get_student_next(ReadPolicy::Permissive, caller, id, ListStage::Start, ListEvent::Begin)
            == (ListStage::AwaitingRows(Sight::All), ReadOrder::FindStudent { id }),
        get_student_next(
            ReadPolicy::Permissive,
            caller,
            id,
            ListStage::AwaitingRows(Sight::All),
            ListEvent::Rows(Ok(rows)),
        ) == finish(student_among(Sight::All.visible(rows@), id)),
{
}

/// Under the row-level policy a parent who asks for a student that is not
/// among the linked ones is answered as not found, and the student is never
/// asked for: the answer does not tell whether there is such a student.
pub proof fn lemma_row_level_read_hides(caller: User, id: u128, linked: Vec<u128>)
    requires
        caller.role is Parent,
        !linked@.contains(id),
    ensures
        get_student_next(ReadPolicy::RowLevel, caller, id, ListStage::Start, ListEvent::Begin)
            == (
            ListStage::AwaitingLinks,
            ReadOrder::FindLinkedStudents { parent_id: caller.id },
        ),
        get_student_next(
            ReadPolicy::RowLevel,
            caller,
            id,
            ListStage::AwaitingLinks,
            ListEvent::LinkedStudents(Ok(linked)),
        ) == finish(Err(missing(ResourceKind::Student))),
{
}

/// Admits a request to update a student: the caller must be an administrator
/// or a director, and the body must then be valid.
pub fn update_student(caller: &User, form: UpdateStudentForm) -> (r: Result<
    UpdateStudent,
    ApiError,
>)
    ensures
        agrees(
            guarded(
                *caller,
                Operation::Update,
                ResourceKind::Student,
                None,
                UpdateStudent::of_form(form),
            ),
            r,
        ),
{
    guard(caller, Operation::Update, ResourceKind::Student, None)?;
    UpdateStudent::validate(form)
}

/// Admits a request to delete a student: the caller must be an administrator
/// or a director.
pub fn delete_student(caller: &User) -> (r: Result<(), ApiError>)
    ensures
        agrees(guarded(*caller, Operation::Delete, ResourceKind::Student, None, Ok(())), r),
{
    guard(caller, Operation::Delete, ResourceKind::Student, None)
}

} // verus!
