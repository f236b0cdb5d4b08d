use crate::auth::ResourceKind;
use crate::error::{ApiError, Failure};
use crate::models::absence::{Absence, UpdateAbsence};
use crate::models::grade::{Grade, UpdateGrade};
use crate::models::student::{Student, UpdateStudent};
use crate::models::user::{UpdateUser, User};
use crate::storage::{
    missing, not_found, out_of_turn, storage_error, unexpected_reply, StorageFailure,
};
use vstd::prelude::*;

verus! {

/// A set of changes to a row of the store.
pub trait Patch: Sized {
    /// The row that the changes are made to.
    type Row;

    /// What is handed to the store to write.
    type Write;

    /// The kind of resource that the row is.
    spec fn kind() -> ResourceKind;

    /// What is written when the changes are made to `current`.
    spec fn written(self, current: Self::Row) -> Self::Write;

    /// Computes [`Patch::kind`].
    fn resource() -> (kind: ResourceKind)
        ensures
            kind == Self::kind(),
    ;

    /// Computes [`Patch::written`].
    fn merge(self, current: Self::Row) -> (write: Self::Write)
        ensures
            write == self.written(current),
    ;
}

impl Patch for UpdateUser {
    type Row = User;

    type Write = (User, Option<String>);

    open spec fn kind() -> ResourceKind {
        ResourceKind::User
    }

    open spec fn written(self, current: User) -> (User, Option<String>) {
        (self.merged(current), self.password)
    }

    fn resource() -> (kind: ResourceKind) {
        ResourceKind::User
    }

    fn merge(self, current: User) -> (write: (User, Option<String>)) {
        self.apply(current)
    }
}

impl Patch for UpdateStudent {
    type Row = Student;

    type Write = Student;

    open spec fn kind() -> ResourceKind {
        ResourceKind::Student
    }

    open spec fn written(self, current: Student) -> Student {
        self.merged(current)
    }

    fn resource() -> (kind: ResourceKind) {
        ResourceKind::Student
    }

    fn merge(self, current: Student) -> (write: Student) {
        self.apply(current)
    }
}

impl Patch for UpdateGrade {
    type Row = Grade;

    type Write = Grade;

    open spec fn kind() -> ResourceKind {
        ResourceKind::Grade
    }

    open spec fn written(self, current: Grade) -> Grade {
        self.merged(current)
    }

    fn resource() -> (kind: ResourceKind) {
        ResourceKind::Grade
    }

    fn merge(self, current: Grade) -> (write: Grade) {
        self.apply(current)
    }
}

impl Patch for UpdateAbsence {
    type Row = Absence;

    type Write = Absence;

    open spec fn kind() -> ResourceKind {
        ResourceKind::Absence
    }

    open spec fn written(self, current: Absence) -> Absence {
        self.merged(current)
    }

    fn resource() -> (kind: ResourceKind) {
        ResourceKind::Absence
    }

    fn merge(self, current: Absence) -> (write: Absence) {
        self.apply(current)
    }
}

/// Where an update stands.
#[derive(Debug, PartialEq, Eq)]
pub enum UpdateState<P> {
    /// Nothing has been asked of the store yet.
    Start,
    /// The row to change has been asked for.
    AwaitingCurrent(P),
    /// The changed row has been handed over to be written.
    AwaitingStored,
    /// The update has been answered.
    Done,
}

/// What happened since the last step of an update.
#[derive(Debug, PartialEq, Eq)]
pub enum UpdateEvent<P: Patch> {
    /// The request came in, and was admitted with these changes.
    Begin { id: u128, patch: P },
    /// The store answered with the row as it is.
    Current(Result<Option<P::Row>, StorageFailure>),
    /// The store answered with the row as it was written.
    Stored(Result<P::Row, StorageFailure>),
}

/// What to do next in an update.
#[derive(Debug, PartialEq, Eq)]
pub enum UpdateAction<P: Patch> {
    /// Ask the store for the row.
    Find { id: u128 },
    /// Have the store write the row.
    Store(P::Write),
    /// Answer the request.
    Finish(Result<P::Row, ApiError>),
}

/// The mathematical content of an [`UpdateAction`].
pub ghost enum UpdateOrder<P: Patch> {
    Find { id: u128 },
    Store(P::Write),
    Finish(Result<P::Row, Failure>),
}

impl<P: Patch> View for UpdateAction<P> {
    type V = UpdateOrder<P>;

    open spec fn view(&self) -> UpdateOrder<P> {
        match self {
            UpdateAction::Find { id } => UpdateOrder::Find { id: *id },
            UpdateAction::Store(write) => UpdateOrder::Store(*write),
            UpdateAction::Finish(Ok(row)) => UpdateOrder::Finish(Ok(*row)),
            UpdateAction::Finish(Err(error)) => UpdateOrder::Finish(Err(error@)),
        }
    }
}

/// The end of an update with the given answer.
pub open spec fn finish<P: Patch>(answer: Result<P::Row, Failure>) -> (
    UpdateState<P>,
    UpdateOrder<P>,
) {
    (UpdateState::Done, UpdateOrder::Finish(answer))
}

/// One step of an update: the state it moves to and what is to be done, from
/// the state it is at and what happened.
///
/// The row is asked for as it is. Where there is none, the update ends as
/// not found and nothing is written. Else the changes are made to it and the
/// result is handed over to be written, and what the store wrote is the
/// answer. A failure of the store ends the update with its error, and so
/// does an answer that was not asked for.
pub open spec fn update_next<P: Patch>(state: UpdateState<P>, event: UpdateEvent<P>) -> (
    UpdateState<P>,
    UpdateOrder<P>,
) {
    match (state, event) {
        (UpdateState::Start, UpdateEvent::Begin { id, patch }) => (
            UpdateState::AwaitingCurrent(patch),
            UpdateOrder::Find { id },
        ),
        (UpdateState::AwaitingCurrent(patch), UpdateEvent::Current(Ok(Some(current)))) => (
            UpdateState::AwaitingStored,
            UpdateOrder::Store(patch.written(current)),
        ),
        (UpdateState::AwaitingCurrent(_), UpdateEvent::Current(Ok(None))) => finish(
            Err(missing(P::kind())),
        ),
        (UpdateState::AwaitingCurrent(_), UpdateEvent::Current(Err(failure))) => finish(
            Err(storage_error(failure)),
        ),
        (UpdateState::AwaitingStored, UpdateEvent::Stored(Ok(row))) => finish(Ok(row)),
        (UpdateState::AwaitingStored, UpdateEvent::Stored(Err(failure))) => finish(
            Err(storage_error(failure)),
        ),
        _ => finish(Err(out_of_turn())),
    }
}

fn end<P: Patch>(answer: Result<P::Row, ApiError>) -> (r: (UpdateState<P>, UpdateAction<P>))
    ensures
        r.0 == UpdateState::<P>::Done,
        r.1 == UpdateAction::<P>::Finish(answer),
{
    (UpdateState::Done, UpdateAction::Finish(answer))
}

/// Computes [`update_next`].
pub fn update_step<P: Patch>(state: UpdateState<P>, event: UpdateEvent<P>) -> (r: (
    UpdateState<P>,
    UpdateAction<P>,
))
    ensures
        (r.0, r.1@) == update_next(state, event),
{
    match state {
        UpdateState::Start => match event {
            UpdateEvent::Begin { id, patch } => (
                UpdateState::AwaitingCurrent(patch),
                UpdateAction::Find { id },
            ),
            _ => end(Err(unexpected_reply())),
        },
        UpdateState::AwaitingCurrent(patch) => match event {
            UpdateEvent::Current(Ok(Some(current))) => (
                UpdateState::AwaitingStored,
                UpdateAction::Store(patch.merge(current)),
            ),
            UpdateEvent::Current(Ok(None)) => end(Err(not_found(P::resource()))),
            UpdateEvent::Current(Err(failure)) => end(Err(failure.into_error())),
            _ => end(Err(unexpected_reply())),
        },
        UpdateState::AwaitingStored => match event {
            UpdateEvent::Stored(Ok(row)) => end(Ok(row)),
            UpdateEvent::Stored(Err(failure)) => end(Err(failure.into_error())),
            _ => end(Err(unexpected_reply())),
        },
        UpdateState::Done => end(Err(unexpected_reply())),
    }
}

/// Changes that name no field write the row back as it is.
pub proof fn lemma_empty_changes_keep_row(student: Student, grade: Grade, absence: Absence, user: User)
    ensures
        (UpdateStudent { class: None }).merged(student) == student,
        (UpdateGrade { value: None, subject: None }).merged(grade) == grade,
        (UpdateAbsence { date: None, reason: None }).merged(absence) == absence,
        (UpdateUser {
            email: None,
            password: None,
            role: None,
            first_name: None,
            last_name: None,
        }).merged(user) == user,
{
}

/// A field that the changes leave out keeps the value it had, whatever the
/// changes do to the other fields, and no changes touch a row's identity,
/// its owner or the time of its creation.
pub proof fn lemma_omitted_fields_kept(
    on_student: UpdateStudent,
    student: Student,
    on_grade: UpdateGrade,
    grade: Grade,
    on_absence: UpdateAbsence,
    absence: Absence,
    on_user: UpdateUser,
    user: User,
)
    ensures
        on_student.class is None ==> on_student.merged(student).class == student.class,
        on_student.merged(student).id == student.id,
        on_student.merged(student).user_id == student.user_id,
        on_student.merged(student).created_at == student.created_at,
        on_grade.value is None ==> on_grade.merged(grade).value == grade.value,
        on_grade.subject is None ==> on_grade.merged(grade).subject == grade.subject,
        on_grade.merged(grade).id == grade.id,
        on_grade.merged(grade).student_id == grade.student_id,
        on_grade.merged(grade).teacher_id == grade.teacher_id,
        on_grade.merged(grade).created_at == grade.created_at,
        on_absence.date is None ==> on_absence.merged(absence).date == absence.date,
        on_absence.reason is None ==> on_absence.merged(absence).reason == absence.reason,
        on_absence.merged(absence).id == absence.id,
        on_absence.merged(absence).student_id == absence.student_id,
        on_absence.merged(absence).created_at == absence.created_at,
        on_user.email is None ==> on_user.merged(user).email == user.email,
        on_user.role is None ==> on_user.merged(user).role == user.role,
        on_user.first_name is None ==> on_user.merged(user).first_name == user.first_name,
        on_user.last_name is None ==> on_user.merged(user).last_name == user.last_name,
        on_user.merged(user).id == user.id,
        on_user.merged(user).hashed_password == user.hashed_password,
        on_user.merged(user).created_at == user.created_at,
{
}

} // verus!
