use crate::auth::{guard, guarded, Operation, ResourceKind};
use crate::error::{ApiError, Failure};
use crate::models::absence::Absence;
use crate::models::grade::Grade;
use crate::models::user::User;
use crate::storage::{out_of_turn, storage_error, unexpected_reply, StorageFailure};
use crate::visibility::StudentRecord;
use vstd::prelude::*;

verus! {

/// A row that counts for an amount in its student's total.
pub trait Measured: StudentRecord {
    /// The amount that the row counts for.
    spec fn amount(&self) -> int;

    /// Computes [`Measured::amount`].
    fn measure(&self) -> (amount: i16)
        ensures
            amount == self.amount(),
    ;
}

impl Measured for Grade {
    open spec fn amount(&self) -> int {
        self.value as int
    }

    fn measure(&self) -> (amount: i16) {
        self.value
    }
}

impl Measured for Absence {
    open spec fn amount(&self) -> int {
        1
    }

    fn measure(&self) -> (amount: i16) {
        1
    }
}

/// The students that own a row, each once, in the order in which their first
/// rows come.
pub open spec fn owners<T: StudentRecord>(rows: Seq<T>) -> Seq<u128>
    decreases rows.len(),
{
    if rows.len() == 0 {
        Seq::empty()
    } else {
        let before = owners(rows.drop_last());
        if before.contains(rows.last().owner()) {
            before
        } else {
            before.push(rows.last().owner())
        }
    }
}

/// The number of rows that the student owns.
pub open spec fn count_of<T: StudentRecord>(rows: Seq<T>, student_id: u128) -> int
    decreases rows.len(),
{
    if rows.len() == 0 {
        0
    } else if rows.last().owner() == student_id {
        count_of(rows.drop_last(), student_id) + 1
    } else {
        count_of(rows.drop_last(), student_id)
    }
}

/// The sum of the amounts of the rows that the student owns.
pub open spec fn total_of<T: Measured>(rows: Seq<T>, student_id: u128) -> int
    decreases rows.len(),
{
    if rows.len() == 0 {
        0
    } else if rows.last().owner() == student_id {
        total_of(rows.drop_last(), student_id) + rows.last().amount()
    } else {
        total_of(rows.drop_last(), student_id)
    }
}

/// One student's rows, counted and summed. The student's average is `sum`
/// divided by `count`, and `count` is never 0.
#[derive(Clone, Copy, Debug, PartialEq, Eq, Structural)]
pub struct StudentTotal {
    pub student_id: u128,
    pub count: u64,
    pub sum: i128,
}

/// One student's number of absences.
#[derive(Clone, Copy, Debug, PartialEq, Eq, Structural)]
pub struct StudentAbsenceCount {
    pub student_id: u128,
    pub absence_count: u64,
}

/// `totals` holds one entry for each student that owns a row among `rows`, in
/// the order of [`owners`], with the student's rows counted and summed.
pub open spec fn totals_of<T: Measured>(rows: Seq<T>, totals: Seq<StudentTotal>) -> bool {
    &&& totals.len() == owners(rows).len()
    &&& forall|i: int|
        0 <= i < totals.len() ==> {
            &&& (#[trigger] totals[i]).student_id == owners(rows)[i]
            &&& totals[i].count == count_of(rows, owners(rows)[i])
            &&& totals[i].sum == total_of(rows, owners(rows)[i])
        }
}

/// The rows counted and summed student by student: one entry for each student
/// that owns a row, in the order of [`owners`].
pub open spec fn totals_by_student<T: Measured>(rows: Seq<T>) -> Seq<StudentTotal> {
    Seq::new(
        owners(rows).len(),
        |i: int|
            StudentTotal {
                student_id: owners(rows)[i],
                count: count_of(rows, owners(rows)[i]) as u64,
                sum: total_of(rows, owners(rows)[i]) as i128,
            },
    )
}

/// The absences counted student by student: one entry for each student that
/// has an absence, in the order of [`owners`].
pub open spec fn counts_by_student(absences: Seq<Absence>) -> Seq<StudentAbsenceCount> {
    Seq::new(
        owners(absences).len(),
        |i: int|
            StudentAbsenceCount {
                student_id: owners(absences)[i],
                absence_count: count_of(absences, owners(absences)[i]) as u64,
            },
    )
}

/// The owners are listed once each, every owner of a row is listed, and every
/// student listed owns a row.
pub proof fn lemma_owners<T: StudentRecord>(rows: Seq<T>)
    ensures
        forall|i: int, j: int|
            0 <= i < j < owners(rows).len() ==> owners(rows)[i] != owners(rows)[j],
        forall|k: int| 0 <= k < rows.len() ==> owners(rows).contains(#[trigger] rows[k].owner()),
        forall|i: int|
            0 <= i < owners(rows).len() ==> count_of(rows, #[trigger] owners(rows)[i]) >= 1,
        forall|student_id: u128|
            !owners(rows).contains(student_id) ==> #[trigger] count_of(rows, student_id) == 0,
    decreases rows.len(),
{
    if rows.len() > 0 {
        let rest = rows.drop_last();
        let last = rows.last().owner();
        lemma_owners(rest);
        let before = owners(rest);
        let after = owners(rows);
        let fresh = !before.contains(last);
        assert(after == if fresh {
            before.push(last)
        } else {
            before
        });
        assert forall|student_id: u128|
            #[trigger] count_of(rows, student_id) == count_of(rest, student_id) + if last
                == student_id {
                1int
            } else {
                0int
            } by {}
        assert forall|i: int| 0 <= i < before.len() implies after[i] == before[i] by {}
        if fresh {
            assert(after[before.len() as int] == last);
        }
        assert forall|k: int| 0 <= k < rows.len() implies after.contains(
            #[trigger] rows[k].owner(),
        ) by {
            if k < rest.len() {
                assert(rest[k] == rows[k]);
                let w = choose|w: int| 0 <= w < before.len() && before[w] == rest[k].owner();
                assert(after[w] == rows[k].owner());
            } else if fresh {
                assert(after[before.len() as int] == last);
            } else {
                let w = choose|w: int| 0 <= w < before.len() && before[w] == last;
                assert(after[w] == last);
            }
        }
        assert forall|i: int| 0 <= i < after.len() implies count_of(rows, #[trigger] after[i])
            >= 1 by {
            if i < before.len() {
                assert(count_of(rest, before[i]) >= 1);
            } else {
                lemma_count_not_negative(rest, last);
            }
        }
        assert forall|student_id: u128| !after.contains(student_id) implies #[trigger] count_of(
            rows,
            student_id,
        ) == 0 by {
            if before.contains(student_id) {
                let w = choose|w: int| 0 <= w < before.len() && before[w] == student_id;
                assert(after[w] == student_id);
            }
            if last == student_id {
                if fresh {
                    assert(after[before.len() as int] == last);
                }
            }
        }
    }
}

fn position(totals: &Vec<StudentTotal>, student_id: u128) -> (at: Option<usize>)
    ensures
        match at {
            Some(i) => i < totals@.len() && totals@[i as int].student_id == student_id,
            None => forall|j: int| 0 <= j < totals@.len() ==> totals@[j].student_id != student_id,
        },
{
    let mut i: usize = 0;
    while i < totals.len()
        invariant
            i <= totals@.len(),
            forall|j: int| 0 <= j < i ==> totals@[j].student_id != student_id,
        decreases totals@.len() - i,
    {
        if totals[i].student_id == student_id {
            return Some(i);
        }
        i = i + 1;
    }
    None
}

/// Counts and sums the rows student by student. A student that owns no row
/// has no entry.
pub fn tally<T: Measured>(rows: &Vec<T>) -> (totals: Vec<StudentTotal>)
    ensures
        totals@ == totals_by_student(rows@),
        totals_of(rows@, totals@),
        forall|i: int| 0 <= i < totals@.len() ==> (#[trigger] totals@[i]).count >= 1,
        forall|i: int, student_id: u128|
            0 <= i < totals@.len() && #[trigger] count_of(rows@, student_id) == 0 ==> (
            #[trigger] totals@[i]).student_id != student_id,
{
    let mut totals: Vec<StudentTotal> = Vec::new();
    let mut i: usize = 0;
    while i < rows.len()
        invariant
            i <= rows@.len(),
            totals_of(rows@.take(i as int), totals@),
            forall|j: int|
                0 <= j < totals@.len() ==> 0 <= (#[trigger] totals@[j]).count <= i && -32768 * i
                    <= totals@[j].sum <= 32767 * i,
        decreases rows@.len() - i,
    {
        let ghost before = rows@.take(i as int);
        let ghost after = rows@.take(i + 1);
        let ghost old_totals = totals@;
        let student_id = rows[i].student_id();
        let amount = rows[i].measure();
        proof {
            assert(after.drop_last() =~= before);
            assert(after.last() == rows@[i as int]);
            lemma_owners(before);
        }
        match position(&totals, student_id) {
            Some(at) => {
                let entry = totals[at];
                totals.set(
                    at,
                    StudentTotal {
                        student_id,
                        count: entry.count + 1,
                        sum: entry.sum + amount as i128,
                    },
                );
                proof {
                    assert(old_totals[at as int].student_id == owners(before)[at as int]);
                    assert(owners(before).contains(student_id));
                    assert(owners(after) == owners(before));
                    assert forall|j: int| 0 <= j < totals@.len() implies {
                        &&& (#[trigger] totals@[j]).student_id == owners(after)[j]
                        &&& totals@[j].count == count_of(after, owners(after)[j])
                        &&& totals@[j].sum == total_of(after, owners(after)[j])
                    } by {
                        if j != at {
                            assert(totals@[j] == old_totals[j]);
                            assert(owners(before)[j] != owners(before)[at as int]);
                        }
                    }
                }
            },
            None => {
                totals.push(StudentTotal { student_id, count: 1, sum: amount as i128 });
                proof {
                    if owners(before).contains(student_id) {
                        let w = choose|w: int|
                            0 <= w < owners(before).len() && owners(before)[w] == student_id;
                        assert(old_totals[w].student_id == student_id);
                    }
                    assert(owners(after) == owners(before).push(student_id));
                    assert(count_of(before, student_id) == 0);
                    lemma_total_of_absent(before, student_id);
                    assert forall|j: int| 0 <= j < totals@.len() implies {
                        &&& (#[trigger] totals@[j]).student_id == owners(after)[j]
                        &&& totals@[j].count == count_of(after, owners(after)[j])
                        &&& totals@[j].sum == total_of(after, owners(after)[j])
                    } by {
                        if j < old_totals.len() {
                            assert(totals@[j] == old_totals[j]);
                            assert(owners(before)[j] == old_totals[j].student_id);
                        }
                    }
                }
            },
        }
        i = i + 1;
    }
    proof {
        assert(rows@.take(rows@.len() as int) =~= rows@);
        lemma_owners(rows@);
        assert(totals@ =~= totals_by_student(rows@));
    }
    totals
}

/// A student that owns no row has a total of nothing.
proof fn lemma_total_of_absent<T: Measured>(rows: Seq<T>, student_id: u128)
    requires
        count_of(rows, student_id) == 0,
    ensures
        total_of(rows, student_id) == 0,
    decreases rows.len(),
{
    if rows.len() > 0 {
        lemma_count_not_negative(rows.drop_last(), student_id);
        lemma_total_of_absent(rows.drop_last(), student_id);
    }
}

/// A count is never negative.
proof fn lemma_count_not_negative<T: StudentRecord>(rows: Seq<T>, student_id: u128)
    ensures
        count_of(rows, student_id) >= 0,
    decreases rows.len(),
{
    if rows.len() > 0 {
        lemma_count_not_negative(rows.drop_last(), student_id);
    }
}

/// One step of a request for the students' average grades: the state it
/// moves to and what is to be done, from the state it is at and what
/// happened. Every role may ask. The grades are asked for, and what comes
/// back is counted and summed student by student, so that a student's
/// average is the sum divided by the count and a student with no grade has
/// no entry.
pub fn stats_avg_grade(caller: &User, state: StatsState, event: StatsEvent<Grade>) -> (r: (
    StatsState,
    StatsAction<StudentTotal>,
))
    ensures
        (r.0, r.1@) == avg_grade_next(*caller, state, event),
{
    match state {
        StatsState::Start => match event {
            StatsEvent::Begin => begin(caller, ResourceKind::Grade),
            _ => stray(),
        },
        StatsState::AwaitingRows => match event {
            StatsEvent::Rows(Ok(grades)) => (
                StatsState::Done,
                StatsAction::Finish(Ok(average_grades(&grades))),
            ),
            StatsEvent::Rows(Err(failure)) => (
                StatsState::Done,
                StatsAction::Finish(Err(failure.into_error())),
            ),
            _ => stray(),
        },
        StatsState::Done => stray(),
    }
}

/// One step of a request for the students' numbers of absences: the state it
/// moves to and what is to be done, from the state it is at and what
/// happened. Every role may ask. The absences are asked for, and what comes
/// back is counted student by student, so that a student with no absence has
/// no entry.
pub fn stats_absence_count(caller: &User, state: StatsState, event: StatsEvent<Absence>) -> (r: (
    StatsState,
    StatsAction<StudentAbsenceCount>,
))
    ensures
        (r.0, r.1@) == absence_count_next(*caller, state, event),
{
    match state {
        StatsState::Start => match event {
            StatsEvent::Begin => begin(caller, ResourceKind::Absence),
            _ => stray(),
        },
        StatsState::AwaitingRows => match event {
            StatsEvent::Rows(Ok(absences)) => (
                StatsState::Done,
                StatsAction::Finish(Ok(absence_counts(&absences))),
            ),
            StatsEvent::Rows(Err(failure)) => (
                StatsState::Done,
                StatsAction::Finish(Err(failure.into_error())),
            ),
            _ => stray(),
        },
        StatsState::Done => stray(),
    }
}

/// Where a request for statistics stands.
#[derive(Clone, Copy, Debug, PartialEq, Eq, Structural)]
pub enum StatsState {
    /// Nothing has been asked of the store yet.
    Start,
    /// The rows have been asked for.
    AwaitingRows,
    /// The request has been answered.
    Done,
}

/// What happened since the last step of a request for statistics.
#[derive(Debug, PartialEq, Eq)]
pub enum StatsEvent<T> {
    /// The request came in.
    Begin,
    /// The store answered with the rows.
    Rows(Result<Vec<T>, StorageFailure>),
}

/// What to do next in a request for statistics.
#[derive(Debug, PartialEq, Eq)]
pub enum StatsAction<R> {
    /// Ask the store for all the rows.
    FindRows,
    /// Answer the request.
    Finish(Result<Vec<R>, ApiError>),
}

/// The mathematical content of a [`StatsAction`].
pub ghost enum StatsOrder<R> {
    FindRows,
    Finish(Result<Seq<R>, Failure>),
}

impl<R> View for StatsAction<R> {
    type V = StatsOrder<R>;

    open spec fn view(&self) -> StatsOrder<R> {
        match self {
            StatsAction::FindRows => StatsOrder::FindRows,
            StatsAction::Finish(Ok(entries)) => StatsOrder::Finish(Ok(entries@)),
            StatsAction::Finish(Err(error)) => StatsOrder::Finish(Err(error@)),
        }
    }
}

/// The end of a request for statistics with the given answer.
pub open spec fn finish<R>(answer: Result<Seq<R>, Failure>) -> (StatsState, StatsOrder<R>) {
    (StatsState::Done, StatsOrder::Finish(answer))
}

/// One step of a request for statistics over the rows of `kind`, `summary`
/// being what the rows are made into.
///
/// The policy is asked whether the caller may list the rows; where it allows
/// it, the rows are asked for, and what the store hands back is summarised
/// and is the answer. A failure of the store ends the request with its
/// error, and so does an answer that was not asked for.
pub open spec fn stats_next<T, R>(
    caller: User,
    kind: ResourceKind,
    state: StatsState,
    event: StatsEvent<T>,
    summary: spec_fn(Seq<T>) -> Seq<R>,
) -> (StatsState, StatsOrder<R>) {
    match (state, event) {
        (StatsState::Start, StatsEvent::Begin) => match guarded(
            caller,
            Operation::List,
            kind,
            None,
            Ok(()),
        ) {
            Ok(_) => (StatsState::AwaitingRows, StatsOrder::FindRows),
            Err(failure) => finish(Err(failure)),
        },
        (StatsState::AwaitingRows, StatsEvent::Rows(Ok(rows))) => finish(Ok(summary(rows@))),
        (StatsState::AwaitingRows, StatsEvent::Rows(Err(failure))) => finish(
            Err(storage_error(failure)),
        ),
        _ => finish(Err(out_of_turn())),
    }
}

/// The step that [`stats_avg_grade`] makes.
pub open spec fn avg_grade_next(caller: User, state: StatsState, event: StatsEvent<Grade>) -> (
    StatsState,
    StatsOrder<StudentTotal>,
) {
    stats_next(
        caller,
        ResourceKind::Grade,
        state,
        event,
        |grades: Seq<Grade>| totals_by_student(grades),
    )
}

/// The step that [`stats_absence_count`] makes.
pub open spec fn absence_count_next(
    caller: User,
    state: StatsState,
    event: StatsEvent<Absence>,
) -> (StatsState, StatsOrder<StudentAbsenceCount>) {
    stats_next(
        caller,
        ResourceKind::Absence,
        state,
        event,
        |absences: Seq<Absence>| counts_by_student(absences),
    )
}

fn begin<R>(caller: &User, kind: ResourceKind) -> (r: (StatsState, StatsAction<R>))
    ensures
        (r.0, r.1@) == match guarded(*caller, Operation::List, kind, None, Ok(())) {
            Ok(_) => (StatsState::AwaitingRows, StatsOrder::<R>::FindRows),
            Err(failure) => finish::<R>(Err(failure)),
        },
{
    match guard(caller, Operation::List, kind, None) {
        Ok(_) => (StatsState::AwaitingRows, StatsAction::FindRows),
        Err(error) => (StatsState::Done, StatsAction::Finish(Err(error))),
    }
}

fn stray<R>() -> (r: (StatsState, StatsAction<R>))
    ensures
        (r.0, r.1@) == finish::<R>(Err(out_of_turn())),
{
    (StatsState::Done, StatsAction::Finish(Err(unexpected_reply())))
}

/// Every role may ask for either statistic: whoever the caller is, the rows
/// are asked for; and a student that owns none of the rows that come back has
/// no entry in the answer.
pub proof fn lemma_statistics_are_open(caller: User, grades: Vec<Grade>, absences: Vec<Absence>)
    ensures
        avg_grade_next(caller, StatsState::Start, StatsEvent::Begin) == (
            StatsState::AwaitingRows,
            StatsOrder::<StudentTotal>::FindRows,
        ),
        absence_count_next(caller, StatsState::Start, StatsEvent::Begin) == (
            StatsState::AwaitingRows,
            StatsOrder::<StudentAbsenceCount>::FindRows,
        ),
        avg_grade_next(caller, StatsState::AwaitingRows, StatsEvent::Rows(Ok(grades))) == finish(
            Ok(totals_by_student(grades@)),
        ),
        absence_count_next(caller, StatsState::AwaitingRows, StatsEvent::Rows(Ok(absences)))
            == finish(Ok(counts_by_student(absences@))),
        forall|i: int|
            0 <= i < totals_by_student(grades@).len() ==> count_of(
                grades@,
                (#[trigger] totals_by_student(grades@)[i]).student_id,
            ) >= 1,
        forall|i: int|
            0 <= i < counts_by_student(absences@).len() ==> count_of(
                absences@,
                (#[trigger] counts_by_student(absences@)[i]).student_id,
            ) >= 1,
{
    lemma_owners(grades@);
    lemma_owners(absences@);
}

/// The grades counted and summed student by student: a student's average is
/// the sum divided by the count. A student with no grade has no entry.
pub fn average_grades(grades: &Vec<Grade>) -> (totals: Vec<StudentTotal>)
    ensures
        totals@ == totals_by_student(grades@),
        totals_of(grades@, totals@),
        forall|i: int| 0 <= i < totals@.len() ==> (#[trigger] totals@[i]).count >= 1,
        forall|i: int, student_id: u128|
            0 <= i < totals@.len() && #[trigger] count_of(grades@, student_id) == 0 ==> (
            #[trigger] totals@[i]).student_id != student_id,
{
    tally(grades)
}

/// `counts` holds one entry for each student that has an absence among
/// `absences`, in the order of [`owners`], with the number of the student's
/// absences.
pub open spec fn counts_of(absences: Seq<Absence>, counts: Seq<StudentAbsenceCount>) -> bool {
    &&& counts.len() == owners(absences).len()
    &&& forall|i: int|
        0 <= i < counts.len() ==> {
            &&& (#[trigger] counts[i]).student_id == owners(absences)[i]
            &&& counts[i].absence_count == count_of(absences, owners(absences)[i])
        }
}

/// The absences counted student by student. A student with no absence has no
/// entry.
pub fn absence_counts(absences: &Vec<Absence>) -> (counts: Vec<StudentAbsenceCount>)
    ensures
        counts@ == counts_by_student(absences@),
        counts_of(absences@, counts@),
{
    let totals = tally(absences);
    let mut counts: Vec<StudentAbsenceCount> = Vec::new();
    let mut i: usize = 0;
    while i < totals.len()
        invariant
            i <= totals@.len(),
            totals_of(absences@, totals@),
            counts@.len() == i,
            forall|j: int|
                0 <= j < i ==> (#[trigger] counts@[j]).student_id == totals@[j].student_id
                    && counts@[j].absence_count == totals@[j].count,
        decreases totals@.len() - i,
    {
        counts.push(
            StudentAbsenceCount {
                student_id: totals[i].student_id,
                absence_count: totals[i].count,
            },
        );
        i = i + 1;
    }
    assert(counts@ =~= counts_by_student(absences@));
    counts
}

} // verus!
