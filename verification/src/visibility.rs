use crate::auth::{Decision, DenyReason, ResourceKind};
use crate::models::absence::Absence;
use crate::models::grade::Grade;
use crate::models::parent_student::ParentStudent;
use crate::models::student::Student;
use crate::models::user::{Role, User};
use vstd::prelude::*;

verus! {

/// A row that belongs to a student: a grade or an absence.
pub trait StudentRecord: Sized {
    /// The student that the row belongs to.
    spec fn owner(&self) -> u128;

    /// Computes [`StudentRecord::owner`].
    fn student_id(&self) -> (id: u128)
        ensures
            id == self.owner(),
    ;
}

impl StudentRecord for Grade {
    open spec fn owner(&self) -> u128 {
        self.student_id
    }

    fn student_id(&self) -> (id: u128) {
        self.student_id
    }
}

impl StudentRecord for Absence {
    open spec fn owner(&self) -> u128 {
        self.student_id
    }

    fn student_id(&self) -> (id: u128) {
        self.student_id
    }
}

impl StudentRecord for Student {
    open spec fn owner(&self) -> u128 {
        self.id
    }

    fn student_id(&self) -> (id: u128) {
        self.id
    }
}

/// Whether parents and students are held to their own students when they
/// read student records, as they are when they read grades and absences.
#[derive(Clone, Copy, Debug, PartialEq, Eq, Structural)]
pub enum ReadPolicy {
    /// Every role reads every student record.
    Permissive,
    /// A parent reads the records of linked students, a student their own.
    RowLevel,
}

/// Which rows of a kind a caller may be shown.
#[derive(Clone, Copy, Debug, PartialEq, Eq, Structural)]
pub enum Scope {
    /// Every row.
    Everything,
    /// The rows of the students linked to this parent.
    ChildrenOf { parent_id: u128 },
    /// The rows of the student record that this user owns.
    StudentOf { user_id: u128 },
    /// The links of this parent.
    LinksOf { parent_id: u128 },
    /// No row.
    Nothing,
}

/// The scope of a caller's view of what belongs to students.
pub open spec fn record_scope(role: Role, caller_id: u128) -> Scope {
    match role {
        Role::Admin | Role::Director | Role::Teacher => Scope::Everything,
        Role::Parent => Scope::ChildrenOf { parent_id: caller_id },
        Role::Student => Scope::StudentOf { user_id: caller_id },
    }
}

/// The scope of a caller's view of a kind of resource.
pub open spec fn scope_of(
    policy: ReadPolicy,
    role: Role,
    caller_id: u128,
    kind: ResourceKind,
) -> Scope {
    match kind {
        ResourceKind::Student => match policy {
            ReadPolicy::Permissive => Scope::Everything,
            ReadPolicy::RowLevel => record_scope(role, caller_id),
        },
        ResourceKind::Grade | ResourceKind::Absence => record_scope(role, caller_id),
        ResourceKind::User => match role {
            Role::Admin | Role::Director => Scope::Everything,
            _ => Scope::Nothing,
        },
        ResourceKind::ParentLink => match role {
            Role::Admin | Role::Director => Scope::Everything,
            Role::Parent => Scope::LinksOf { parent_id: caller_id },
            _ => Scope::Nothing,
        },
    }
}

/// The relations of the store that decide what a scope shows.
pub ghost struct Relations {
    pub links: Seq<ParentStudent>,
    pub students: Seq<Student>,
}

impl Relations {
    /// The parent is linked to the student.
    pub open spec fn linked(self, parent_id: u128, student_id: u128) -> bool {
        self.links.contains(ParentStudent { parent_id, student_id })
    }

    /// The user owns the student record.
    pub open spec fn owns(self, user_id: u128, student_id: u128) -> bool {
        exists|i: int|
            0 <= i < self.students.len() && (#[trigger] self.students[i]).user_id == user_id
                && self.students[i].id == student_id
    }

    /// No user owns two student records.
    pub open spec fn one_student_per_user(self) -> bool {
        forall|i: int, j: int|
            0 <= i < self.students.len() && 0 <= j < self.students.len() && (
            #[trigger] self.students[i]).user_id == (#[trigger] self.students[j]).user_id
                ==> self.students[i].id == self.students[j].id
    }
}

impl Scope {
    /// The scope shows the rows of the student, the relations being as given.
    pub open spec fn shows(self, relations: Relations, student_id: u128) -> bool {
        match self {
            Scope::Everything => true,
            Scope::ChildrenOf { parent_id } => relations.linked(parent_id, student_id),
            Scope::StudentOf { user_id } => relations.owns(user_id, student_id),
            Scope::LinksOf { .. } | Scope::Nothing => false,
        }
    }
}

fn record_filter(caller: &User) -> (scope: Scope)
    ensures
        scope == record_scope(caller.role, caller.id),
{
    match caller.role {
        Role::Admin | Role::Director | Role::Teacher => Scope::Everything,
        Role::Parent => Scope::ChildrenOf { parent_id: caller.id },
        Role::Student => Scope::StudentOf { user_id: caller.id },
    }
}

/// Computes [`scope_of`]: the filter that a list operation applies for the
/// caller.
pub fn visibility_filter(policy: ReadPolicy, caller: &User, kind: ResourceKind) -> (scope: Scope)
    ensures
        scope == scope_of(policy, caller.role, caller.id, kind),
{
    match kind {
        ResourceKind::Student => match policy {
            ReadPolicy::Permissive => Scope::Everything,
            ReadPolicy::RowLevel => record_filter(caller),
        },
        ResourceKind::Grade | ResourceKind::Absence => record_filter(caller),
        ResourceKind::User => match caller.role {
            Role::Admin | Role::Director => Scope::Everything,
            _ => Scope::Nothing,
        },
        ResourceKind::ParentLink => match caller.role {
            Role::Admin | Role::Director => Scope::Everything,
            Role::Parent => Scope::LinksOf { parent_id: caller.id },
            _ => Scope::Nothing,
        },
    }
}

/// A scope after the lookups it needs: every student, or the students whose
/// identifiers are listed.
#[derive(Debug, PartialEq, Eq)]
pub enum Visibility {
    All,
    Only(Vec<u128>),
}

/// The mathematical content of a [`Visibility`].
pub ghost enum Sight {
    All,
    Only(Seq<u128>),
}

impl Sight {
    /// Rows of the student may be shown.
    pub open spec fn permits(self, student_id: u128) -> bool {
        match self {
            Sight::All => true,
            Sight::Only(ids) => ids.contains(student_id),
        }
    }

    /// The decision on a row of the student.
    pub open spec fn row_decision(self, student_id: u128) -> Decision {
        if self.permits(student_id) {
            Decision::Allow
        } else {
            Decision::Deny(DenyReason::NotFound)
        }
    }

    /// The rows among `rows` that may be shown, in their order.
    pub open spec fn visible<T: StudentRecord>(self, rows: Seq<T>) -> Seq<T> {
        rows.filter(|row: T| self.permits(row.owner()))
    }
}

impl View for Visibility {
    type V = Sight;

    open spec fn view(&self) -> Sight {
        match self {
            Visibility::All => Sight::All,
            Visibility::Only(ids) => Sight::Only(ids@),
        }
    }
}

/// Decides whether the identifier is among those listed.
pub fn holds_id(ids: &Vec<u128>, id: u128) -> (r: bool)
    ensures
        r == ids@.contains(id),
{
    let mut i: usize = 0;
    while i < ids.len()
        invariant
            i <= ids@.len(),
            forall|j: int| 0 <= j < i ==> ids@[j] != id,
        decreases ids@.len() - i,
    {
        if ids[i] == id {
            assert(ids@[i as int] == id);
            return true;
        }
        i = i + 1;
    }
    false
}

impl Visibility {
    /// Decides whether rows of the student may be shown.
    pub fn allows(&self, student_id: u128) -> (r: bool)
        ensures
            r == self@.permits(student_id),
    {
        match self {
            Visibility::All => true,
            Visibility::Only(ids) => holds_id(ids, student_id),
        }
    }

    /// Decides whether a row of the student may be shown. A row out of sight
    /// is reported as absent, whether it exists or not.
    pub fn authorize_row(&self, student_id: u128) -> (answer: Decision)
        ensures
            answer == self@.row_decision(student_id),
    {
        if self.allows(student_id) {
            Decision::Allow
        } else {
            Decision::Deny(DenyReason::NotFound)
        }
    }

    /// Keeps the rows that may be shown, in their order, and drops the rest.
    pub fn retain<T: StudentRecord>(&self, rows: Vec<T>) -> (kept: Vec<T>)
        ensures
            kept@ == self@.visible(rows@),
    {
        let ghost all = rows@;
        let ghost pred = |row: T| self@.permits(row.owner());
        let mut kept: Vec<T> = Vec::new();
        for row in it: rows
            invariant
                it.seq() == all,
                pred == (|row: T| self@.permits(row.owner())),
                kept@ == all.take(it.index() as int).filter(pred),
        {
            proof {
                let k = it.index() as int;
                assert(all.take(k + 1).drop_last() =~= all.take(k));
                reveal_with_fuel(Seq::filter, 2);
            }
            match self.authorize_row(row.student_id()) {
                Decision::Allow => kept.push(row),
                Decision::Deny(_) => {},
            }
        }
        proof {
            assert(all.take(all.len() as int) =~= all);
        }
        kept
    }
}

} // verus!
