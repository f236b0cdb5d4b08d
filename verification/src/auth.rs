use crate::error::{agrees, ApiError, ErrorKind, Failure};
use crate::models::user::{Role, User};
use vstd::prelude::*;

verus! {

/// The kinds of resource the policy speaks of.
#[derive(Clone, Copy, Debug, PartialEq, Eq, Structural)]
pub enum ResourceKind {
    User,
    Student,
    Grade,
    Absence,
    ParentLink,
}

/// What a caller asks to do with a resource.
#[derive(Clone, Copy, Debug, PartialEq, Eq, Structural)]
pub enum Operation {
    Create,
    Read,
    Update,
    Delete,
    List,
}

/// Why a request was denied.
#[derive(Clone, Copy, Debug, PartialEq, Eq, Structural)]
pub enum DenyReason {
    /// The caller's role is not among those the policy lets through.
    InsufficientRole,
    /// The role would do, but the resource belongs to somebody else.
    OwnershipMismatch,
    /// The caller has no sight of the resource: it is reported as absent,
    /// whether it exists or not.
    NotFound,
}

/// The engine's answer.
#[derive(Clone, Copy, Debug, PartialEq, Eq, Structural)]
pub enum Decision {
    Allow,
    Deny(DenyReason),
}

impl Operation {
    /// The operation changes the store.
    pub open spec fn writes(self) -> bool {
        self is Create || self is Update || self is Delete
    }
}

/// The roles that may create, update and delete a resource of the kind.
pub open spec fn may_write(role: Role, kind: ResourceKind) -> bool {
    match kind {
        ResourceKind::User => role is Admin,
        ResourceKind::Student | ResourceKind::ParentLink => role is Admin || role is Director,
        ResourceKind::Grade | ResourceKind::Absence => role is Admin || role is Director
            || role is Teacher,
    }
}

/// The roles that may read and list resources of the kind whoever they belong
/// to. For grades and absences every role may ask; what a parent or a student
/// is then shown is narrowed row by row.
pub open spec fn may_read(role: Role, kind: ResourceKind) -> bool {
    match kind {
        ResourceKind::User | ResourceKind::ParentLink => role is Admin || role is Director,
        ResourceKind::Student | ResourceKind::Grade | ResourceKind::Absence => true,
    }
}

/// The request is one that the caller's own identity can open: a parent
/// reading parent links, or anybody reading a single user.
pub open spec fn owner_scoped(role: Role, operation: Operation, kind: ResourceKind) -> bool {
    !operation.writes() && (kind is ParentLink && role is Parent || kind is User
        && operation is Read)
}

/// The policy: the decision for a caller of the given role and identity who
/// asks for `operation` on a resource of `kind`, `target` being the user that
/// the resource belongs to where the request names one.
pub open spec fn decision(
    role: Role,
    caller_id: u128,
    operation: Operation,
    kind: ResourceKind,
    target: Option<u128>,
) -> Decision {
    if operation.writes() {
        if may_write(role, kind) {
            Decision::Allow
        } else {
            Decision::Deny(DenyReason::InsufficientRole)
        }
    } else if may_read(role, kind) {
        Decision::Allow
    } else if kind is ParentLink && role is Parent {
        if target == Some(caller_id) {
            Decision::Allow
        } else {
            Decision::Deny(DenyReason::OwnershipMismatch)
        }
    } else if kind is User && operation is Read && target == Some(caller_id) {
        Decision::Allow
    } else {
        Decision::Deny(DenyReason::InsufficientRole)
    }
}

/// The message of a denial for want of role.
pub open spec fn insufficient_role_message(role: Role) -> Seq<char> {
    "Insufficient permissions for role "@ + role.label()
}

/// The error that a denial becomes.
pub open spec fn denial(reason: DenyReason, role: Role) -> Failure {
    match reason {
        DenyReason::InsufficientRole => Failure {
            kind: ErrorKind::Forbidden,
            message: insufficient_role_message(role),
        },
        DenyReason::OwnershipMismatch => Failure {
            kind: ErrorKind::Forbidden,
            message: "Parents can only access their own children"@,
        },
        DenyReason::NotFound => Failure { kind: ErrorKind::NotFound, message: "Not found"@ },
    }
}

fn writes(operation: Operation) -> (r: bool)
    ensures
        r == operation.writes(),
{
    match operation {
        Operation::Create | Operation::Update | Operation::Delete => true,
        Operation::Read | Operation::List => false,
    }
}

fn role_may_write(role: Role, kind: ResourceKind) -> (r: bool)
    ensures
        r == may_write(role, kind),
{
    match kind {
        ResourceKind::User => role == Role::Admin,
        ResourceKind::Student | ResourceKind::ParentLink => role == Role::Admin || role
            == Role::Director,
        ResourceKind::Grade | ResourceKind::Absence => role == Role::Admin || role
            == Role::Director || role == Role::Teacher,
    }
}

fn role_may_read(role: Role, kind: ResourceKind) -> (r: bool)
    ensures
        r == may_read(role, kind),
{
    match kind {
        ResourceKind::User | ResourceKind::ParentLink => role == Role::Admin || role
            == Role::Director,
        ResourceKind::Student | ResourceKind::Grade | ResourceKind::Absence => true,
    }
}

fn names(target: Option<u128>, id: u128) -> (r: bool)
    ensures
        r == (target == Some(id)),
{
    match target {
        Some(t) => t == id,
        None => false,
    }
}

/// Decides a request by the policy. The answer depends on the caller's role,
/// the operation and the kind of resource, and on the caller's identity and
/// the target only where the request is owner-scoped.
pub fn authorize(
    caller: &User,
    operation: Operation,
    kind: ResourceKind,
    target: Option<u128>,
) -> (answer: Decision)
    ensures
        answer == decision(caller.role, caller.id, operation, kind, target),
{
    if writes(operation) {
        if role_may_write(caller.role, kind) {
            Decision::Allow
        } else {
            Decision::Deny(DenyReason::InsufficientRole)
        }
    } else if role_may_read(caller.role, kind) {
        Decision::Allow
    } else if kind == ResourceKind::ParentLink && caller.role == Role::Parent {
        if names(target, caller.id) {
            Decision::Allow
        } else {
            Decision::Deny(DenyReason::OwnershipMismatch)
        }
    } else if kind == ResourceKind::User && operation == Operation::Read && names(
        target,
        caller.id,
    ) {
        Decision::Allow
    } else {
        Decision::Deny(DenyReason::InsufficientRole)
    }
}

/// Outside the owner-scoped requests the decision is a function of role,
/// operation and kind alone: who the caller is and whom the request names do
/// not count.
pub proof fn lemma_decision_by_role(
    role: Role,
    operation: Operation,
    kind: ResourceKind,
    caller_a: u128,
    target_a: Option<u128>,
    caller_b: u128,
    target_b: Option<u128>,
)
    requires
        !owner_scoped(role, operation, kind),
    ensures
        decision(role, caller_a, operation, kind, target_a) == decision(
            role,
            caller_b,
            operation,
            kind,
            target_b,
        ),
{
}

/// In an owner-scoped request the decision looks at the caller's identity and
/// the target only to see whether the one is the other.
pub proof fn lemma_decision_by_ownership(
    role: Role,
    operation: Operation,
    kind: ResourceKind,
    caller_a: u128,
    target_a: Option<u128>,
    caller_b: u128,
    target_b: Option<u128>,
)
    requires
        (target_a == Some(caller_a)) == (target_b == Some(caller_b)),
    ensures
        decision(role, caller_a, operation, kind, target_a) == decision(
            role,
            caller_b,
            operation,
            kind,
            target_b,
        ),
{
}

/// A parent who asks for the links of another parent is refused for
/// ownership, whether or not that parent exists.
pub proof fn lemma_parent_sees_own_links_only(caller_id: u128, parent_id: u128)
    ensures
        decision(
            Role::Parent,
            caller_id,
            Operation::List,
            ResourceKind::ParentLink,
            Some(parent_id),
        ) == if parent_id == caller_id {
            Decision::Allow
        } else {
            Decision::Deny(DenyReason::OwnershipMismatch)
        },
{
}

/// An administrator is allowed every operation on every kind of resource,
/// and whoever may change a kind of resource may also read it.
pub proof fn lemma_policy_is_layered(
    role: Role,
    caller_id: u128,
    operation: Operation,
    kind: ResourceKind,
    target: Option<u128>,
)
    ensures
        decision(Role::Admin, caller_id, operation, kind, target) == Decision::Allow,
        may_write(role, kind) ==> may_read(role, kind),
        may_write(role, kind) ==> decision(role, caller_id, operation, kind, target)
            == Decision::Allow,
{
}

/// The three reasons for a denial give three different errors, so that the
/// caller can tell them apart.
pub proof fn lemma_denials_differ(role: Role)
    ensures
        denial(DenyReason::InsufficientRole, role) != denial(DenyReason::OwnershipMismatch, role),
        denial(DenyReason::InsufficientRole, role) != denial(DenyReason::NotFound, role),
        denial(DenyReason::OwnershipMismatch, role) != denial(DenyReason::NotFound, role),
{
    reveal_strlit("Insufficient permissions for role ");
    reveal_strlit("Parents can only access their own children");
    let head = "Insufficient permissions for role "@;
    let whole = insufficient_role_message(role);
    assert(whole[0] == head[0]);
    assert(whole[0] == 'I');
    assert("Parents can only access their own children"@[0] == 'P');
}

/// Turns a decision into the outcome of the request so far.
pub fn enforce(answer: Decision, role: Role) -> (r: Result<(), ApiError>)
    ensures
        answer is Allow ==> r == Ok::<(), ApiError>(()),
        answer matches Decision::Deny(reason) ==> r is Err && r->Err_0@ == denial(reason, role),
{
    match answer {
        Decision::Allow => Ok(()),
        Decision::Deny(DenyReason::InsufficientRole) => Err(
            ApiError::joined(
                ErrorKind::Forbidden,
                "Insufficient permissions for role ",
                role.as_label(),
            ),
        ),
        Decision::Deny(DenyReason::OwnershipMismatch) => Err(
            ApiError::new(ErrorKind::Forbidden, "Parents can only access their own children"),
        ),
        Decision::Deny(DenyReason::NotFound) => Err(ApiError::new(ErrorKind::NotFound, "Not found")),
    }
}

/// Lets the caller through if the caller's role is one of `allowed`.
pub fn require_role(user: &User, allowed: &[Role]) -> (r: Result<(), ApiError>)
    ensures
        allowed@.contains(user.role) ==> r == Ok::<(), ApiError>(()),
        !allowed@.contains(user.role) ==> r is Err && r->Err_0@ == denial(
            DenyReason::InsufficientRole,
            user.role,
        ),
{
    let mut i: usize = 0;
    while i < allowed.len()
        invariant
            i <= allowed@.len(),
            forall|j: int| 0 <= j < i ==> allowed@[j] != user.role,
        decreases allowed@.len() - i,
    {
        if allowed[i] == user.role {
            return Ok(());
        }
        i = i + 1;
    }
    enforce(Decision::Deny(DenyReason::InsufficientRole), user.role)
}

/// What a request comes to once the policy has been asked: the denial's error
/// where the policy denies it, and `inner` where it allows it.
pub open spec fn guarded<T>(
    caller: User,
    operation: Operation,
    kind: ResourceKind,
    target: Option<u128>,
    inner: Result<T, Failure>,
) -> Result<T, Failure> {
    match decision(caller.role, caller.id, operation, kind, target) {
        Decision::Allow => inner,
        Decision::Deny(reason) => Err(denial(reason, caller.role)),
    }
}

/// Authorizes a request and turns a denial into its error.
pub fn guard(
    caller: &User,
    operation: Operation,
    kind: ResourceKind,
    target: Option<u128>,
) -> (r: Result<(), ApiError>)
    ensures
        agrees(guarded(*caller, operation, kind, target, Ok(())), r),
{
    enforce(authorize(caller, operation, kind, target), caller.role)
}

} // verus!
