use crate::auth::{
    authorize, decision, guard, guarded, Decision, DenyReason, Operation, ResourceKind,
};
use crate::error::{agrees, ApiError, ErrorKind, Failure};
use crate::models::parent_student::{LinkParentStudent, LinkParentStudentForm, ParentStudent};
use crate::models::user::User;
use vstd::prelude::*;

verus! {

/// Admits a request to link a parent and a student: the caller must be an
/// administrator or a director, and the body must then be valid.
pub fn link_parent_student(caller: &User, form: LinkParentStudentForm) -> (r: Result<
    LinkParentStudent,
    ApiError,
>)
    ensures
        agrees(
            guarded(
                *caller,
                Operation::Create,
                ResourceKind::ParentLink,
                None,
                LinkParentStudent::of_form(form),
            ),
            r,
        ),
{
    guard(caller, Operation::Create, ResourceKind::ParentLink, None)?;
    LinkParentStudent::validate(form)
}

/// The error for a caller whose role may not read parent links at all.
pub open spec fn links_forbidden() -> Failure {
    Failure { kind: ErrorKind::Forbidden, message: "Insufficient permissions"@ }
}

/// The error for a parent who asks for another parent's links.
pub open spec fn links_of_another() -> Failure {
    Failure { kind: ErrorKind::Forbidden, message: "Parents can only access their own children"@ }
}

/// What a request for the links of `parent_id` comes to: administrators and
/// directors may ask for any parent's, a parent for their own, and nobody
/// else for any. Both refusals are forbidden, so that a parent does not learn
/// from the answer whether the other parent exists.
pub open spec fn links_request(caller: User, parent_id: u128) -> Result<(), Failure> {
    match decision(
        caller.role,
        caller.id,
        Operation::List,
        ResourceKind::ParentLink,
        Some(parent_id),
    ) {
        Decision::Allow => Ok(()),
        Decision::Deny(DenyReason::OwnershipMismatch) => Err(links_of_another()),
        Decision::Deny(_) => Err(links_forbidden()),
    }
}

/// Admits a request for the links of `parent_id`.
pub fn students_for_parent(caller: &User, parent_id: u128) -> (r: Result<(), ApiError>)
    ensures
        agrees(links_request(*caller, parent_id), r),
{
    match authorize(caller, Operation::List, ResourceKind::ParentLink, Some(parent_id)) {
        Decision::Allow => Ok(()),
        Decision::Deny(DenyReason::OwnershipMismatch) => Err(
            ApiError::new(ErrorKind::Forbidden, "Parents can only access their own children"),
        ),
        Decision::Deny(_) => Err(ApiError::new(ErrorKind::Forbidden, "Insufficient permissions")),
    }
}

/// The links of the parent among `rows`, in their order.
pub open spec fn links_of(parent_id: u128, rows: Seq<ParentStudent>) -> Seq<ParentStudent> {
    rows.filter(|link: ParentStudent| link.parent_id == parent_id)
}

/// Keeps the links of the parent that was asked for, and drops any other
/// that the store handed back.
pub fn own_links(parent_id: u128, rows: Vec<ParentStudent>) -> (kept: Vec<ParentStudent>)
    ensures
        kept@ == links_of(parent_id, rows@),
{
    let ghost all = rows@;
    let ghost pred = |link: ParentStudent| link.parent_id == parent_id;
    let mut kept: Vec<ParentStudent> = Vec::new();
    for link in it: rows
        invariant
            it.seq() == all,
            pred == (|link: ParentStudent| link.parent_id == parent_id),
            kept@ == all.take(it.index() as int).filter(pred),
    {
        proof {
            let k = it.index() as int;
            assert(all.take(k + 1).drop_last() =~= all.take(k));
            reveal_with_fuel(Seq::filter, 2);
        }
        if link.parent_id == parent_id {
            kept.push(link);
        }
    }
    proof {
        assert(all.take(all.len() as int) =~= all);
    }
    kept
}

/// A link that is created where there was none is then among its parent's
/// links, once, after those that the parent had, and the links of every other
/// parent are as they were.
pub proof fn lemma_created_link_is_listed(table: Seq<ParentStudent>, link: ParentStudent)
    requires
        !table.contains(link),
    ensures
        links_of(link.parent_id, table.push(link)) == links_of(link.parent_id, table).push(link),
        links_of(link.parent_id, table.push(link)).filter(|held: ParentStudent| held == link)
            == seq![link],
        forall|other: u128|
            other != link.parent_id ==> #[trigger] links_of(other, table.push(link)) == links_of(
                other,
                table,
            ),
{
    reveal_with_fuel(Seq::filter, 2);
    let after = table.push(link);
    assert(after.drop_last() =~= table);
    let same = |held: ParentStudent| held == link;
    let before = links_of(link.parent_id, table);
    assert forall|i: int| 0 <= i < before.len() implies !same(before[i]) by {
        let of_parent = |held: ParentStudent| held.parent_id == link.parent_id;
        lemma_kept_was_there(table, of_parent, i);
    }
    lemma_none_kept(before, same);
    assert(before.push(link).drop_last() =~= before);
    assert(before.filter(same).push(link) =~= seq![link]);
    assert forall|other: u128| other != link.parent_id implies #[trigger] links_of(other, after)
        == links_of(other, table) by {
        assert(after.drop_last() =~= table);
    }
}

/// What a filter keeps was there before.
proof fn lemma_kept_was_there(
    rows: Seq<ParentStudent>,
    p: spec_fn(ParentStudent) -> bool,
    i: int,
)
    requires
        0 <= i < rows.filter(p).len(),
    ensures
        rows.contains(rows.filter(p)[i]),
    decreases rows.len(),
{
    reveal_with_fuel(Seq::filter, 2);
    if rows.len() > 0 {
        let rest = rows.drop_last();
        if i < rest.filter(p).len() {
            lemma_kept_was_there(rest, p, i);
            let k = choose|k: int| 0 <= k < rest.len() && rest[k] == rest.filter(p)[i];
            assert(rows[k] == rest.filter(p)[i]);
        } else {
            assert(rows[rows.len() - 1] == rows.filter(p)[i]);
        }
    }
}

/// A filter that no row passes keeps nothing.
proof fn lemma_none_kept(rows: Seq<ParentStudent>, p: spec_fn(ParentStudent) -> bool)
    requires
        forall|i: int| 0 <= i < rows.len() ==> !p(rows[i]),
    ensures
        rows.filter(p) == Seq::<ParentStudent>::empty(),
    decreases rows.len(),
{
    reveal_with_fuel(Seq::filter, 2);
    if rows.len() > 0 {
        let rest = rows.drop_last();
        assert forall|i: int| 0 <= i < rest.len() implies !p(rest[i]) by {
            assert(rest[i] == rows[i]);
        }
        lemma_none_kept(rest, p);
        assert(!p(rows[rows.len() - 1]));
    }
}

/// Admits a request to delete the link of a parent and a student: the caller
/// must be an administrator or a director.
pub fn delete_parent_student(caller: &User) -> (r: Result<(), ApiError>)
    ensures
        agrees(guarded(*caller, Operation::Delete, ResourceKind::ParentLink, None, Ok(())), r),
{
    guard(caller, Operation::Delete, ResourceKind::ParentLink, None)
}

/// A parent who asks for the links of another parent is forbidden, and a
/// parent who asks for their own is let through.
pub proof fn lemma_parent_reads_own_links_only(caller: User, parent_id: u128)
    requires
        caller.role is Parent,
    ensures
        links_request(caller, parent_id) == if parent_id == caller.id {
            Ok::<(), Failure>(())
        } else {
            Err::<(), Failure>(links_of_another())
        },
        links_of_another().kind.status() == 403,
{
}

} // verus!
