use vstd::prelude::*;

verus! {

/// What the `uuid` crate reads out of a text: the identifier it denotes, as
/// the 128-bit number made of its sixteen bytes in order, or nothing where the
/// text is not an identifier in one of the crate's four notations.
pub uninterp spec fn uuid_of_text(text: Seq<char>) -> Option<u128>;

/// Calls `uuid::Uuid::parse_str` and hands the identifier out as a number
/// through `Uuid::as_u128`. The contract names the outcome and claims no more:
/// the parser looks at the text alone and does not panic.
#[verifier::external_body]
pub(crate) fn uuid_from_str(text: &str) -> (id: Option<u128>)
    ensures
        id == uuid_of_text(text@),
{
    match uuid::Uuid::parse_str(text) {
        Ok(parsed) => Some(parsed.as_u128()),
        Err(_) => None,
    }
}

} // verus!
