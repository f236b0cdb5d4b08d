use vstd::prelude::*;
use vstd::string::StringExecFns;

verus! {

/// True when the two texts hold the same characters.
pub fn same_text(a: &str, b: &str) -> (r: bool)
    ensures
        r == (a@ == b@),
{
    let x = String::from_str(a);
    let y = String::from_str(b);
    x == y
}

/// A character that may stand in an e-mail address: printable ASCII other
/// than the blank.
pub open spec fn address_char(c: char) -> bool {
    '!' <= c <= '~'
}

/// An address is well formed when it is made of address characters and holds
/// exactly one `@`, with something before it and something after it.
pub open spec fn well_formed_email(s: Seq<char>) -> bool {
    &&& forall|j: int| 0 <= j < s.len() ==> address_char(#[trigger] s[j])
    &&& exists|i: int|
        {
            &&& 0 < i < s.len() - 1
            &&& #[trigger] s[i] == '@'
            &&& forall|j: int| 0 <= j < s.len() && j != i ==> #[trigger] s[j] != '@'
        }
}

/// Decides whether `text` is a well-formed e-mail address.
pub fn is_well_formed_email(text: &str) -> (r: bool)
    ensures
        r == well_formed_email(text@),
{
    let mut clean = true;
    let mut count: usize = 0;
    let mut at: usize = 0;
    let mut k: usize = 0;
    let n = text.unicode_len();
    for c in it: text.chars()
        invariant
            k == it.index(),
            it.seq() == text@,
            n == text@.len(),
            clean <==> forall|j: int| 0 <= j < k ==> address_char(#[trigger] text@[j]),
            count <= 2,
            count == 0 ==> forall|j: int| 0 <= j < k ==> #[trigger] text@[j] != '@',
            count == 1 ==> at < k && text@[at as int] == '@' && (forall|j: int|
                0 <= j < k && j != at ==> #[trigger] text@[j] != '@'),
            count == 2 ==> exists|a: int, b: int|
                0 <= a < b < k && #[trigger] text@[a] == '@' && #[trigger] text@[b] == '@',
    {
        if !('!' <= c && c <= '~') {
            clean = false;
        }
        if c == '@' {
            if count == 0 {
                at = k;
                count = 1;
            } else if count == 1 {
                assert(text@[at as int] == '@' && text@[k as int] == '@');
                count = 2;
            }
        }
        k = k + 1;
    }
    let r = clean && count == 1 && 0 < at && at < n - 1;
    proof {
        let s = text@;
        if r {
            assert(s[at as int] == '@');
        } else if well_formed_email(s) {
            let i = choose|i: int|
                {
                    &&& 0 < i < s.len() - 1
                    &&& #[trigger] s[i] == '@'
                    &&& forall|j: int| 0 <= j < s.len() && j != i ==> #[trigger] s[j] != '@'
                };
            if count == 2 {
                let (a, b) = choose|a: int, b: int|
                    0 <= a < b < k && #[trigger] s[a] == '@' && #[trigger] s[b] == '@';
                assert(a == i && b == i);
            }
        }
    }
    r
}

} // verus!
