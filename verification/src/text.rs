use vstd::prelude::*;
use vstd::string::StrSliceExecFns;

verus! {

/// Whether `char::is_alphabetic` returns true of a character: the Unicode
/// `Alphabetic` property. The result depends on the character alone.
pub uninterp spec fn alphabetic(c: char) -> bool;

/// Whether `char::is_whitespace` returns true of a character: the Unicode
/// `White_Space` property. The result depends on the character alone.
pub uninterp spec fn whitespace(c: char) -> bool;

/// Relies on `char::is_alphabetic` (core): names its result, which is a
/// function of the character alone.
pub assume_specification[ char::is_alphabetic ](c: char) -> (r: bool)
    ensures
        r == alphabetic(c),
;

/// Relies on `char::is_whitespace` (core): names its result, which is a
/// function of the character alone.
pub assume_specification[ char::is_whitespace ](c: char) -> (r: bool)
    ensures
        r == whitespace(c),
;

/// Character-wise equality of two string slices.
pub fn str_eq(a: &str, b: &str) -> (r: bool)
    ensures
        r == (a@ == b@),
{
    let la = a.unicode_len();
    let lb = b.unicode_len();
    if la != lb {
        return false;
    }
    let mut i: usize = 0;
    while i < la
        invariant
            i <= la,
            la == a@.len(),
            la == b@.len(),
            forall|j: int| 0 <= j < i ==> a@[j] == b@[j],
        decreases la - i,
    {
        if a.get_char(i) != b.get_char(i) {
            return false;
        }
        i = i + 1;
    }
    proof {
        assert(a@ =~= b@);
    }
    true
}

} // verus!
