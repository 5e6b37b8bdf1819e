//! Character-level string comparisons, verified against the character views
//! the contracts speak of.

use vstd::prelude::*;
use vstd::string::StrSliceExecFns;

verus! {

/// Whether two string slices hold the same characters.
pub fn str_eq(a: &str, b: &str) -> (r: bool)
    ensures
        r == (a@ == b@),
{
    let la = a.unicode_len();
    let lb = b.unicode_len();
    if la != lb {
        proof {
            assert(a@ != b@);
        }
        return false;
    }
    let mut i: usize = 0;
    while i < la
        invariant
            a@.len() == la,
            b@.len() == lb,
            la == lb,
            i <= la,
            forall|j: int| 0 <= j < i ==> a@[j] == b@[j],
        decreases la - i,
    {
        if a.get_char(i) != b.get_char(i) {
            return false;
        }
        i = i + 1;
    }
    proof {
        assert(a@ =~= b@);
    }
    true
}

/// Whether the string begins with the prefix, character for character.
pub fn str_has_prefix(s: &str, prefix: &str) -> (r: bool)
    ensures
        r == (s@.len() >= prefix@.len() && s@.subrange(0, prefix@.len() as int) == prefix@),
{
    let ls = s.unicode_len();
    let lp = prefix.unicode_len();
    if ls < lp {
        return false;
    }
    let mut i: usize = 0;
    while i < lp
        invariant
            s@.len() == ls,
            prefix@.len() == lp,
            lp <= ls,
            i <= lp,
            forall|j: int| 0 <= j < i ==> s@[j] == prefix@[j],
        decreases lp - i,
    {
        if s.get_char(i) != prefix.get_char(i) {
            proof {
                assert(s@.subrange(0, lp as int)[i as int] != prefix@[i as int]);
            }
            return false;
        }
        i = i + 1;
    }
    proof {
        assert(s@.subrange(0, lp as int) =~= prefix@);
    }
    true
}

} // verus!
