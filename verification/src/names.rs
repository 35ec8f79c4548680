//! Tests on section and symbol names.

use vstd::prelude::*;
use vstd::string::StrSliceExecFns;

verus! {

/// True when `name` begins with `prefix`.
pub fn starts_with(name: &str, prefix: &str) -> (r: bool)
    ensures
        r == prefix@.is_prefix_of(name@),
{
    let n: usize = name.unicode_len();
    let p: usize = prefix.unicode_len();
    if p > n {
        return false;
    }
    let mut i: usize = 0;
    while i < p
        invariant
            i <= p <= n,
            n == name@.len(),
            p == prefix@.len(),
            forall|j: int| 0 <= j < i ==> name@[j] == prefix@[j],
        decreases p - i,
    {
        if name.get_char(i) != prefix.get_char(i) {
            proof {
                assert(name@.subrange(0, p as int)[i as int] == name@[i as int]);
            }
            return false;
        }
        i += 1;
    }
    proof {
        assert(prefix@ =~= name@.subrange(0, p as int));
    }
    true
}

/// True when `name` ends with `suffix`.
pub fn ends_with(name: &str, suffix: &str) -> (r: bool)
    ensures
        r == suffix@.is_suffix_of(name@),
{
    let n: usize = name.unicode_len();
    let p: usize = suffix.unicode_len();
    if p > n {
        return false;
    }
    let start: usize = n - p;
    let mut i: usize = 0;
    while i < p
        invariant
            i <= p <= n,
            start == n - p,
            n == name@.len(),
            p == suffix@.len(),
            forall|j: int| 0 <= j < i ==> name@[start + j] == suffix@[j],
        decreases p - i,
    {
        if name.get_char(start + i) != suffix.get_char(i) {
            proof {
                assert(name@.subrange(start as int, n as int)[i as int] == name@[start + i]);
            }
            return false;
        }
        i += 1;
    }
    proof {
        assert(suffix@ =~= name@.subrange(start as int, n as int));
    }
    true
}

/// True when `a` and `b` are the same text.
pub fn same_text(a: &str, b: &str) -> (r: bool)
    ensures
        r == (a@ == b@),
{
    if a.unicode_len() != b.unicode_len() {
        return false;
    }
    let r = starts_with(a, b);
    proof {
        assert(a@.subrange(0, a@.len() as int) =~= a@);
    }
    r
}

} // verus!
