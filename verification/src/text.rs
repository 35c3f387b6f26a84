//! Character-level helpers on string slices: equality, prefix and suffix
//! tests, each tied to the corresponding statement about the string's view.

use vstd::prelude::*;
use vstd::string::StrSliceExecFns;

verus! {

/// Character-by-character equality of two string slices.
pub fn str_eq(a: &str, b: &str) -> (r: bool)
    ensures
        r == (a@ == b@),
{
    let alen = a.unicode_len();
    let blen = b.unicode_len();
    if alen != blen {
        return false;
    }
    let mut i: usize = 0;
    while i < alen
        invariant
            alen == a@.len(),
            blen == b@.len(),
            alen == blen,
            i <= alen,
            forall|j: int| 0 <= j < i ==> a@[j] == b@[j],
        decreases alen - i,
    {
        if a.get_char(i) != b.get_char(i) {
            return false;
        }
        i += 1;
    }
    proof {
        assert(a@ =~= b@);
    }
    true
}

/// Whether `p` is a prefix of `s`, comparing character by character.
pub fn str_has_prefix(s: &str, p: &str) -> (r: bool)
    ensures
        r == p@.is_prefix_of(s@),
{
    let slen = s.unicode_len();
    let plen = p.unicode_len();
    if plen > slen {
        return false;
    }
    let mut i: usize = 0;
    while i < plen
        invariant
            slen == s@.len(),
            plen == p@.len(),
            plen <= slen,
            i <= plen,
            forall|j: int| 0 <= j < i ==> s@[j] == p@[j],
        decreases plen - i,
    {
        if s.get_char(i) != p.get_char(i) {
            proof {
                assert(!p@.is_prefix_of(s@)) by {
                    if p@.is_prefix_of(s@) {
                        assert(p@[i as int] == s@.subrange(0, p@.len() as int)[i as int]);
                    }
                }
            }
            return false;
        }
        i += 1;
    }
    proof {
        assert(p@ =~= s@.subrange(0, p@.len() as int));
    }
    true
}

/// Whether `x` is a suffix of `s`, comparing character by character.
pub fn str_has_suffix(s: &str, x: &str) -> (r: bool)
    ensures
        r == x@.is_suffix_of(s@),
{
    let slen = s.unicode_len();
    let xlen = x.unicode_len();
    if xlen > slen {
        return false;
    }
    let off = slen - xlen;
    let mut i: usize = 0;
    while i < xlen
        invariant
            slen == s@.len(),
            xlen == x@.len(),
            xlen <= slen,
            off == slen - xlen,
            i <= xlen,
            forall|j: int| 0 <= j < i ==> s@[off + j] == x@[j],
        decreases xlen - i,
    {
        if s.get_char(off + i) != x.get_char(i) {
            proof {
                assert(!x@.is_suffix_of(s@)) by {
                    if x@.is_suffix_of(s@) {
                        let sub = s@.subrange(s@.len() - x@.len(), s@.len() as int);
                        assert(x@[i as int] == sub[i as int]);
                    }
                }
            }
            return false;
        }
        i += 1;
    }
    proof {
        assert(x@ =~= s@.subrange(s@.len() - x@.len(), s@.len() as int));
    }
    true
}

} // verus!
