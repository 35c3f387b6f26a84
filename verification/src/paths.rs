//! Canonical-path validation.
//!
//! A request path is a caller-supplied relative path, untrusted. Before any
//! filesystem use it must be canonical: when split on `/`, no segment may be
//! `.` or `..`, and no segment may be empty except the leading one (a path
//! such as `/a` keeps its meaning) and the trailing one that a trailing slash
//! produces. Equivalently, over the characters themselves: the path holds no
//! two adjacent slashes and no segment that is exactly `.` or `..`. This
//! guards against traversal outside the served trees.

use vstd::prelude::*;
use vstd::string::StrSliceExecFns;
use vstd::string::StringExecFns;
use crate::error::{CallError, CallErrorView};

verus! {

/// Two adjacent slashes stand at position `i`, which would make the segment
/// between them empty.
pub open spec fn double_slash_at(s: Seq<char>, i: int) -> bool {
    &&& 0 <= i
    &&& i + 1 < s.len()
    &&& s[i] == '/'
    &&& s[i + 1] == '/'
}

/// Position `i` is the first character of a segment: the start of the path or
/// the position right after a slash.
pub open spec fn segment_starts_at(s: Seq<char>, i: int) -> bool {
    i == 0 || s[i - 1] == '/'
}

/// Position `j` is one past the last character of a segment: the end of the
/// path or the position of a slash.
pub open spec fn segment_ends_at(s: Seq<char>, j: int) -> bool {
    j == s.len() || s[j] == '/'
}

/// A whole segment equal to `.` begins at position `i`.
pub open spec fn dot_segment_at(s: Seq<char>, i: int) -> bool {
    &&& 0 <= i < s.len()
    &&& s[i] == '.'
    &&& segment_starts_at(s, i)
    &&& segment_ends_at(s, i + 1)
}

/// A whole segment equal to `..` begins at position `i`.
pub open spec fn dot_dot_segment_at(s: Seq<char>, i: int) -> bool {
    &&& 0 <= i
    &&& i + 1 < s.len()
    &&& s[i] == '.'
    &&& s[i + 1] == '.'
    &&& segment_starts_at(s, i)
    &&& segment_ends_at(s, i + 2)
}

/// A path is canonical when it holds no empty segment between slashes and no
/// segment that is exactly `.` or `..`.
pub open spec fn is_canonical_path(s: Seq<char>) -> bool {
    &&& forall|i: int| !double_slash_at(s, i)
    &&& forall|i: int| !dot_segment_at(s, i)
    &&& forall|i: int| !dot_dot_segment_at(s, i)
}

/// Accepts exactly the canonical paths; a rejected path comes back named in
/// the fault. Performs no I/O.
pub fn require_canonical_path(path: &str) -> (r: Result<(), CallError>)
    ensures
        r is Ok <==> is_canonical_path(path@),
        r matches Err(e) ==> e@ == (CallErrorView::NonCanonicalPath { path: path@ }),
{
    let n = path.unicode_len();
    let mut i: usize = 0;
    while i < n
        invariant
            n == path@.len(),
            i <= n,
            forall|j: int| 0 <= j < i ==> !double_slash_at(path@, j),
            forall|j: int| 0 <= j < i ==> !dot_segment_at(path@, j),
            forall|j: int| 0 <= j < i ==> !dot_dot_segment_at(path@, j),
        decreases n - i,
    {
        let c = path.get_char(i);
        if c == '/' && i + 1 < n && path.get_char(i + 1) == '/' {
            proof {
                assert(double_slash_at(path@, i as int));
            }
            return Err(CallError::NonCanonicalPath { path: String::from_str(path) });
        }
        if c == '.' && (i == 0 || path.get_char(i - 1) == '/') {
            if i + 1 == n || path.get_char(i + 1) == '/' {
                proof {
                    assert(dot_segment_at(path@, i as int));
                }
                return Err(CallError::NonCanonicalPath { path: String::from_str(path) });
            }
            if path.get_char(i + 1) == '.' && (i + 2 == n || path.get_char(i + 2) == '/') {
                proof {
                    assert(dot_dot_segment_at(path@, i as int));
                }
                return Err(CallError::NonCanonicalPath { path: String::from_str(path) });
            }
        }
        i += 1;
    }
    Ok(())
}

} // verus!
