//! The check that every virtual path passes before it is resolved.

use vstd::prelude::*;
use crate::wire::{DOT, SEPARATOR};

verus! {

/// The path starts at the root of the served tree.
pub open spec fn is_rooted(path: Seq<u8>) -> bool {
    path.len() > 0 && path[0] == SEPARATOR
}

/// A parent-directory segment starts at `i`: two dots, with a separator or an
/// end of the path on either side.
pub open spec fn parent_segment_at(path: Seq<u8>, i: int) -> bool {
    &&& 0 <= i
    &&& i + 2 <= path.len()
    &&& path[i] == DOT
    &&& path[i + 1] == DOT
    &&& (i == 0 || path[i - 1] == SEPARATOR)
    &&& (i + 2 == path.len() || path[i + 2] == SEPARATOR)
}

/// Some segment of the path is the parent-directory segment.
pub open spec fn has_parent_segment(path: Seq<u8>) -> bool {
    exists|i: int| parent_segment_at(path, i)
}

/// What a virtual path must satisfy to be resolved at all: it is rooted and
/// none of its segments refers to a parent directory.
pub open spec fn is_sanitary(path: Seq<u8>) -> bool {
    is_rooted(path) && !has_parent_segment(path)
}

/// Checks a virtual path as a client gave it. Looks at the bytes only.
pub fn sanitize_request_path(path: &[u8]) -> (ok: bool)
    ensures
        ok == is_sanitary(path@),
{
    let n: usize = path.len();
    if n == 0 || path[0] != SEPARATOR {
        return false;
    }
    let mut i: usize = 0;
    while i < n - 1
        invariant
            n == path.len(),
            1 <= n,
            i <= n - 1,
            forall|k: int| 0 <= k < i ==> !parent_segment_at(path@, k),
        decreases n - i,
    {
        if path[i] == DOT && path[i + 1] == DOT && (i == 0 || path[i - 1] == SEPARATOR) && (i + 2
            == n || path[i + 2] == SEPARATOR) {
            assert(parent_segment_at(path@, i as int));
            return false;
        }
        i += 1;
    }
    assert forall|k: int| !parent_segment_at(path@, k) by {}
    true
}

/// A path that is not rooted is never accepted.
pub proof fn unrooted_path_is_refused(path: Seq<u8>)
    requires
        !is_rooted(path),
    ensures
        !is_sanitary(path),
{
}

/// A path with a parent-directory segment anywhere in it is never accepted.
pub proof fn parent_segment_is_refused(before: Seq<u8>, after: Seq<u8>)
    requires
        before.len() == 0 || before.last() == SEPARATOR,
        after.len() == 0 || after.first() == SEPARATOR,
    ensures
        !is_sanitary(before + seq![DOT, DOT] + after),
{
    let path = before + seq![DOT, DOT] + after;
    assert(parent_segment_at(path, before.len() as int));
}

} // verus!
