//! Where a virtual path lies in the file system, once it is set under the
//! served root.

use vstd::prelude::*;
use crate::utils::{is_sanitary, parent_segment_at};
use crate::wire::{DOT, SEPARATOR};

verus! {

/// A path without the empty and single-dot segments at its front, the root
/// marker among them.
pub open spec fn trim_front(path: Seq<u8>) -> Seq<u8>
    decreases path.len(),
{
    if path.len() >= 1 && path[0] == SEPARATOR {
        trim_front(path.skip(1))
    } else if path.len() >= 2 && path[0] == DOT && path[1] == SEPARATOR {
        trim_front(path.skip(2))
    } else if path.len() == 1 && path[0] == DOT {
        Seq::empty()
    } else {
        path
    }
}

/// A path without the empty and single-dot segments at its back.
pub open spec fn trim_back(path: Seq<u8>) -> Seq<u8>
    decreases path.len(),
{
    if path.len() >= 1 && path.last() == SEPARATOR {
        trim_back(path.drop_last())
    } else if path.len() >= 2 && path.last() == DOT && path[path.len() - 2] == SEPARATOR {
        trim_back(path.take(path.len() - 2))
    } else if path.len() == 1 && path[0] == DOT {
        Seq::empty()
    } else {
        path
    }
}

/// What is left of a virtual path to set under the served root.
pub open spec fn relative(path: Seq<u8>) -> Seq<u8> {
    trim_back(trim_front(path))
}

/// The served root as the start of a longer path: with a separator behind
/// it, unless it ends in one or is empty.
pub open spec fn as_directory(root: Seq<u8>) -> Seq<u8> {
    if root.len() > 0 && root.last() != SEPARATOR {
        root + seq![SEPARATOR]
    } else {
        root
    }
}

/// The place in the file system that a virtual path names when `root` is
/// served.
pub open spec fn resolved(root: Seq<u8>, path: Seq<u8>) -> Seq<u8> {
    as_directory(root) + relative(path)
}

/// `path` holds no parent-directory segment.
pub open spec fn no_parent(path: Seq<u8>) -> bool {
    forall|i: int| !parent_segment_at(path, i)
}

/// Every parent-directory segment of `place` lies in its first `len` bytes.
pub open spec fn parents_within(place: Seq<u8>, len: int) -> bool {
    forall|i: int| parent_segment_at(place, i) ==> i + 2 <= len
}

/// What follows a separator holds a parent-directory segment only where
/// the whole does.
proof fn parent_segment_of_tail(path: Seq<u8>, k: int, i: int)
    requires
        1 <= k <= path.len(),
        path[k - 1] == SEPARATOR,
        parent_segment_at(path.skip(k), i),
    ensures
        parent_segment_at(path, i + k),
{
}

/// What stands before a separator, or is the whole, holds a
/// parent-directory segment only where the whole does.
proof fn parent_segment_of_front(path: Seq<u8>, m: int, i: int)
    requires
        0 <= m <= path.len(),
        m == path.len() || path[m] == SEPARATOR,
        parent_segment_at(path.take(m), i),
    ensures
        parent_segment_at(path, i),
{
}

/// Trimming the front brings in no parent-directory segment, and leaves no
/// separator in front.
proof fn trim_front_keeps_clean(path: Seq<u8>)
    requires
        no_parent(path),
    ensures
        no_parent(trim_front(path)),
        trim_front(path).len() > 0 ==> trim_front(path)[0] != SEPARATOR,
    decreases path.len(),
{
    if path.len() >= 1 && path[0] == SEPARATOR {
        assert forall|i: int| !parent_segment_at(path.skip(1), i) by {
            if parent_segment_at(path.skip(1), i) {
                parent_segment_of_tail(path, 1, i);
            }
        }
        trim_front_keeps_clean(path.skip(1));
    } else if path.len() >= 2 && path[0] == DOT && path[1] == SEPARATOR {
        assert forall|i: int| !parent_segment_at(path.skip(2), i) by {
            if parent_segment_at(path.skip(2), i) {
                parent_segment_of_tail(path, 2, i);
            }
        }
        trim_front_keeps_clean(path.skip(2));
    }
}

/// Trimming the back brings in no parent-directory segment, and no
/// separator in front.
proof fn trim_back_keeps_clean(path: Seq<u8>)
    requires
        no_parent(path),
        path.len() > 0 ==> path[0] != SEPARATOR,
    ensures
        no_parent(trim_back(path)),
        trim_back(path).len() > 0 ==> trim_back(path)[0] != SEPARATOR,
    decreases path.len(),
{
    if path.len() >= 1 && path.last() == SEPARATOR {
        let front = path.drop_last();
        assert forall|i: int| !parent_segment_at(front, i) by {
            if parent_segment_at(front, i) {
                parent_segment_of_front(path, path.len() - 1, i);
            }
        }
        trim_back_keeps_clean(front);
    } else if path.len() >= 2 && path.last() == DOT && path[path.len() - 2] == SEPARATOR {
        let front = path.take(path.len() - 2);
        assert forall|i: int| !parent_segment_at(front, i) by {
            if parent_segment_at(front, i) {
                parent_segment_of_front(path, path.len() - 2, i);
            }
        }
        trim_back_keeps_clean(front);
    }
}

/// A sanitary path never leaves the served root: the place it is resolved
/// to starts with the root as a directory, and every parent-directory
/// segment of the place lies in the root itself, as whoever configured the
/// server wrote it.
pub proof fn resolved_stays_under_root(root: Seq<u8>, path: Seq<u8>)
    requires
        is_sanitary(path),
    ensures
        as_directory(root).is_prefix_of(resolved(root, path)),
        parents_within(resolved(root, path), root.len() as int),
{
    let base = as_directory(root);
    let rel = relative(path);
    let place = resolved(root, path);
    assert(no_parent(path)) by {
        assert forall|i: int| !parent_segment_at(path, i) by {}
    }
    trim_front_keeps_clean(path);
    trim_back_keeps_clean(trim_front(path));
    assert forall|i: int| parent_segment_at(place, i) implies i + 2 <= root.len() by {
        if i >= base.len() {
            // the segment would lie in the relative part, which holds none
            assert(parent_segment_at(rel, i - base.len()));
        } else if i + 2 > root.len() {
            // the segment would end at or after the separator behind the root
            assert(place[i + 1] == SEPARATOR || place[i] == SEPARATOR);
        }
    }
}

/// Sets a virtual path under the served root.
pub fn locate(root: &[u8], path: &[u8]) -> (place: Vec<u8>)
    ensures
        place@ == resolved(root@, path@),
{
    let n: usize = path.len();
    let mut start: usize = 0;
    assert(path@.skip(0) =~= path@);
    loop
        invariant
            n == path.len(),
            start <= n,
            trim_front(path@) == trim_front(path@.skip(start as int)),
        ensures
            start <= n,
            trim_front(path@) == path@.skip(start as int),
        decreases n - start,
    {
        let ghost rest = path@.skip(start as int);
        if start < n && path[start] == SEPARATOR {
            assert(rest.skip(1) =~= path@.skip(start + 1));
            start += 1;
        } else if n - start >= 2 && path[start] == DOT && path[start + 1] == SEPARATOR {
            assert(rest.skip(2) =~= path@.skip(start + 2));
            start += 2;
        } else if n - start == 1 && path[start] == DOT {
            start = n;
            break ;
        } else {
            break ;
        }
    }
    let ghost front = path@.skip(start as int);
    let mut end: usize = n;
    loop
        invariant
            n == path.len(),
            start <= end <= n,
            front == path@.skip(start as int),
            trim_back(front) == trim_back(path@.subrange(start as int, end as int)),
        ensures
            start <= end <= n,
            trim_back(front) == path@.subrange(start as int, end as int),
        decreases end - start,
    {
        let ghost rest = path@.subrange(start as int, end as int);
        if start < end && path[end - 1] == SEPARATOR {
            assert(rest.drop_last() =~= path@.subrange(start as int, end - 1));
            end -= 1;
        } else if end - start >= 2 && path[end - 1] == DOT && path[end - 2] == SEPARATOR {
            assert(rest.take(rest.len() - 2) =~= path@.subrange(start as int, end - 2));
            end -= 2;
        } else if end - start == 1 && path[start] == DOT {
            end = start;
            break ;
        } else {
            break ;
        }
    }
    let mut place: Vec<u8> = Vec::new();
    place.extend_from_slice(root);
    if root.len() > 0 && root[root.len() - 1] != SEPARATOR {
        place.push(SEPARATOR);
    }
    place.extend_from_slice(vstd::slice::slice_subrange(path, start, end));
    place
}

} // verus!
