//! File names and paths as raw bytes.

use vstd::prelude::*;
use vstd::slice::slice_to_vec;

verus! {

/// The byte that separates the components of a path.
pub const SEPARATOR: u8 = 0x2f;

/// `name` joined onto `base`: an absolute `name` replaces `base`; otherwise
/// `name` follows `base`, after a separator unless `base` is empty or already
/// ends in one.
pub open spec fn joined(base: Seq<u8>, name: Seq<u8>) -> Seq<u8> {
    if name.len() > 0 && name[0] == SEPARATOR {
        name
    } else if base.len() == 0 || base.last() == SEPARATOR {
        base + name
    } else {
        base.push(SEPARATOR) + name
    }
}

/// Whether `a` and `b` are the same bytes.
pub fn same_bytes(a: &[u8], b: &[u8]) -> (same: bool)
    ensures
        same == (a@ == b@),
{
    if a.len() != b.len() {
        return false;
    }
    let mut i: usize = 0;
    while i < a.len()
        invariant
            i <= a.len(),
            a.len() == b.len(),
            a@.take(i as int) == b@.take(i as int),
        decreases a.len() - i,
    {
        if a[i] != b[i] {
            return false;
        }
        i += 1;
    }
    assert(a@ == a@.take(i as int) && b@ == b@.take(i as int));
    true
}

/// Joins `name` onto `base`.
pub fn join(base: &[u8], name: &[u8]) -> (path: Vec<u8>)
    ensures
        path@ == joined(base@, name@),
{
    if name.len() > 0 && name[0] == SEPARATOR {
        return slice_to_vec(name);
    }
    let mut path = slice_to_vec(base);
    if base.len() > 0 && base[base.len() - 1] != SEPARATOR {
        path.push(SEPARATOR);
    }
    path.extend_from_slice(name);
    path
}

} // verus!
