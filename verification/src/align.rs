//! Netlink alignment arithmetic.
//!
//! Netlink messages and attributes are padded to four-byte boundaries.

use vstd::prelude::*;
use crate::spec_align4;

verus! {

/// Largest length that can still be aligned without overflowing `usize`.
pub open spec fn alignable(n: int) -> bool {
    n + 3 <= usize::MAX
}

/// Round `len` up to the next multiple of four.
pub fn netlink_align(len: usize) -> (r: usize)
    requires
        alignable(len as int),
    ensures
        r == spec_align4(len as int),
{
    ((len + 3) / 4) * 4
}

/// Number of padding bytes after `len` up to the next multiple of four.
pub fn netlink_padding(len: usize) -> (r: usize)
    requires
        alignable(len as int),
    ensures
        r == spec_align4(len as int) - len,
{
    proof {
        lemma_align4(len as int);
    }
    netlink_align(len) - len
}

/// The aligned length is a multiple of four, is at least `n`, and
/// exceeds `n` by less than four.
pub proof fn lemma_align4(n: int)
    requires
        n >= 0,
    ensures
        spec_align4(n) % 4 == 0,
        spec_align4(n) >= n,
        spec_align4(n) - n < 4,
{
    assert(((n + 3) / 4) * 4 % 4 == 0) by (nonlinear_arith);
    assert(((n + 3) / 4) * 4 >= n && ((n + 3) / 4) * 4 - n < 4) by (nonlinear_arith)
        requires
            n >= 0,
    ;
}

} // verus!
