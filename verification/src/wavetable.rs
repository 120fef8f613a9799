//! Indexing of the wavetables that the test-signal generators read.

use vstd::prelude::*;

verus! {

/// The two table entries between which a lookup at a fractional index
/// interpolates: the entry at the integer part of the index, and the one
/// after it, which for the last entry is the first.
pub fn neighbors(int_part: usize, wt_len: usize) -> (entries: (usize, usize))
    requires
        int_part < wt_len,
    ensures
        entries.0 == int_part,
        entries.1 == (int_part + 1) % wt_len as int,
        entries.1 < wt_len,
        int_part + 1 < wt_len ==> entries.1 == int_part + 1,
        int_part + 1 == wt_len ==> entries.1 == 0,
{
    let x0: usize = int_part;
    let x1: usize = if x0 + 1 == wt_len {
        0
    } else {
        x0 + 1
    };
    assert(x1 == (int_part + 1) % wt_len as int) by {
        if int_part + 1 < wt_len {
            vstd::arithmetic::div_mod::lemma_small_mod((int_part + 1) as nat, wt_len as nat);
        } else {
            vstd::arithmetic::div_mod::lemma_mod_self_0(wt_len as int);
        }
    }
    (x0, x1)
}

} // verus!
