//! Laws of the block-device capability, stated over the abstract medium.
//!
//! A backend meeting the capability contract turns `write_block(i, p)` into
//! `blocks().update(i, p)` and `read_block(i, buf)` into `buf == blocks()[i]`
//! (see [`crate::device::BlockDevice`]); these laws therefore carry over to
//! every pair of calls on such a backend.

use vstd::prelude::*;

verus! {

/// Round-trip: for every valid block index `i` and every payload `p`,
/// writing `p` to block `i` and then reading block `i` yields `p` back.
pub proof fn lemma_write_read_round_trip(medium: Seq<Seq<u8>>, i: int, p: Seq<u8>)
    requires
        0 <= i < medium.len(),
    ensures
        medium.update(i, p)[i] == p,
{
}

/// Isolation: writing block `i` does not alter the contents of any other
/// block `j != i`.
pub proof fn lemma_write_isolation(medium: Seq<Seq<u8>>, i: int, j: int, p: Seq<u8>)
    requires
        0 <= i < medium.len(),
        0 <= j < medium.len(),
        j != i,
    ensures
        medium.update(i, p)[j] == medium[j],
{
}

/// Idempotence: writing the same payload to the same block twice in
/// succession leaves the medium exactly as writing it once does.
pub proof fn lemma_write_idempotent(medium: Seq<Seq<u8>>, i: int, p: Seq<u8>)
    requires
        0 <= i < medium.len(),
    ensures
        medium.update(i, p).update(i, p) == medium.update(i, p),
{
    assert(medium.update(i, p).update(i, p) =~= medium.update(i, p));
}

} // verus!
