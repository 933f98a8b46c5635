//! Self-test routine: exercises the full addressable block range of a
//! backend to validate round-trip correctness.

use vstd::prelude::*;

use crate::device::filled_block;
use crate::device::BlockDevice;
use crate::ramdisk_block::RAMDISK_BLOCKS;
use crate::BLOCK_SZ;

verus! {

/// The byte value the self-test writes to every byte of block `i`.
pub open spec fn test_pattern(i: int) -> u8 {
    (i % 256) as u8
}

/// Builds a block-sized buffer in which every byte carries the value `b`.
fn filled_buffer(b: u8) -> (v: Vec<u8>)
    ensures
        v@ == filled_block(b),
{
    let mut v: Vec<u8> = Vec::new();
    while v.len() < BLOCK_SZ
        invariant
            v@.len() <= BLOCK_SZ,
            forall|k: int| 0 <= k < v@.len() ==> v@[k] == b,
        decreases BLOCK_SZ - v@.len(),
    {
        v.push(b);
    }
    proof {
        assert(v@ =~= filled_block(b));
    }
    v
}

/// Byte-for-byte comparison of two buffers.
fn buffers_match(a: &Vec<u8>, b: &Vec<u8>) -> (r: bool)
    ensures
        r == (a@ == b@),
{
    if a.len() != b.len() {
        return false;
    }
    let mut k: usize = 0;
    while k < a.len()
        invariant
            k <= a@.len(),
            a@.len() == b@.len(),
            forall|m: int| 0 <= m < k ==> a@[m] == b@[m],
        decreases a@.len() - k,
    {
        if a[k] != b[k] {
            return false;
        }
        k += 1;
    }
    proof {
        assert(a@ =~= b@);
    }
    true
}

/// Diagnostic covering the full addressable range of the active backend:
/// fills every block `i` in `0 .. RAMDISK_BLOCKS` with the byte value
/// `i mod 256`, writes it, reads it back into a separate buffer, and
/// compares byte for byte.
///
/// The result reports whether every block came back unchanged; against any
/// backend meeting the capability contract it is proven to be `true`, with
/// zero mismatches over the whole range, and on return the medium provably
/// carries the full test pattern.
pub fn block_device_test<B: BlockDevice>(dev: &mut B) -> (r: bool)
    requires
        old(dev).wf(),
        old(dev).blocks().len() == RAMDISK_BLOCKS,
    ensures
        r == true,
        final(dev).wf(),
        final(dev).blocks().len() == RAMDISK_BLOCKS,
        forall|i: int|
            0 <= i < RAMDISK_BLOCKS ==> final(dev).blocks()[i] == filled_block(test_pattern(i)),
{
    let mut i: usize = 0;
    while i < RAMDISK_BLOCKS
        invariant
            i <= RAMDISK_BLOCKS,
            dev.wf(),
            dev.blocks().len() == RAMDISK_BLOCKS,
            forall|j: int| 0 <= j < i ==> dev.blocks()[j] == filled_block(test_pattern(j)),
        decreases RAMDISK_BLOCKS - i,
    {
        let pat: u8 = (i % 256) as u8;
        let write_buffer = filled_buffer(pat);
        let mut read_buffer = filled_buffer(0);
        if dev.write_block(i, &write_buffer).is_err() {
            return false;
        }
        if dev.read_block(i, &mut read_buffer).is_err() {
            return false;
        }
        if !buffers_match(&write_buffer, &read_buffer) {
            return false;
        }
        i += 1;
    }
    true
}

} // verus!
