//! The RAM-backed reference backend: block transfer by direct memory copy.

use vstd::prelude::*;

use vstd::arithmetic::div_mod::lemma_div_by_multiple;
use vstd::arithmetic::div_mod::lemma_fundamental_div_mod;
use vstd::arithmetic::div_mod::lemma_mod_multiples_basic;

use crate::device::filled_block;
use crate::device::DevError;
use crate::BLOCK_SZ;

verus! {

/// The RAM-backed block backend.
///
/// The mapped disk region is an owned, bounds-known byte store; block `i`
/// occupies byte offsets `i * BLOCK_SZ .. (i + 1) * BLOCK_SZ`, and every
/// index-to-offset conversion is checked against the store's extent, so no
/// transfer ever touches memory outside the region.
pub struct RamDiskBlk {
    storage: Vec<u8>,
}

/// Byte extent of block `i` within a region of `len` bytes: the offsets
/// `i * BLOCK_SZ .. (i + 1) * BLOCK_SZ` lie inside the region whenever `i`
/// is below the region's block count.
proof fn lemma_block_bounds(len: int, i: int)
    requires
        len >= 0,
        len % (BLOCK_SZ as int) == 0,
        0 <= i < len / (BLOCK_SZ as int),
    ensures
        0 <= i * (BLOCK_SZ as int),
        i * (BLOCK_SZ as int) + (BLOCK_SZ as int) <= len,
{
    lemma_fundamental_div_mod(len, BLOCK_SZ as int);
}

impl RamDiskBlk {
    /// Well-formedness: the store covers a whole number of blocks.
    pub closed spec fn wf(&self) -> bool {
        self.storage@.len() % (BLOCK_SZ as nat) == 0
    }

    /// The medium as a sequence of blocks, each of exactly `BLOCK_SZ` bytes.
    pub closed spec fn blocks(&self) -> Seq<Seq<u8>> {
        Seq::new(
            self.storage@.len() / (BLOCK_SZ as nat),
            |i: int|
                self.storage@.subrange(
                    i * (BLOCK_SZ as int),
                    i * (BLOCK_SZ as int) + (BLOCK_SZ as int),
                ),
        )
    }

    /// Creates a zero-initialised RAM disk of `num_blocks` blocks.
    pub fn new(num_blocks: usize) -> (disk: Self)
        requires
            num_blocks * BLOCK_SZ <= usize::MAX,
        ensures
            disk.wf(),
            disk.blocks().len() == num_blocks,
            forall|i: int| 0 <= i < num_blocks ==> disk.blocks()[i] == filled_block(0),
    {
        let total: usize = num_blocks * BLOCK_SZ;
        let mut storage: Vec<u8> = Vec::new();
        while storage.len() < total
            invariant
                storage@.len() <= total,
                forall|k: int| 0 <= k < storage@.len() ==> storage@[k] == 0u8,
            decreases total - storage@.len(),
        {
            storage.push(0u8);
        }
        let disk = RamDiskBlk { storage };
        proof {
            lemma_mod_multiples_basic(num_blocks as int, BLOCK_SZ as int);
            lemma_div_by_multiple(num_blocks as int, BLOCK_SZ as int);
            assert(disk.blocks().len() == num_blocks);
            assert forall|i: int| 0 <= i < num_blocks implies disk.blocks()[i] == filled_block(
                0,
            ) by {
                lemma_block_bounds(disk.storage@.len() as int, i);
                assert(disk.blocks()[i] =~= filled_block(0));
            }
        }
        disk
    }

    /// Copies the persisted contents of block `block_id` into `buf`, fully
    /// populating all `BLOCK_SZ` bytes, or rejects an out-of-range index
    /// without touching `buf`.
    pub fn read_block(&mut self, block_id: usize, buf: &mut Vec<u8>) -> (r: Result<(), DevError>)
        requires
            old(self).wf(),
            old(buf)@.len() == BLOCK_SZ,
        ensures
            final(self).wf(),
            final(self).blocks() == old(self).blocks(),
            (block_id as int) < old(self).blocks().len() ==> r is Ok && final(buf)@ == old(
                self,
            ).blocks()[block_id as int],
            (block_id as int) >= old(self).blocks().len() ==> r == Err::<(), DevError>(
                DevError::OutOfRange,
            ) && final(buf)@ == old(buf)@,
    {
        let count: usize = self.storage.len() / BLOCK_SZ;
        if block_id >= count {
            return Err(DevError::OutOfRange);
        }
        proof {
            lemma_block_bounds(self.storage@.len() as int, block_id as int);
        }
        let off: usize = block_id * BLOCK_SZ;
        let mut k: usize = 0;
        while k < BLOCK_SZ
            invariant
                k <= BLOCK_SZ,
                buf@.len() == BLOCK_SZ,
                off == block_id * (BLOCK_SZ as int),
                off + BLOCK_SZ <= self.storage@.len(),
                self.storage@ == old(self).storage@,
                forall|m: int| 0 <= m < k ==> buf@[m] == self.storage@[off + m],
            decreases BLOCK_SZ - k,
        {
            let b: u8 = self.storage[off + k];
            buf[k] = b;
            k += 1;
        }
        proof {
            assert(self.blocks() =~~= old(self).blocks());
            assert(buf@ =~= self.blocks()[block_id as int]);
        }
        Ok(())
    }

    /// Persists all `BLOCK_SZ` bytes of `buf` as the new contents of block
    /// `block_id`, leaving every other block untouched, or rejects an
    /// out-of-range index without writing anything.
    pub fn write_block(&mut self, block_id: usize, buf: &Vec<u8>) -> (r: Result<(), DevError>)
        requires
            old(self).wf(),
            buf@.len() == BLOCK_SZ,
        ensures
            final(self).wf(),
            final(self).blocks().len() == old(self).blocks().len(),
            (block_id as int) < old(self).blocks().len() ==> r is Ok && final(self).blocks() == old(
                self,
            ).blocks().update(block_id as int, buf@),
            (block_id as int) >= old(self).blocks().len() ==> r == Err::<(), DevError>(
                DevError::OutOfRange,
            ) && final(self).blocks() == old(self).blocks(),
    {
        let count: usize = self.storage.len() / BLOCK_SZ;
        if block_id >= count {
            return Err(DevError::OutOfRange);
        }
        proof {
            lemma_block_bounds(self.storage@.len() as int, block_id as int);
        }
        let off: usize = block_id * BLOCK_SZ;
        let mut k: usize = 0;
        while k < BLOCK_SZ
            invariant
                k <= BLOCK_SZ,
                buf@.len() == BLOCK_SZ,
                off == block_id * (BLOCK_SZ as int),
                off + BLOCK_SZ <= self.storage@.len(),
                self.storage@.len() == old(self).storage@.len(),
                forall|m: int|
                    0 <= m < self.storage@.len() && !(off <= m < off + k) ==> self.storage@[m]
                        == old(self).storage@[m],
                forall|m: int| 0 <= m < k ==> self.storage@[off + m] == buf@[m],
            decreases BLOCK_SZ - k,
        {
            let b: u8 = buf[k];
            self.storage[off + k] = b;
            k += 1;
        }
        proof {
            assert forall|j: int|
                0 <= j < old(self).blocks().len() && j != block_id as int implies self.blocks()[j]
                == old(self).blocks()[j] by {
                lemma_block_bounds(self.storage@.len() as int, j);
                assert forall|n: int| 0 <= n < BLOCK_SZ implies #[trigger] self.storage@[j * (
                BLOCK_SZ as int) + n] == old(self).storage@[j * (BLOCK_SZ as int) + n] by {
                    assert(!(off <= j * (BLOCK_SZ as int) + n < off + BLOCK_SZ));
                }
                assert(self.blocks()[j] =~= old(self).blocks()[j]);
            }
            assert(self.blocks()[block_id as int] =~= buf@);
            assert(self.blocks() =~~= old(self).blocks().update(block_id as int, buf@));
        }
        Ok(())
    }
}

} // verus!
