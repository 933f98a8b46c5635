//! The block-device capability: the error taxonomy and the polymorphic
//! contract that every backend implements.

use vstd::prelude::*;

use crate::BLOCK_SZ;

verus! {

/// Error taxonomy of the capability layer.
///
/// `OutOfRange` reports a block index at or beyond the backend's declared
/// block count; `AlreadyBorrowed` reports a concurrency-discipline violation
/// (a second exclusive borrow requested while one is outstanding).
#[derive(Clone, Copy, Debug, PartialEq, Eq, Structural)]
pub enum DevError {
    OutOfRange,
    AlreadyBorrowed,
}

/// A block in which every byte carries the value `b`.
pub open spec fn filled_block(b: u8) -> Seq<u8> {
    Seq::new(BLOCK_SZ as nat, |k: int| b)
}

/// The block-device capability contract, implemented by every backend
/// variant (RAM-backed here; queue-device and SPI-card backends are peers
/// with the same contract).
///
/// A backend is modelled as a sequence of blocks, each a sequence of exactly
/// `BLOCK_SZ` bytes; `read_block` and `write_block` transfer exactly one
/// block, identified by a zero-based index, and reject an index at or beyond
/// the block count instead of touching anything outside the medium.
pub trait BlockDevice: Sized {
    /// The abstract contents of the medium, one sequence of bytes per block.
    spec fn blocks(&self) -> Seq<Seq<u8>>;

    /// Well-formedness of the backend's state.
    spec fn wf(&self) -> bool;

    /// Copies the persisted contents of block `block_id` into `buf`,
    /// fully populating all `BLOCK_SZ` bytes, or fails without touching
    /// `buf` if the index is out of range.
    fn read_block(&mut self, block_id: usize, buf: &mut Vec<u8>) -> (r: Result<(), DevError>)
        requires
            old(self).wf(),
            old(buf)@.len() == BLOCK_SZ,
        ensures
            final(self).wf(),
            final(self).blocks() == old(self).blocks(),
            (block_id as int) < old(self).blocks().len() ==> r is Ok
                && final(buf)@ == old(self).blocks()[block_id as int],
            (block_id as int) >= old(self).blocks().len() ==> r == Err::<(), DevError>(
                DevError::OutOfRange,
            ) && final(buf)@ == old(buf)@,
    ;

    /// Persists all `BLOCK_SZ` bytes of `buf` as the new contents of block
    /// `block_id`, leaving every other block untouched, or fails without
    /// writing anything if the index is out of range.
    fn write_block(&mut self, block_id: usize, buf: &Vec<u8>) -> (r: Result<(), DevError>)
        requires
            old(self).wf(),
            buf@.len() == BLOCK_SZ,
        ensures
            final(self).wf(),
            final(self).blocks().len() == old(self).blocks().len(),
            (block_id as int) < old(self).blocks().len() ==> r is Ok
                && final(self).blocks() == old(self).blocks().update(block_id as int, buf@),
            (block_id as int) >= old(self).blocks().len() ==> r == Err::<(), DevError>(
                DevError::OutOfRange,
            ) && final(self).blocks() == old(self).blocks(),
    ;
}

} // verus!
