//! The RAM-backed backend behind the exclusive-access cell, presented
//! through the block-device capability.

use vstd::prelude::*;

use crate::device::BlockDevice;
use crate::device::DevError;
use crate::ramdisk::RamDiskBlk;
use crate::up_cell::UPSafeCell;

verus! {

/// Number of addressable blocks of the reference RAM-disk configuration.
pub const RAMDISK_BLOCKS: usize = 512;

/// The RAM-backed block device: a [`RamDiskBlk`] guarded by the single-core
/// exclusive-access cell, so that every transfer runs under the exclusive
/// borrow discipline that richer backends rely on.
pub struct RamDiskBlock(UPSafeCell<RamDiskBlk>);

impl RamDiskBlock {
    /// Creates the reference backend: a zero-initialised RAM disk of
    /// [`RAMDISK_BLOCKS`] blocks, with no borrow outstanding.
    pub fn new() -> (dev: Self)
        ensures
            dev.wf(),
            dev.blocks().len() == RAMDISK_BLOCKS,
            forall|i: int|
                0 <= i < RAMDISK_BLOCKS ==> dev.blocks()[i] == crate::device::filled_block(0),
    {
        RamDiskBlock(UPSafeCell::new(RamDiskBlk::new(RAMDISK_BLOCKS)))
    }
}

impl BlockDevice for RamDiskBlock {
    closed spec fn blocks(&self) -> Seq<Seq<u8>> {
        self.0.stored().blocks()
    }

    closed spec fn wf(&self) -> bool {
        self.0.is_available() && self.0.stored().wf()
    }

    fn read_block(&mut self, block_id: usize, buf: &mut Vec<u8>) -> (r: Result<(), DevError>) {
        match self.0.exclusive_access() {
            Some(mut disk) => {
                let r = disk.read_block(block_id, buf);
                self.0.release(disk);
                r
            },
            None => Err(DevError::AlreadyBorrowed),
        }
    }

    fn write_block(&mut self, block_id: usize, buf: &Vec<u8>) -> (r: Result<(), DevError>) {
        match self.0.exclusive_access() {
            Some(mut disk) => {
                let r = disk.write_block(block_id, buf);
                self.0.release(disk);
                r
            },
            None => Err(DevError::AlreadyBorrowed),
        }
    }
}

} // verus!
