//! Block-storage abstraction layer for a small kernel: a uniform capability
//! that lets a filesystem layer read and write fixed-size blocks without
//! knowing what the backing medium is.
//!
//! The crate provides:
//! - the block-device capability contract shared by all backends
//!   ([`device::BlockDevice`]);
//! - the single-core exclusive-access primitive that guards a backend's
//!   mutable state ([`up_cell::UPSafeCell`]);
//! - the reference backend, a RAM-backed disk with a bounds-checked
//!   index-to-offset conversion ([`ramdisk::RamDiskBlk`],
//!   [`ramdisk_block::RamDiskBlock`]);
//! - a self-test routine exercising the full addressable block range
//!   ([`self_test::block_device_test`]).

use vstd::prelude::*;

pub mod device;
pub mod laws;
pub mod ramdisk;
pub mod ramdisk_block;
pub mod self_test;
pub mod up_cell;

verus! {

/// Size of one block in bytes, fixed and identical across all backends.
pub const BLOCK_SZ: usize = 512;

} // verus!
