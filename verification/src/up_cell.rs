//! Single-core exclusive-access cell.
//!
//! [`UPSafeCell`] wraps exactly one backend's mutable state and enforces
//! that at most one exclusive borrow is outstanding at any instant. It is a
//! uniprocessor-only discipline check, not a lock: there is no blocking, no
//! queueing, and no cross-core safety. A second acquisition while a borrow
//! is live is reported deterministically instead of handing out aliased
//! mutable access.

use vstd::prelude::*;

verus! {

/// A single-core mutual-exclusion wrapper around a mutable value.
///
/// The borrow discipline is tracked at run time: acquiring moves the value
/// out of the cell, leaving it marked as borrowed, and releasing moves the
/// value back in. While a borrow is outstanding, every further acquisition
/// observably fails.
pub struct UPSafeCell<T> {
    inner: Option<T>,
}

impl<T> UPSafeCell<T> {
    /// True when no exclusive borrow is outstanding.
    pub closed spec fn is_available(&self) -> bool {
        self.inner is Some
    }

    /// The wrapped value, meaningful while no borrow is outstanding.
    pub closed spec fn stored(&self) -> T
        recommends
            self.is_available(),
    {
        self.inner->0
    }

    /// Wraps `value`, with no borrow outstanding.
    pub fn new(value: T) -> (cell: Self)
        ensures
            cell.is_available(),
            cell.stored() == value,
    {
        UPSafeCell { inner: Some(value) }
    }

    /// Acquires the exclusive borrow: takes the wrapped value out of the
    /// cell, leaving the cell marked as borrowed until [`Self::release`]
    /// puts a value back.
    ///
    /// While a borrow is already outstanding, the attempt fails
    /// deterministically with `None`, the cell is left unchanged, and no
    /// second handle to the value ever exists.
    pub fn exclusive_access(&mut self) -> (r: Option<T>)
        ensures
            old(self).is_available() ==> r == Some(old(self).stored()),
            !old(self).is_available() ==> r is None,
            !final(self).is_available(),
    {
        self.inner.take()
    }

    /// Ends the exclusive borrow by moving `value` back into the cell.
    pub fn release(&mut self, value: T)
        requires
            !old(self).is_available(),
        ensures
            final(self).is_available(),
            final(self).stored() == value,
    {
        self.inner = Some(value);
    }
}

} // verus!
