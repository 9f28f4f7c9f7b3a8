//! The handles over the shared block.
use vstd::prelude::*;
use std::sync::Arc;
use std::sync::atomic::{AtomicBool, Ordering};
use crossbeam_utils::atomic::AtomicCell;
use crate::model::{StoreError, gate_write};

verus! {

/// crossbeam's `AtomicCell`, which holds the block's value. Any handle may
/// write it at any moment, so nothing is stated of what a read returns.
#[verifier::external_type_specification]
#[verifier::external_body]
#[verifier::reject_recursive_types(T)]
pub struct ExAtomicCell<T>(AtomicCell<T>);

/// Relies on `AtomicCell::new`: builds a cell that holds `val`.
pub assume_specification<T>[ AtomicCell::<T>::new ](val: T) -> AtomicCell<T>;

/// Relies on `AtomicCell::store`: one atomic write of `val`.
pub assume_specification<T>[ AtomicCell::<T>::store ](cell: &AtomicCell<T>, val: T);

/// Relies on `AtomicCell::swap`: one atomic read-modify-write.
pub assume_specification<T>[ AtomicCell::<T>::swap ](cell: &AtomicCell<T>, val: T) -> T;

/// Relies on `AtomicCell::load`: one atomic read, never torn.
pub assume_specification<T: Copy>[ AtomicCell::<T>::load ](cell: &AtomicCell<T>) -> T;

/// Relies on `AtomicBool::store`: with `Release` ordering it sets the flag
/// and neither panics nor blocks.
#[verifier::external_body]
fn mark_read_only(flag: &AtomicBool)
    opens_invariants none
    no_unwind
{
    flag.store(true, Ordering::Release)
}

#[verifier::reject_recursive_types(T)]
struct Data<T> {
    val: AtomicCell<T>,
    is_read_only: AtomicBool,
}

/// A viewer: reads always, writes only while the owner lives. Clones share
/// the block.
#[derive(Clone)]
#[verifier::reject_recursive_types(T)]
pub struct ScopedArcCell<T: Copy> {
    data: Arc<Data<T>>,
}

/// The owner: reads and writes unconditionally; dropping it freezes the block.
#[verifier::reject_recursive_types(T)]
pub struct ScopedArcCellOwner<T: Copy> {
    data: Arc<Data<T>>,
}

impl<T: Copy> ScopedArcCell<T> {
    /// Whether this viewer and `owner` share one block.
    pub closed spec fn shares_block(&self, owner: &ScopedArcCellOwner<T>) -> bool {
        self.data == owner.data
    }
}

/// Creates a block holding `val`, writable, with one viewer and its owner.
pub fn scoped_arc_cell<T: Copy>(val: T) -> (r: (ScopedArcCell<T>, ScopedArcCellOwner<T>))
    ensures
        r.0.shares_block(&r.1),
{
    let data = Arc::new(Data { val: AtomicCell::new(val), is_read_only: AtomicBool::new(false) });
    (ScopedArcCell { data: data.clone() }, ScopedArcCellOwner { data })
}

impl<T: Copy> ScopedArcCell<T> {
    /// Writes `val` unless the block is read-only, in which case `val` comes back.
    pub fn store(&self, val: T) -> (r: Result<(), StoreError<T>>)
        ensures
            r matches Err(e) ==> e == StoreError(val),
    {
        match gate_write(self.data.is_read_only.load(Ordering::Acquire), val) {
            Ok(v) => {
                self.data.val.store(v);
                Ok(())
            },
            Err(e) => Err(e),
        }
    }

    /// Exchanges `val` for the value held, unless the block is read-only, in
    /// which case `val` comes back.
    pub fn swap(&self, val: T) -> (r: Result<T, StoreError<T>>)
        ensures
            r matches Err(e) ==> e == StoreError(val),
    {
        match gate_write(self.data.is_read_only.load(Ordering::Acquire), val) {
            Ok(v) => Ok(self.data.val.swap(v)),
            Err(e) => Err(e),
        }
    }

    /// Reads the value held.
    pub fn load(&self) -> T {
        self.data.val.load()
    }
}

impl<T: Copy> ScopedArcCellOwner<T> {
    /// Writes `val`, frozen block or not.
    pub fn store(&self, val: T) {
        self.data.val.store(val)
    }

    /// Exchanges `val` for the value held, frozen block or not.
    pub fn swap(&self, val: T) -> T {
        self.data.val.swap(val)
    }

    /// Reads the value held.
    pub fn load(&self) -> T {
        self.data.val.load()
    }
}

impl<T: Copy> Drop for ScopedArcCellOwner<T> {
    /// Freezes the block: from now on viewer writes are rejected.
    fn drop(&mut self)
        opens_invariants none
        no_unwind
    {
        mark_read_only(&self.data.is_read_only);
    }
}

} // verus!
