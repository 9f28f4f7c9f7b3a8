use scoped_arc_cell::{gate_write, scoped_arc_cell, StoreError};

#[test]
fn viewer_store_then_freeze() {
    let (viewer, owner) = scoped_arc_cell(0);
    assert_eq!(viewer.store(5), Ok(()));
    assert_eq!(viewer.load(), 5);
    drop(owner);
    assert_eq!(viewer.store(9), Err(StoreError(9)));
    assert_eq!(viewer.load(), 5);
    assert_eq!(viewer.swap(1), Err(StoreError(1)));
    assert_eq!(viewer.load(), 5);
}

#[test]
fn new_cell_holds_initial_value() {
    let (viewer, owner) = scoped_arc_cell(42u64);
    assert_eq!(viewer.load(), 42);
    assert_eq!(owner.load(), 42);
}

#[test]
fn read_after_write_across_handles() {
    let (viewer, owner) = scoped_arc_cell(0i32);
    owner.store(7);
    assert_eq!(viewer.load(), 7);
    assert_eq!(owner.load(), 7);
    assert_eq!(viewer.store(-3), Ok(()));
    assert_eq!(owner.load(), -3);
    assert_eq!(viewer.load(), -3);
}

#[test]
fn swap_returns_preceding_value() {
    let (viewer, owner) = scoped_arc_cell(1u8);
    assert_eq!(viewer.swap(2), Ok(1));
    assert_eq!(viewer.swap(3), Ok(2));
    assert_eq!(owner.swap(4), 3);
    assert_eq!(viewer.swap(5), Ok(4));
    assert_eq!(owner.load(), 5);
}

#[test]
fn frozen_value_is_last_owner_write() {
    let (viewer, owner) = scoped_arc_cell(10u32);
    assert_eq!(viewer.store(11), Ok(()));
    owner.store(12);
    drop(owner);
    assert_eq!(viewer.load(), 12);
    assert_eq!(viewer.store(13), Err(StoreError(13)));
    assert_eq!(viewer.swap(14), Err(StoreError(14)));
    assert_eq!(viewer.load(), 12);
}

#[test]
fn freeze_reaches_every_viewer() {
    let (viewer, owner) = scoped_arc_cell((1u16, 2u16));
    let other = viewer.clone();
    drop(owner);
    assert_eq!(viewer.store((3, 4)), Err(StoreError((3, 4))));
    assert_eq!(other.store((5, 6)), Err(StoreError((5, 6))));
    assert_eq!(other.load(), (1, 2));
}

#[test]
fn gate_passes_value_while_writable() {
    assert_eq!(gate_write(false, 8i64), Ok(8));
    assert_eq!(gate_write(true, 8i64), Err(StoreError(8)));
}
