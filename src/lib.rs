//! A shared cell whose writability is tied to the life of an owner handle.
//!
//! `scoped_arc_cell` hands out a viewer and an owner over one shared block.
//! Both can read and write; once the owner is dropped the block turns
//! read-only for good and every viewer write is rejected, handing the value
//! back to the caller.
//!
//! `model` describes each handle operation as one atomic step on a plain
//! block value, and `laws` proves what holds across runs of such steps.
use vstd::prelude::*;

pub mod model;
pub mod laws;
mod cell;

pub use model::{StoreError, gate_write};
pub use cell::{ScopedArcCell, ScopedArcCellOwner, scoped_arc_cell};
