//! A verified model of a concurrent, append-only, growable sequence.
//!
//! The sequence owns a single backing table (header plus element storage),
//! grows by allocating a fresh table, cloning every element across, and
//! retiring the superseded table behind a run-once retirement record so a
//! deferred reclamation pass can release it later. Here the structure is
//! modelled with owned storage: exclusive borrows stand in for the writer
//! lock, and shared borrows stand in for the reclamation pin that keeps a
//! table alive while it is being read. The contracts state exactly how each
//! operation changes the sequence's contents.

use vstd::prelude::*;

pub mod layout;
pub mod retire;
pub mod sync_push_vec;
pub mod table;

verus! {

/// The error for reservation requests whose size arithmetic cannot be
/// represented. Allocator exhaustion, by contrast, is not recoverable and is
/// reported with the layout of the failed request.
#[derive(Clone, Copy, PartialEq, Eq, Structural, Debug)]
pub enum TryReserveError {
    /// The computed capacity exceeds the collection's maximum
    /// (`isize::MAX` bytes).
    CapacityOverflow,
    /// The memory allocator returned an error.
    AllocError {
        /// The layout of the allocation request that failed.
        layout: crate::layout::MemLayout,
    },
}

/// The error for operations that hand out several mutable references at once.
#[derive(Clone, Copy, PartialEq, Eq, Structural, Debug)]
pub enum UnavailableMutError {
    /// The requested entry is not present in the table.
    Absent,
    /// The requested entry is present, but a mutable reference to it was
    /// already created and returned from the same call. Holds the index of
    /// the existing mutable reference in the returned array.
    Duplicate(usize),
}

} // verus!
