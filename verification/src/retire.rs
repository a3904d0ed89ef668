//! Run-once retirement of structurally replaced backing tables.
//!
//! A retired table may still be visible to readers that captured it before
//! the structural swap, so it must outlive their access window; yet the
//! owning sequence may be torn down before the deferred reclamation pass
//! ever runs. Two paths therefore race to release the same table — the
//! reclamation callback and sequence teardown — and the record's one-shot
//! guard resolves that race: whichever path runs first releases the table,
//! every later run is a no-op, and the table is released exactly once.

use crate::table::TableRef;
use vstd::prelude::*;

verus! {

/// A shared, run-once destroyer wrapping one retired backing table.
/// The table is present until the first run releases it; the emptied
/// state is the one-shot flag.
pub struct DestroyTable<T> {
    pub table: Option<TableRef<T>>,
}

impl<T> DestroyTable<T> {
    /// Whether the wrapped table has already been released.
    pub open spec fn destroyed(self) -> bool {
        self.table is None
    }

    /// Well-formed: a table still awaiting release is itself well formed.
    pub open spec fn wf(self) -> bool {
        self.table matches Some(t) ==> t.wf()
    }

    /// The record after a release attempt: the table is gone.
    pub open spec fn spec_run(self) -> Self {
        DestroyTable { table: None }
    }

    /// Releases the wrapped table unless an earlier run already did.
    /// Dropping the storage destroys the initialized elements in index
    /// order and frees the allocation; a zero-capacity table is a safe
    /// no-op because there is nothing to destroy.
    pub fn run(&mut self)
        ensures
            *final(self) == old(self).spec_run(),
            final(self).destroyed(),
            old(self).destroyed() ==> *final(self) == *old(self),
    {
        let mut taken: Option<TableRef<T>> = None;
        core::mem::swap(&mut self.table, &mut taken);
        match taken {
            Some(t) => t.free(),
            None => (),
        }
    }

    /// Law: release is idempotent. A second release attempt leaves the
    /// record exactly as the first did, so however many paths race to run
    /// it, the wrapped table is released exactly once.
    pub proof fn lemma_run_once(self)
        ensures
            self.spec_run().spec_run() == self.spec_run(),
            self.destroyed() ==> self.spec_run() == self,
    {
    }
}

} // verus!
