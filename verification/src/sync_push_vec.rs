//! A concurrent, append-only, growable sequence: an unbounded number of
//! lock-free readers beside a single structural writer, with deferred
//! reclamation so growth never invalidates an in-flight reader's view.
//!
//! In this model, ownership plays the part of the synchronization
//! machinery. An exclusive borrow stands for write access (the writer lock
//! or exclusive ownership of the sequence), so at most one writer operates
//! at a time; a shared borrow stands for the reclamation pin that keeps
//! every reachable table alive for the duration of a read. The protocol
//! itself is kept visible: elements are written first and the count is
//! published afterwards, growth builds a complete replacement table before
//! the single swap that installs it, and the superseded table goes to the
//! retired list behind a run-once retirement record.

use crate::layout::spec_table_layout;
use crate::retire::DestroyTable;
use crate::table::TableRef;
use crate::TryReserveError;
use vstd::prelude::*;

verus! {

/// How a table built by one growth event relates to the table it replaces:
/// same length, and each element the outcome of cloning its predecessor at
/// the same index. For element types whose `clone` guarantees an equal
/// value this is plain equality.
pub open spec fn grown_from<T: Clone>(after: Seq<T>, before: Seq<T>) -> bool {
    &&& after.len() == before.len()
    &&& forall|i: int| 0 <= i < before.len() ==> cloned::<T>(before[i], #[trigger] after[i])
}

/// The result of pushing the values of `vals`, one at a time and in order,
/// onto a sequence already holding `s`.
pub open spec fn push_all<T>(s: Seq<T>, vals: Seq<T>) -> Seq<T>
    decreases vals.len(),
{
    if vals.len() == 0 {
        s
    } else {
        push_all(s.push(vals[0]), vals.subrange(1, vals.len() as int))
    }
}

/// Law: a run of pushes appends exactly its values, in order.
pub proof fn lemma_pushes_in_order<T>(s: Seq<T>, vals: Seq<T>)
    ensures
        push_all(s, vals) == s + vals,
    decreases vals.len(),
{
    if vals.len() == 0 {
        assert(s + vals =~= s);
    } else {
        let rest = vals.subrange(1, vals.len() as int);
        lemma_pushes_in_order(s.push(vals[0]), rest);
        assert(s.push(vals[0]) + rest =~= s + vals);
    }
}

/// Law: a sequence built by `N` pushes starting from empty has length `N`
/// and holds the i-th pushed value at index `i`, so `get(i)` returns the
/// i-th pushed value.
pub proof fn lemma_push_history<T>(vals: Seq<T>)
    ensures
        push_all(Seq::<T>::empty(), vals) == vals,
        push_all(Seq::<T>::empty(), vals).len() == vals.len(),
        forall|i: int| 0 <= i < vals.len() ==> push_all(Seq::<T>::empty(), vals)[i] == vals[i],
{
    lemma_pushes_in_order(Seq::<T>::empty(), vals);
    assert(Seq::<T>::empty() + vals =~= vals);
}

/// Law: growth preserves history. One growth event relates the new
/// contents to the old element-wise through the element type's `clone`;
/// whenever `clone` guarantees an equal value, every element present
/// before growth is retrievable at the same index with an equal value
/// afterwards.
pub proof fn lemma_growth_preserves_history<T: Clone>(before: Seq<T>, after: Seq<T>)
    requires
        grown_from(after, before),
        forall|a: T, b: T| #[trigger] cloned::<T>(a, b) ==> a == b,
    ensures
        after == before,
{
    assert(after =~= before);
}

/// The concurrent append-only sequence: the live backing table plus the
/// list of retired tables still awaiting deferred release. The retired
/// list is touched only by whoever holds write access, since growth is
/// always performed under mutual exclusion.
pub struct SyncPushVec<T> {
    pub current: TableRef<T>,
    pub old: Vec<DestroyTable<T>>,
}

/// A reference to the table which can read from it. It stands for read
/// access acquired either through a reclamation pin or through exclusive
/// ownership of the sequence: the borrow it carries is what keeps the
/// table it reads alive, and none of its operations ever blocks.
pub struct Read<'a, T> {
    pub table: &'a SyncPushVec<T>,
}

impl<T> View for SyncPushVec<T> {
    type V = Seq<T>;

    /// The sequence is seen as the initialized contents of its live table.
    open spec fn view(&self) -> Seq<T> {
        self.current@
    }
}

impl<T> Default for SyncPushVec<T> {
    /// The same empty sequence `new` builds.
    fn default() -> (r: Self)
        ensures
            r.wf(),
            r@ == Seq::<T>::empty(),
            r.spec_capacity() == 0,
            r.retired() == Seq::<DestroyTable<T>>::empty(),
    {
        Self::new()
    }
}

impl<T> SyncPushVec<T> {
    /// Well-formed: the live table and every retired record are.
    pub open spec fn wf(self) -> bool {
        &&& self.current.wf()
        &&& forall|i: int| 0 <= i < self.old@.len() ==> (#[trigger] self.old@[i]).wf()
    }

    /// The fixed capacity of the live table.
    pub open spec fn spec_capacity(self) -> nat {
        self.current.info.capacity as nat
    }

    /// The retirement records of the tables replaced by growth so far, in
    /// retirement order.
    pub open spec fn retired(self) -> Seq<DestroyTable<T>> {
        self.old@
    }

    /// An empty sequence backed by the zero-capacity table; allocates
    /// nothing.
    pub fn new() -> (r: Self)
        ensures
            r.wf(),
            r@ == Seq::<T>::empty(),
            r.spec_capacity() == 0,
            r.retired() == Seq::<DestroyTable<T>>::empty(),
    {
        Self::with_capacity(0)
    }

    /// An empty sequence with room for `capacity` elements before the
    /// first growth. A request whose layout arithmetic overflows aborts at
    /// a lower level and is excluded here.
    pub fn with_capacity(capacity: usize) -> (r: Self)
        requires
            capacity > 0 ==> spec_table_layout::<T>(capacity as nat) is Some,
        ensures
            r.wf(),
            r@ == Seq::<T>::empty(),
            r.spec_capacity() == capacity,
            r.retired() == Seq::<DestroyTable<T>>::empty(),
    {
        let current = if capacity > 0 {
            TableRef::allocate(capacity)
        } else {
            TableRef::empty()
        };
        SyncPushVec { current, old: Vec::new() }
    }

    /// A mutable reference to the element at `index`, or nothing when the
    /// index is not below the published count. Mutating in place is open
    /// only to a caller holding the sequence exclusively, which rules out
    /// every concurrent reader.
    pub fn get_mut(&mut self, index: usize) -> (r: Option<&mut T>)
        requires
            old(self).wf(),
        ensures
            final(self).wf(),
            index < old(self)@.len() ==> (r matches Some(v) && *v == old(self)@[index as int]
                && final(self)@ == old(self)@.update(index as int, *final(v))),
            index >= old(self)@.len() ==> r is None && *final(self) == *old(self),
            final(self).spec_capacity() == old(self).spec_capacity(),
            final(self).retired() == old(self).retired(),
    {
        if index < self.current.info.items {
            Some(&mut self.current.data[index])
        } else {
            None
        }
    }

    /// A read view over the sequence. The shared borrow plays the part of
    /// the reclamation pin: as long as the view exists, no table it can
    /// reach is released.
    pub fn read<'a>(&'a self) -> (r: Read<'a, T>)
        ensures
            r.table == self,
    {
        Read { table: self }
    }

    /// The number of elements in the table: the published count of the
    /// live table, below which every slot is fully initialized.
    pub fn len(&self) -> (r: usize)
        requires
            self.wf(),
        ensures
            r == self@.len(),
    {
        self.current.info.items
    }
}

impl<T: Clone> SyncPushVec<T> {
    /// Allocates a table of exactly `capacity` slots and clones every live
    /// element into it, one at a time, publishing the new table's count
    /// after each copy. When `fail_at` names an element below the count,
    /// the clone of that element fails: the partly built table is released
    /// by the scoped cleanup and nothing else happens — the live sequence
    /// is never touched before every element has been cloned.
    fn resize(&self, capacity: usize, fail_at: Option<usize>) -> (r: Option<TableRef<T>>)
        requires
            self.wf(),
            self@.len() <= capacity,
            spec_table_layout::<T>(capacity as nat) is Some,
        ensures
            match r {
                Some(t) => {
                    &&& t.wf()
                    &&& t.info.capacity == capacity
                    &&& grown_from(t@, self@)
                    &&& (fail_at matches Some(k) ==> k >= self@.len())
                },
                None => fail_at matches Some(k) && k < self@.len(),
            },
    {
        let items = self.current.info.items;
        let mut new_table = TableRef::<T>::allocate(capacity);
        let mut index: usize = 0;
        while index < items
            invariant
                self.wf(),
                self@.len() == items,
                items <= capacity,
                index <= items,
                new_table.wf(),
                new_table.info.capacity == capacity,
                new_table@.len() == index,
                forall|j: int| 0 <= j < index ==> cloned::<T>(self@[j], #[trigger] new_table@[j]),
                fail_at matches Some(k) ==> index <= k,
            decreases items - index,
        {
            if let Some(k) = fail_at {
                if index == k {
                    // cloning this element fails: the cleanup releases the
                    // partly built table and the failure propagates
                    return None;
                }
            }
            let value = self.current.data[index].clone();
            new_table.data.push(value);
            // publish after every single copy, so a later failed clone
            // still leaves a well-formed partial table for the cleanup
            new_table.info.items = index + 1;
            index = index + 1;
        }
        Some(new_table)
    }

    /// Publishes `new_table` as the live table in a single swap and hands
    /// the superseded table to a fresh retirement record on the retired
    /// list, where the deferred reclamation pass will find it.
    fn install(&mut self, new_table: TableRef<T>)
        requires
            old(self).wf(),
            new_table.wf(),
        ensures
            final(self).wf(),
            final(self).current == new_table,
            final(self).old@ == old(self).old@.push(
                (DestroyTable { table: Some(old(self).current) }),
            ),
    {
        let mut prev = new_table;
        core::mem::swap(&mut self.current, &mut prev);
        self.old.push(DestroyTable { table: Some(prev) });
    }

    /// Grows the live table to hold exactly the current count plus
    /// `additional` elements — no headroom beyond the request is added at
    /// this layer — cloning the contents across and retiring the old
    /// table. The contents are preserved at their indices, up to what the
    /// element type's `clone` guarantees.
    pub fn reserve(&mut self, additional: usize)
        requires
            old(self).wf(),
            old(self)@.len() + additional <= usize::MAX,
            spec_table_layout::<T>((old(self)@.len() + additional) as nat) is Some,
        ensures
            final(self).wf(),
            grown_from(final(self)@, old(self)@),
            final(self).spec_capacity() == old(self)@.len() + additional,
            final(self).retired() == old(self).retired().push(
                (DestroyTable { table: Some(old(self).current) }),
            ),
    {
        let items = self.current.info.items;
        let new_items = items + additional;
        let new_table = match self.resize(new_items, None) {
            Some(t) => t,
            None => {
                proof {
                    assert(false);
                }
                TableRef::empty()
            },
        };
        self.install(new_table);
    }

    /// Growth that reports capacity overflow instead of demanding that the
    /// caller rule it out: the failure is detected before any allocation
    /// is attempted, and a failed request leaves the sequence untouched.
    /// Allocator exhaustion is not reported this way — it is a fatal
    /// condition at a lower level, never an error value.
    pub fn try_reserve(&mut self, additional: usize) -> (r: Result<(), TryReserveError>)
        requires
            old(self).wf(),
        ensures
            r is Ok <==> old(self)@.len() + additional <= usize::MAX
                && spec_table_layout::<T>((old(self)@.len() + additional) as nat) is Some,
            r is Ok ==> {
                &&& final(self).wf()
                &&& grown_from(final(self)@, old(self)@)
                &&& final(self).spec_capacity() == old(self)@.len() + additional
                &&& final(self).retired() == old(self).retired().push(
                    (DestroyTable { table: Some(old(self).current) }),
                )
            },
            r is Err ==> {
                &&& r == Result::<(), TryReserveError>::Err(TryReserveError::CapacityOverflow)
                &&& *final(self) == *old(self)
            },
    {
        let items = self.current.info.items;
        let new_items = match items.checked_add(additional) {
            Some(n) => n,
            None => {
                return Err(TryReserveError::CapacityOverflow);
            },
        };
        if TableRef::<T>::layout(new_items).is_err() {
            return Err(TryReserveError::CapacityOverflow);
        }
        self.reserve(additional);
        Ok(())
    }

    /// Growth with a simulated failure while cloning element `fail_at`.
    /// When the failure strikes (the index is below the element count),
    /// the partly built replacement table is released and the live
    /// sequence — length, capacity, elements and retired list — is left
    /// exactly as it was: growth is all-or-nothing to every observer.
    /// When the index is not below the count, no clone fails and growth
    /// completes as `reserve` does.
    pub fn reserve_interrupted(&mut self, additional: usize, fail_at: usize) -> (grew: bool)
        requires
            old(self).wf(),
            old(self)@.len() + additional <= usize::MAX,
            spec_table_layout::<T>((old(self)@.len() + additional) as nat) is Some,
        ensures
            grew <==> fail_at >= old(self)@.len(),
            !grew ==> *final(self) == *old(self),
            grew ==> {
                &&& final(self).wf()
                &&& grown_from(final(self)@, old(self)@)
                &&& final(self).spec_capacity() == old(self)@.len() + additional
                &&& final(self).retired() == old(self).retired().push(
                    (DestroyTable { table: Some(old(self).current) }),
                )
            },
    {
        let items = self.current.info.items;
        let new_items = items + additional;
        match self.resize(new_items, Some(fail_at)) {
            Some(t) => {
                self.install(t);
                true
            },
            None => false,
        }
    }

    /// Cold path of `push`: room for one more element.
    fn reserve_one(&mut self)
        requires
            old(self).wf(),
            old(self)@.len() < usize::MAX,
            spec_table_layout::<T>((old(self)@.len() + 1) as nat) is Some,
        ensures
            final(self).wf(),
            grown_from(final(self)@, old(self)@),
            final(self).spec_capacity() == old(self)@.len() + 1,
            final(self).retired() == old(self).retired().push(
                (DestroyTable { table: Some(old(self).current) }),
            ),
    {
        self.reserve(1);
    }

    /// Appends `value` at the end and returns its index. The element is
    /// written into its slot first and the count published afterwards, so
    /// a reader observing the new count finds the slot fully initialized.
    /// When the table is full, a single-element reservation grows it
    /// first, preserving the existing elements at their indices up to what
    /// the element type's `clone` guarantees; with no growth the contents
    /// are extended exactly.
    pub fn push(&mut self, value: T) -> (index: usize)
        requires
            old(self).wf(),
            old(self)@.len() < usize::MAX,
            old(self)@.len() == old(self).spec_capacity() ==> spec_table_layout::<T>(
                (old(self)@.len() + 1) as nat,
            ) is Some,
        ensures
            final(self).wf(),
            index == old(self)@.len(),
            final(self)@.len() == old(self)@.len() + 1,
            final(self)@[index as int] == value,
            grown_from(final(self)@.take(index as int), old(self)@),
            old(self)@.len() < old(self).spec_capacity() ==> {
                &&& final(self)@ == old(self)@.push(value)
                &&& final(self).spec_capacity() == old(self).spec_capacity()
                &&& final(self).retired() == old(self).retired()
            },
            old(self)@.len() == old(self).spec_capacity() ==> {
                &&& final(self).spec_capacity() == old(self)@.len() + 1
                &&& final(self).retired() == old(self).retired().push(
                    (DestroyTable { table: Some(old(self).current) }),
                )
            },
    {
        let items = self.current.info.items;
        if items == self.current.info.capacity {
            self.reserve_one();
        }
        let index = self.current.info.items;
        // write the element, then publish the raised count
        self.current.data.push(value);
        self.current.info.items = index + 1;
        proof {
            assert(final(self)@.take(index as int) =~= final(self)@.subrange(0, index as int));
        }
        index
    }

    /// Tears the sequence down: releases the live table directly — once
    /// the owner reaches this point no concurrent reader or writer can
    /// exist — and forces every retained retirement record to run
    /// synchronously, instead of waiting for a deferred reclamation pass
    /// that might never come. Records the reclamation pass already ran are
    /// no-ops, so every retired table is released exactly once.
    pub fn teardown(&mut self)
        requires
            old(self).wf(),
        ensures
            final(self).wf(),
            final(self)@ == Seq::<T>::empty(),
            final(self).spec_capacity() == 0,
            final(self).retired().len() == old(self).retired().len(),
            forall|i: int| 0 <= i < old(self).retired().len() ==> final(self).retired()[i] == (
            #[trigger] old(self).retired()[i]).spec_run(),
    {
        let mut superseded = TableRef::empty();
        core::mem::swap(&mut self.current, &mut superseded);
        superseded.free();
        let n = self.old.len();
        let mut i: usize = 0;
        while i < n
            invariant
                i <= n,
                n == self.old@.len(),
                self.old@.len() == old(self).old@.len(),
                forall|j: int| 0 <= j < i ==> self.old@[j] == (
                #[trigger] old(self).old@[j]).spec_run(),
                forall|j: int| i <= j < n ==> self.old@[j] == old(self).old@[j],
                self.current.wf(),
                self.current@ == Seq::<T>::empty(),
                self.current.info.capacity == 0,
            decreases n - i,
        {
            self.old[i].run();
            i = i + 1;
        }
        proof {
            assert forall|j: int| 0 <= j < self.old@.len() implies (
            #[trigger] self.old@[j]).wf() by {
                assert(self.old@[j] == old(self).old@[j].spec_run());
            }
        }
    }
}

impl<'a, T> Read<'a, T> {
    /// A reference to the element at `index`, or nothing when the index is
    /// not below the published count — never an out-of-bounds access.
    /// Every value handed out was fully published at the time of the read.
    pub fn get(&self, index: usize) -> (r: Option<&'a T>)
        requires
            self.table.wf(),
        ensures
            match r {
                Some(v) => index < self.table@.len() && *v == self.table@[index as int],
                None => index >= self.table@.len(),
            },
    {
        let table = &self.table.current;
        if index < table.info.items {
            Some(table.element(index))
        } else {
            None
        }
    }

    /// The number of elements the sequence can hold without growing.
    pub fn capacity(&self) -> (r: usize)
        ensures
            r == self.table.spec_capacity(),
    {
        self.table.current.info.capacity
    }

    /// The number of elements in the table: the published count, below
    /// which every slot is fully initialized.
    pub fn len(&self) -> (r: usize)
        requires
            self.table.wf(),
        ensures
            r == self.table@.len(),
    {
        self.table.current.info.items
    }

    /// A snapshot of the elements over indices `[0, count)` captured at
    /// call time: pushes after the call are not observed through it.
    pub fn iter(&self) -> (r: &'a [T])
        requires
            self.table.wf(),
        ensures
            r@ == self.table@,
    {
        self.table.current.data.as_slice()
    }
}

} // verus!
