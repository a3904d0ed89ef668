//! The backing table: one allocation holding a small header (published
//! element count, fixed capacity) followed by inline element storage.
//! Slots below the published count are initialized; the rest are not. The
//! storage is modelled by an owned vector whose length is the initialized
//! prefix, with the header kept alongside it so the publish step — writing
//! the element, then raising the count — stays visible in the code.

use crate::layout::{spec_table_layout, LayoutError, MemLayout};
use vstd::layout::layout_for_type_is_valid;
use vstd::prelude::*;

verus! {

/// The header at the start of every backing table.
#[derive(Clone, Copy, PartialEq, Eq, Structural, Debug)]
pub struct TableInfo {
    /// The published element count; monotonically non-decreasing while the
    /// table is live, and never above `capacity`.
    pub items: usize,
    /// Fixed at allocation time, immutable for the table's life.
    pub capacity: usize,
}

/// A handle to one backing table.
pub struct TableRef<T> {
    pub info: TableInfo,
    pub data: Vec<T>,
}

impl<T> View for TableRef<T> {
    type V = Seq<T>;

    /// A table is seen as the sequence of its initialized elements.
    open spec fn view(&self) -> Seq<T> {
        self.data@
    }
}

impl<T> TableRef<T> {
    /// Well-formed: the published count is exactly the initialized prefix
    /// and never exceeds the fixed capacity.
    pub open spec fn wf(self) -> bool {
        self.info.items == self.data@.len() && self.info.items <= self.info.capacity
    }

    /// The zero-capacity table every sequence constructed without
    /// pre-reserved capacity starts from. Building it performs no
    /// allocation, so constructing an empty sequence is free.
    pub fn empty() -> (r: Self)
        ensures
            r.wf(),
            r@ == Seq::<T>::empty(),
            r.info.capacity == 0,
    {
        TableRef { info: TableInfo { items: 0, capacity: 0 }, data: Vec::new() }
    }

    /// The layout of the single allocation for a table of `capacity`
    /// elements: header first, elements behind it. Overflow is reported
    /// before any allocation is attempted.
    pub fn layout(capacity: usize) -> (r: Result<(MemLayout, usize), LayoutError>)
        ensures
            match r {
                Ok(p) => spec_table_layout::<T>(capacity as nat) matches Some(l) && p.0.size == l.0
                    && p.0.align == l.1 && p.1 == l.2,
                Err(e) => spec_table_layout::<T>(capacity as nat) is None,
            },
    {
        layout_for_type_is_valid::<TableInfo>();
        layout_for_type_is_valid::<T>();
        let header: usize = core::mem::size_of::<TableInfo>();
        let elem_size: usize = core::mem::size_of::<T>();
        let elem_align: usize = core::mem::align_of::<T>();
        let header_align: usize = core::mem::align_of::<TableInfo>();
        let isize_max: usize = isize::MAX as usize;
        let rem: usize = header % elem_align;
        let offset: usize = if rem == 0 {
            header
        } else {
            match header.checked_add(elem_align - rem) {
                Some(o) => o,
                None => {
                    return Err(LayoutError);
                },
            }
        };
        let array_size: usize = match elem_size.checked_mul(capacity) {
            Some(s) => s,
            None => {
                return Err(LayoutError);
            },
        };
        let total: usize = match offset.checked_add(array_size) {
            Some(t) => t,
            None => {
                return Err(LayoutError);
            },
        };
        if total > isize_max {
            return Err(LayoutError);
        }
        let align: usize = if header_align >= elem_align {
            header_align
        } else {
            elem_align
        };
        Ok((MemLayout { size: total, align }, offset))
    }

    /// A fresh table of the given capacity with a published count of zero.
    /// The caller must already know the layout is representable: a request
    /// whose size arithmetic overflows aborts the process at a lower
    /// level, as does allocator exhaustion, and neither is modelled here.
    pub fn allocate(capacity: usize) -> (r: Self)
        requires
            spec_table_layout::<T>(capacity as nat) is Some,
        ensures
            r.wf(),
            r@ == Seq::<T>::empty(),
            r.info.capacity == capacity,
    {
        match Self::layout(capacity) {
            Ok(_) => TableRef {
                info: TableInfo { items: 0, capacity },
                data: Vec::with_capacity(capacity),
            },
            Err(_) => {
                // a request whose layout cannot be represented never gets
                // this far; the precondition rules it out
                proof {
                    assert(false);
                }
                TableRef { info: TableInfo { items: 0, capacity }, data: Vec::new() }
            },
        }
    }

    /// Releases the table. Dropping the storage destroys the initialized
    /// elements in index order, then frees the allocation; a zero-capacity
    /// handle is a safe no-op because the count-driven destruction loop
    /// runs zero times.
    pub fn free(self) {
    }

    /// A reference to an initialized slot. Callers must guarantee the index
    /// is below the published count.
    pub fn element(&self, index: usize) -> (r: &T)
        requires
            self.wf(),
            index < self.info.items,
        ensures
            *r == self@[index as int],
    {
        &self.data[index]
    }
}

} // verus!
