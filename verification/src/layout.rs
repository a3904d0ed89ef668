//! Size arithmetic for a backing table's single allocation: a header
//! followed immediately by inline element storage. The computation must
//! report overflow before any allocation is attempted, so it is written
//! over checked arithmetic with an exact specification.

use crate::table::TableInfo;
use vstd::layout::{align_of, size_of};
use vstd::prelude::*;

verus! {

/// A size/alignment pair describing one allocation request.
#[derive(Clone, Copy, PartialEq, Eq, Structural, Debug)]
pub struct MemLayout {
    pub size: usize,
    pub align: usize,
}

/// The layout could not be computed: the size arithmetic cannot be
/// represented (more than `isize::MAX` bytes).
#[derive(Clone, Copy, PartialEq, Eq, Structural, Debug)]
pub struct LayoutError;

/// `x` rounded up to the next multiple of `align` (identity when `align`
/// is zero).
pub open spec fn spec_round_up(x: nat, align: nat) -> nat {
    if align == 0 {
        x
    } else if x % align == 0 {
        x
    } else {
        (x + align - x % align) as nat
    }
}

/// The combined layout of a table holding `capacity` elements of `T`: the
/// header, then the element storage aligned for `T`. Yields the total size,
/// the alignment, and the offset of the first element; nothing when the
/// total cannot be represented in `isize::MAX` bytes.
pub open spec fn spec_table_layout<T>(capacity: nat) -> Option<(nat, nat, nat)> {
    let offset = spec_round_up(size_of::<TableInfo>(), align_of::<T>());
    let total = offset + size_of::<T>() * capacity;
    let align = if align_of::<TableInfo>() >= align_of::<T>() {
        align_of::<TableInfo>()
    } else {
        align_of::<T>()
    };
    if total <= isize::MAX as int {
        Some((total, align, offset))
    } else {
        None
    }
}

} // verus!
