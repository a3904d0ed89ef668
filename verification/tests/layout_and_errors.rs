use sync_push_vec::layout::{LayoutError, MemLayout};
use sync_push_vec::table::{TableInfo, TableRef};
use sync_push_vec::{TryReserveError, UnavailableMutError};

#[test]
fn layout_is_header_then_elements() {
    let (l, offset) = TableRef::<u64>::layout(4).unwrap();
    let header = std::mem::size_of::<TableInfo>();
    let elem_align = std::mem::align_of::<u64>();
    let rem = header % elem_align;
    let expected_offset = if rem == 0 { header } else { header + (elem_align - rem) };
    assert_eq!(offset, expected_offset);
    assert_eq!(l.size, expected_offset + 4 * std::mem::size_of::<u64>());
    assert_eq!(l.align, std::mem::align_of::<TableInfo>().max(elem_align));
}

#[test]
fn layout_of_zero_capacity_is_just_the_header() {
    let (l, offset) = TableRef::<u64>::layout(0).unwrap();
    assert_eq!(l.size, offset);
}

#[test]
fn layout_overflow_is_reported() {
    assert_eq!(TableRef::<u64>::layout(usize::MAX / 4), Err(LayoutError));
    assert_eq!(TableRef::<u64>::layout(usize::MAX), Err(LayoutError));
}

#[test]
fn huge_but_representable_layout_is_accepted() {
    // one byte per element: isize::MAX bytes is the limit, not usize::MAX
    let header = std::mem::size_of::<TableInfo>();
    let fits = (isize::MAX as usize) - header;
    assert!(TableRef::<u8>::layout(fits).is_ok());
    assert_eq!(TableRef::<u8>::layout(fits + 1), Err(LayoutError));
}

#[test]
fn error_values_compare_and_destructure() {
    assert_eq!(TryReserveError::CapacityOverflow, TryReserveError::CapacityOverflow);
    let e = TryReserveError::AllocError { layout: MemLayout { size: 16, align: 8 } };
    assert_ne!(e, TryReserveError::CapacityOverflow);
    match e {
        TryReserveError::AllocError { layout } => {
            assert_eq!(layout.size, 16);
            assert_eq!(layout.align, 8);
        },
        TryReserveError::CapacityOverflow => panic!("wrong variant"),
    }
    assert_eq!(UnavailableMutError::Duplicate(2), UnavailableMutError::Duplicate(2));
    assert_ne!(UnavailableMutError::Absent, UnavailableMutError::Duplicate(0));
}

#[test]
fn allocate_starts_empty() {
    let t = TableRef::<u64>::allocate(5);
    assert_eq!(t.info.capacity, 5);
    assert_eq!(t.info.items, 0);
    let e = TableRef::<u64>::empty();
    assert_eq!(e.info.capacity, 0);
    assert_eq!(e.info.items, 0);
}
