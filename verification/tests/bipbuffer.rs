use bipbuffer::buffer::{BipBuffer, Error};

#[test]
fn it_works() {
    let _ = BipBuffer::<u8>::new(12);
}

#[test]
fn zero_size_element_fails() {
    let r = BipBuffer::<()>::new(5);
    assert!(matches!(r, Err(Error::ZeroSizeElement)));
}

#[test]
fn capacity_overflow_fails() {
    let r = BipBuffer::<u64>::new(usize::MAX);
    assert!(matches!(r, Err(Error::CapacityOverflow)));
}

#[test]
fn capacity_zero_succeeds_empty() {
    let buf = BipBuffer::<u8>::new(0).unwrap();
    assert_eq!(buf.used(), 0);
    assert_eq!(buf.unused(), 0);
    assert_eq!(buf.size(), 0);
}

#[test]
fn new_buffer_is_empty() {
    let buf = BipBuffer::<u32>::new(10).unwrap();
    assert_eq!(buf.size(), 10);
    assert_eq!(buf.used(), 0);
    assert_eq!(buf.unused(), 10);
    assert_eq!(buf.get_block(), None);
    assert_eq!(buf.get_reservation_size(), 0);
}

#[test]
fn scenario_two_regions() {
    // Capacity 10: fill A to 8, retire 5, then a reservation before A
    // creates B, after which the gap between B and A is gone.
    let mut buf = BipBuffer::<u8>::new(10).unwrap();
    assert_eq!(buf.reserve(4), Some((0, 4)));
    buf.commit(4);
    assert_eq!(buf.get_block(), Some((0, 4)));
    assert_eq!(buf.reserve(4), Some((4, 4)));
    buf.commit(4);
    assert_eq!(buf.get_block(), Some((0, 8)));
    buf.decommit_block(5);
    assert_eq!(buf.get_block(), Some((5, 3)));
    assert_eq!(buf.reserve(5), Some((0, 5)));
    buf.commit(5);
    assert_eq!(buf.used(), 8);
    assert_eq!(buf.reserve(1), None);
}

#[test]
fn scenario_promote_b_after_a_retired() {
    // After the two-region state above, retiring all of A promotes B.
    let mut buf = BipBuffer::<u8>::new(10).unwrap();
    buf.reserve(4);
    buf.commit(4);
    buf.reserve(4);
    buf.commit(4);
    buf.decommit_block(5);
    buf.reserve(5);
    buf.commit(5);
    buf.decommit_block(3);
    assert_eq!(buf.get_block(), Some((0, 5)));
    assert_eq!(buf.used(), 5);
    assert_eq!(buf.unused(), 5);
}

#[test]
fn used_plus_unused_is_size_while_b_inactive() {
    let mut buf = BipBuffer::<u8>::new(10).unwrap();
    assert_eq!(buf.used() + buf.unused(), 10);
    buf.reserve(6);
    buf.commit(6);
    assert_eq!(buf.used() + buf.unused(), 10);
    buf.decommit_block(2);
    assert_eq!(buf.used() + buf.unused(), 10);
    buf.decommit_block(4);
    assert_eq!(buf.used() + buf.unused(), 10);
}

#[test]
fn commit_zero_cancels_reservation() {
    let mut buf = BipBuffer::<u8>::new(10).unwrap();
    buf.reserve(3);
    buf.commit(3);
    let used = buf.used();
    let unused = buf.unused();
    assert_eq!(buf.reserve(4), Some((3, 4)));
    assert_eq!(buf.get_reservation_size(), 4);
    buf.commit(0);
    assert_eq!(buf.get_reservation_size(), 0);
    assert_eq!(buf.used(), used);
    assert_eq!(buf.unused(), unused);
    assert_eq!(buf.get_block(), Some((0, 3)));
}

#[test]
fn round_trip_restores_counts() {
    let mut buf = BipBuffer::<u8>::new(10).unwrap();
    buf.reserve(2);
    buf.commit(2);
    let used = buf.used();
    let unused = buf.unused();
    let granted = buf.reserve(5).unwrap();
    assert_eq!(granted, (2, 5));
    buf.commit(5);
    buf.decommit_block(5);
    assert_eq!(buf.used(), used);
    assert_eq!(buf.unused(), unused);
}

#[test]
fn reserve_never_over_grants() {
    let mut buf = BipBuffer::<u8>::new(10).unwrap();
    // Never more than requested.
    assert_eq!(buf.reserve(3), Some((0, 3)));
    // Never more than the free stretch.
    assert_eq!(buf.reserve(100), Some((0, 10)));
    buf.commit(10);
    assert_eq!(buf.reserve(1), None);
}

#[test]
fn reserve_discards_prior_reservation() {
    let mut buf = BipBuffer::<u8>::new(10).unwrap();
    assert_eq!(buf.reserve(4), Some((0, 4)));
    assert_eq!(buf.reserve(2), Some((0, 2)));
    assert_eq!(buf.get_reservation_size(), 2);
    buf.commit(2);
    assert_eq!(buf.used(), 2);
}

#[test]
fn commit_clips_to_reservation() {
    let mut buf = BipBuffer::<u8>::new(10).unwrap();
    buf.reserve(4);
    buf.commit(99);
    assert_eq!(buf.used(), 4);
    assert_eq!(buf.get_block(), Some((0, 4)));
}

#[test]
fn commit_without_reservation_changes_nothing() {
    let mut buf = BipBuffer::<u8>::new(10).unwrap();
    buf.reserve(4);
    buf.commit(4);
    buf.commit(3);
    assert_eq!(buf.used(), 4);
    assert_eq!(buf.get_block(), Some((0, 4)));
}

#[test]
fn decommit_partial_shrinks_from_front() {
    let mut buf = BipBuffer::<u8>::new(10).unwrap();
    buf.reserve(6);
    buf.commit(6);
    buf.decommit_block(2);
    assert_eq!(buf.get_block(), Some((2, 4)));
    assert_eq!(buf.used(), 4);
}

#[test]
fn decommit_everything_empties_buffer() {
    let mut buf = BipBuffer::<u8>::new(10).unwrap();
    buf.reserve(6);
    buf.commit(6);
    buf.decommit_block(9);
    assert_eq!(buf.get_block(), None);
    assert_eq!(buf.used(), 0);
    assert_eq!(buf.unused(), 10);
}

#[test]
fn clear_resets_regions() {
    let mut buf = BipBuffer::<u8>::new(10).unwrap();
    buf.reserve(6);
    buf.commit(6);
    buf.reserve(2);
    buf.clear();
    assert_eq!(buf.used(), 0);
    assert_eq!(buf.unused(), 10);
    assert_eq!(buf.get_block(), None);
    assert_eq!(buf.get_reservation_size(), 0);
    assert_eq!(buf.size(), 10);
}

#[test]
fn free_space_queries() {
    let mut buf = BipBuffer::<u8>::new(10).unwrap();
    assert_eq!(buf.get_buffer_size(), 10);
    assert_eq!(buf.get_elements_after_a(), 10);
    buf.reserve(4);
    buf.commit(4);
    buf.decommit_block(1);
    // A = (1, 3): six elements follow A, one free slot precedes it for B.
    assert_eq!(buf.get_elements_after_a(), 6);
    assert_eq!(buf.get_b_free_elements(), 1);
    assert_eq!(buf.get_commited_size(), 3);
}

#[test]
fn size_of_reports_descriptor_bytes() {
    let buf = BipBuffer::<u8>::new(10).unwrap();
    assert_eq!(buf.size_of(), core::mem::size_of::<BipBuffer<u8>>());
}
