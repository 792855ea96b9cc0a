use aligned_buffer::layout::{align_offset, can_allocate, checked_padded_len};

#[test]
fn padded_len_rounds_up_to_a_block() {
    assert_eq!(checked_padded_len(0), Some(0));
    assert_eq!(checked_padded_len(1), Some(64));
    assert_eq!(checked_padded_len(63), Some(64));
    assert_eq!(checked_padded_len(64), Some(64));
    assert_eq!(checked_padded_len(65), Some(128));
    assert_eq!(checked_padded_len(4096), Some(4096));
    assert_eq!(checked_padded_len(4097), Some(4160));
}

#[test]
fn padded_len_reports_overflow() {
    assert_eq!(checked_padded_len(usize::MAX), None);
    assert_eq!(checked_padded_len(usize::MAX - 62), None);
    assert_eq!(checked_padded_len(usize::MAX - 63), Some(usize::MAX - 63));
    assert_eq!(checked_padded_len(usize::MAX - 64), Some(usize::MAX - 63));
}

#[test]
fn can_allocate_up_to_the_last_block_below_the_limit() {
    let limit = isize::MAX as usize - 63;
    assert!(can_allocate(0));
    assert!(can_allocate(1));
    assert!(can_allocate(4096));
    assert!(can_allocate(limit));
    assert!(can_allocate(limit - 1));
    assert!(!can_allocate(limit + 1));
    assert!(!can_allocate(isize::MAX as usize));
    assert!(!can_allocate(usize::MAX));
}

#[test]
fn align_offset_reaches_the_next_boundary() {
    assert_eq!(align_offset(0), 0);
    assert_eq!(align_offset(1), 63);
    assert_eq!(align_offset(63), 1);
    assert_eq!(align_offset(64), 0);
    assert_eq!(align_offset(65), 63);
    assert_eq!(align_offset(4096 + 16), 48);
    assert_eq!(align_offset(usize::MAX), 1);
    for addr in 0..1000usize {
        let off = align_offset(addr);
        assert!(off < 64);
        assert_eq!((addr + off) % 64, 0);
    }
}
