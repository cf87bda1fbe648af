use raw_sync::layout::{
    busy_event_size_of, align_offset, event_size_of, lock_size_of, place_event, place_lock, word_align,
};

#[test]
fn word_is_pointer_size() {
    assert_eq!(word_align(), std::mem::size_of::<usize>());
}

#[test]
fn align_offset_values() {
    assert_eq!(align_offset(0, 8), 0);
    assert_eq!(align_offset(1, 8), 7);
    assert_eq!(align_offset(8, 8), 0);
    assert_eq!(align_offset(13, 8), 3);
    assert_eq!(align_offset(13, 4), 3);
    assert_eq!(align_offset(usize::MAX, 8), 1);
}

#[test]
fn lock_size_without_address_has_no_padding() {
    assert_eq!(lock_size_of(None, 40), 40);
    assert_eq!(event_size_of(None, 40, 50), 90);
}

#[test]
fn lock_size_counts_padding() {
    let w = word_align();
    assert_eq!(lock_size_of(Some(0x1000), 40), 40);
    assert_eq!(lock_size_of(Some(0x1001), 40), 40 + w - 1);
}

#[test]
fn size_of_is_stable_and_matches_placement() {
    for addr in 0x1000usize..0x1010 {
        let a = lock_size_of(Some(addr), 40);
        assert_eq!(a, lock_size_of(Some(addr), 40));
        let p = place_lock(addr, 40);
        assert_eq!(p.used, a);
        assert_eq!((addr + p.offset) % word_align(), 0);

        let e = event_size_of(Some(addr), 40, 50);
        assert_eq!(e, event_size_of(Some(addr), 40, 50));
        let q = place_event(addr, 40, 50);
        assert_eq!(q.used, e);
        assert_eq!(q.mutex, p);
        assert_eq!((addr + q.state_offset) % word_align(), 0);
        assert!(q.state_offset >= q.mutex.used);
        assert!(e >= event_size_of(None, 40, 50));
    }
}

#[test]
fn event_layout_exact_values() {
    if word_align() == 8 {
        // mutex at 3..43, which ends on a word boundary, state 43..93
        let q = place_event(0x1005, 40, 50);
        assert_eq!(q.mutex.offset, 3);
        assert_eq!(q.mutex.used, 43);
        assert_eq!(q.state_offset, 43);
        assert_eq!(q.used, 93);
        let q = place_event(0x1003, 41, 2);
        assert_eq!(q.mutex.offset, 5);
        assert_eq!(q.mutex.used, 46);
        assert_eq!(q.state_offset, 53);
        assert_eq!(q.used, 55);
        assert_eq!(event_size_of(Some(0x1003), 41, 2), 55);
    }
}

#[test]
fn busy_event_takes_two_bytes_anywhere() {
    assert_eq!(busy_event_size_of(None), 2);
    assert_eq!(busy_event_size_of(Some(0x1001)), 2);
}
