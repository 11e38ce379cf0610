use std::mem::size_of;

use dodgems::{AllocError, BumpCar};

#[test]
fn allocate_vec() {
    let mut b = BumpCar::new(4096 * size_of::<i32>()).unwrap();
    assert_eq!(b.remaining_capacity(), 4096 * size_of::<i32>());
    assert_eq!(b.capacity(), 4096 * size_of::<i32>());

    // A vector leasing room for 1024 elements up front.
    let v = b
        .allocate(1024 * size_of::<i32>(), size_of::<i32>())
        .unwrap();

    assert_eq!(b.remaining_capacity(), 3072 * size_of::<i32>());

    // Growing the vector to 2048 elements reallocates: fresh space is
    // granted and the old block is handed back, which reclaims nothing.
    let v2 = b
        .allocate(2048 * size_of::<i32>(), size_of::<i32>())
        .unwrap();
    b.deallocate(v, 1024 * size_of::<i32>(), size_of::<i32>());

    assert_eq!(b.remaining_capacity(), 1024 * size_of::<i32>());

    // Shrinking the vector keeps the offset and adds no capacity back.
    let v3 = b
        .shrink(
            v2,
            2048 * size_of::<i32>(),
            size_of::<i32>(),
            1024 * size_of::<i32>(),
            size_of::<i32>(),
        )
        .unwrap();
    assert_eq!(v3, v2);

    // Deallocate (noop)
    b.deallocate(v3, 1024 * size_of::<i32>(), size_of::<i32>());
    assert_eq!(b.remaining_capacity(), 1024 * size_of::<i32>());

    b.reset();
    assert_eq!(b.remaining_capacity(), 4096 * size_of::<i32>());

    drop(b);
}

#[test]
fn allocate_failure() {
    let mut b = BumpCar::new(256).unwrap();

    let big_block = b.allocate(256, 1).unwrap();
    assert!(matches!(b.allocate(128, 1), Err(_)));

    b.deallocate(big_block, 256, 1);

    b.reset();

    assert!(matches!(b.allocate(128, 1), Ok(_)));
}

#[test]
fn allocate_zero_size() {
    let mut b = BumpCar::new(256).unwrap();

    let _zero_size_alloc = b.allocate(0, 1).unwrap();

    assert_eq!(b.remaining_capacity(), 256);

    let _fill_allocator = b.allocate(256, 1).unwrap();

    assert_eq!(b.remaining_capacity(), 0);

    let _zero_size_alloc = b.allocate(0, 1).unwrap();

    assert_eq!(b.remaining_capacity(), 0);
}

#[test]
fn allocate_vary_alignment() {
    let mut b = BumpCar::new(24).unwrap();

    b.allocate(1, 1).unwrap();
    assert_eq!(b.remaining_capacity(), 23);

    b.allocate(2, 2).unwrap();
    assert_eq!(b.remaining_capacity(), 20);

    // increase alignment, but add an extra byte to offset the current alignment
    b.allocate(1, 1).unwrap();
    b.allocate(4, 4).unwrap();
    assert_eq!(b.remaining_capacity(), 12);

    b.allocate(1, 1).unwrap();
    b.allocate(8, 8).unwrap();
    assert_eq!(b.remaining_capacity(), 0);
}

#[test]
fn allocate_checkpoint() {
    let mut b = BumpCar::new(256).unwrap();

    let alloc_half = b.allocate(128, 1).unwrap();
    b.deallocate(alloc_half, 128, 1);

    assert_eq!(b.remaining_capacity(), 128);

    let mut checkpoint = b.checkpoint();

    assert_eq!(b.remaining_capacity(), 0);
    assert_eq!(checkpoint.capacity(), 128);
    assert_eq!(checkpoint.remaining_capacity(), 128);

    let alloc_rest = checkpoint.allocate(128, 1).unwrap();
    checkpoint.deallocate(alloc_rest, 128, 1);

    assert_eq!(checkpoint.remaining_capacity(), 0);

    let checkpoint2 = checkpoint.checkpoint();
    assert_eq!(checkpoint2.capacity(), 0);
    drop(checkpoint2);

    checkpoint.reset();
    assert_eq!(checkpoint.remaining_capacity(), 128);

    drop(checkpoint);
    drop(b);
}

#[test]
fn construction_rejects_oversized_capacity() {
    assert!(matches!(BumpCar::new(usize::MAX), Err(AllocError)));
    // The capacity itself fits a signed offset, but its word-aligned
    // rounding does not.
    assert!(matches!(BumpCar::new(isize::MAX as usize), Err(AllocError)));
    // The largest accepted capacity: already a multiple of the word size.
    let largest = isize::MAX as usize - (size_of::<usize>() - 1);
    let b = BumpCar::new(largest).unwrap();
    assert_eq!(b.capacity(), largest);
}

#[test]
fn allocation_offsets_follow_alignment() {
    let mut b = BumpCar::new(32).unwrap();
    assert_eq!(b.allocate(1, 1), Ok(0));
    // The next start is the smallest multiple of 8 at or past offset 1.
    assert_eq!(b.allocate(4, 8), Ok(8));
    // ... and the smallest multiple of 2 at or past offset 12.
    assert_eq!(b.allocate(2, 2), Ok(12));
    assert_eq!(b.remaining_capacity(), 32 - 14);
}

#[test]
fn boundary_exact_fit_succeeds_one_past_fails() {
    let mut b = BumpCar::new(16).unwrap();
    // A rounded end one byte past the capacity fails and changes nothing.
    assert_eq!(b.allocate(17, 1), Err(AllocError));
    assert_eq!(b.remaining_capacity(), 16);
    // A rounded end exactly at the capacity succeeds.
    assert_eq!(b.allocate(16, 1), Ok(0));
    assert_eq!(b.remaining_capacity(), 0);
}

#[test]
fn queries_are_read_only() {
    let mut b = BumpCar::new(64).unwrap();
    b.allocate(3, 1).unwrap();
    for _ in 0..4 {
        assert_eq!(b.remaining_capacity(), 61);
        assert!(b.can_allocate(61, 1));
        assert!(!b.can_allocate(62, 1));
        assert!(!b.can_allocate(61, 2));
    }
    // The queries changed nothing: the allocation they predicted succeeds.
    assert_eq!(b.allocate(61, 1), Ok(3));
}

#[test]
fn can_allocate_accounts_for_padding() {
    let mut b = BumpCar::new(8).unwrap();
    b.allocate(1, 1).unwrap();
    // 7 bytes remain, but a 7-byte request aligned to 4 needs 3 of padding.
    assert_eq!(b.remaining_capacity(), 7);
    assert!(b.can_allocate(4, 4));
    assert!(!b.can_allocate(5, 4));
    assert_eq!(b.allocate(5, 4), Err(AllocError));
    assert_eq!(b.allocate(4, 4), Ok(4));
}

#[test]
fn zero_size_advances_only_by_padding() {
    let mut b = BumpCar::new(8).unwrap();
    b.allocate(1, 1).unwrap();
    // Zero bytes at alignment 4: the cursor moves to the padded offset only.
    assert_eq!(b.allocate(0, 4), Ok(4));
    assert_eq!(b.remaining_capacity(), 4);
}

#[test]
fn shrink_rejects_stricter_alignment() {
    let b = BumpCar::new(64).unwrap();
    assert_eq!(b.shrink(8, 16, 4, 8, 8), Err(AllocError));
    assert_eq!(b.shrink(8, 16, 4, 8, 4), Ok(8));
    assert_eq!(b.shrink(8, 16, 4, 8, 1), Ok(8));
    // Shrink inspects nothing but the alignments: the arena is unchanged.
    assert_eq!(b.remaining_capacity(), 64);
}

#[test]
fn reset_restores_a_fresh_arena() {
    let mut b = BumpCar::new(100).unwrap();
    b.allocate(60, 1).unwrap();
    b.checkpoint();
    assert_eq!(b.remaining_capacity(), 0);
    // A reset parent regains its original capacity unconditionally.
    b.reset();
    assert_eq!(b.capacity(), 100);
    assert_eq!(b.remaining_capacity(), 100);
    assert_eq!(b.allocate(100, 1), Ok(0));
}

#[test]
fn checkpoint_of_exhausted_checkpoint_is_empty() {
    let mut b = BumpCar::new(40).unwrap();
    b.allocate(15, 1).unwrap();
    let mut cp = b.checkpoint();
    assert_eq!(b.remaining_capacity(), 0);
    assert_eq!(cp.capacity(), 25);
    cp.allocate(25, 1).unwrap();
    let cp2 = cp.checkpoint();
    assert_eq!(cp2.capacity(), 0);
    assert_eq!(cp2.remaining_capacity(), 0);
}
