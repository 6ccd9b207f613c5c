use matter_stack::bump::{align_min, fits, Bump, Inner};

const BUMP_SIZE: usize = 1024;
const DEFAULT_VALUE: u32 = 0xDEADBEEF;

#[test]
fn test_one_concurrent_borrow() {
    let mut bump: Bump<BUMP_SIZE> = Bump::new();

    for _ in 0..(BUMP_SIZE / core::mem::size_of_val(&DEFAULT_VALUE)) {
        assert!(bump.has_room_for::<u32>());
        let b1 = bump.alloc_box(DEFAULT_VALUE, "test1");

        assert_eq!(*b1, DEFAULT_VALUE);
    }

    assert!(!bump.has_room_for::<u32>());
}

#[test]
fn test_multiple_concurrent_borrow() {
    let mut bump: Bump<BUMP_SIZE> = Bump::new();

    let mut all_boxes = Vec::new();
    for i in 0..(BUMP_SIZE / core::mem::size_of::<usize>()) {
        assert!(bump.has_room_for::<usize>());
        all_boxes.push(bump.alloc_box(i, "test2"));
    }

    for (i, b) in all_boxes.into_iter().enumerate() {
        assert_eq!(*b, i);
    }
}

#[test]
fn objects_are_padded_and_disjoint() {
    let mut bump: Bump<64> = Bump::default();
    let a = bump.pin_alloc(1u8, "a");
    let b = bump.pin_alloc(2u32, "b");
    let c = bump.pin_alloc(3u8, "c");
    let d = bump.pin_alloc(4u64, "d");
    assert_eq!((a.offset(), b.offset(), c.offset(), d.offset()), (0, 4, 8, 16));
    assert_eq!((*a, *b, *c, *d), (1, 2, 3, 4));
}

#[test]
fn padding_depends_on_the_address_of_the_region() {
    let mut bump: Bump<64> = Bump::at(1001);
    assert_eq!(bump.pin_alloc(7u64, "a").offset(), 7);
    assert_eq!(bump.pin_alloc(7u8, "b").offset(), 15);
    assert_eq!(bump.pin_alloc(7u16, "c").offset(), 17);
}

#[test]
fn reset_makes_the_memory_available_again() {
    let mut bump: Bump<8> = Bump::new();
    assert!(bump.has_room_for::<u64>());
    assert_eq!(bump.alloc_box(5u64, "a").offset(), 0);
    assert!(!bump.has_room_for::<u8>());
    bump.reset();
    assert!(bump.has_room_for::<u64>());
    assert_eq!(bump.alloc_box(6u64, "b").offset(), 0);
}

#[test]
fn objects_without_a_size_take_no_bytes() {
    let mut bump: Bump<4> = Bump::new();
    let z = bump.alloc_box((), "z");
    assert_eq!(*z, ());
    assert_eq!(z.offset(), 0);
    assert_eq!(bump.alloc_box(1u8, "a").offset(), 0);
    assert!(bump.has_room_for::<[u64; 0]>());
    assert_eq!(bump.pin_alloc([0u64; 0], "b").offset(), 1);
    assert_eq!(bump.alloc_box(2u8, "c").offset(), 1);
    assert_eq!(bump.alloc_box(3u16, "d").offset(), 2);
    assert!(!bump.has_room_for::<u8>());
    assert!(bump.has_room_for::<()>());
    assert_eq!(bump.alloc_box((), "e").offset(), 4);
}

#[test]
fn region_can_move() {
    let mut bump: Bump<64> = Bump::at(16);
    assert_eq!(bump.alloc_box(1u8, "a").offset(), 0);
    bump.move_to(1003);
    assert_eq!(bump.alloc_box(2u32, "b").offset(), 1);
    assert_eq!(bump.alloc_box(3u64, "c").offset(), 5);
}

#[test]
fn box_can_be_written() {
    let mut bump: Bump<8> = Bump::new();
    let mut b = bump.alloc_box(5u32, "a");
    *b += 2;
    assert_eq!(*b, 7);
    assert_eq!(b.offset(), 0);
    assert_eq!(b.into_inner(), 7);
}

#[test]
fn buffer_is_split_behind_the_objects() {
    assert_eq!(align_min::<u32>(0, 64, 3), (0, 12));
    assert_eq!(align_min::<u32>(3, 64, 3), (1, 13));
    assert_eq!(align_min::<u64>(9, 64, 2), (7, 23));
    // Nothing is taken for no objects, nor for objects without a size
    assert_eq!(align_min::<u32>(3, 64, 0), (0, 0));
    assert_eq!(align_min::<()>(3, 64, 5), (0, 0));
}

#[test]
fn fits_up_to_the_last_byte() {
    assert!(fits::<u32>(1, 7, 1));
    assert!(!fits::<u32>(1, 6, 1));
    assert!(fits::<u32>(1, 0, 0));
    assert!(fits::<()>(1, 0, 9));
    assert!(!fits::<u64>(0, usize::MAX, usize::MAX));
}

#[test]
fn several_objects_at_once() {
    let mut inner: Inner<64> = Inner::new(4096);
    assert_eq!(inner.allocate_for::<u8>(3), 0);
    assert_eq!(inner.allocate_for::<u16>(4), 4);
    assert!(inner.has_room_for::<u32>(13));
    assert!(!inner.has_room_for::<u32>(14));
    assert_eq!(inner.allocate_for::<u32>(13), 12);
    assert!(!inner.has_room_for::<u8>(1));
    inner.reset();
    assert!(inner.has_room_for::<u8>(64));
}
