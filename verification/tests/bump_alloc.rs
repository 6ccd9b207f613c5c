use core::mem::MaybeUninit;

use matter_stack::bump_alloc::{AllocError, BumpAllocator};

#[test]
fn allocates_aligned_objects() {
    let mut memory = [MaybeUninit::<u8>::uninit(); 24];
    let mut bump = BumpAllocator::at(&mut memory, 0);
    assert_eq!((bump.used(), bump.capacity()), (0, 24));
    let a = bump.alloc_pin(1u8).unwrap();
    assert_eq!(bump.used(), 1);
    let b = bump.alloc_pin(2u64).unwrap();
    assert_eq!(bump.used(), 16);
    let c = bump.alloc_pin(3u32).unwrap();
    assert_eq!(bump.used(), 20);
    assert_eq!((a.offset(), b.offset(), c.offset()), (0, 8, 16));
    assert_eq!((*a, *b, *c), (1, 2, 3));
}

#[test]
fn fails_when_out_of_memory_and_leaves_the_rest() {
    let mut memory = [MaybeUninit::<u8>::uninit(); 12];
    let mut bump = BumpAllocator::at(&mut memory, 0);
    assert!(bump.alloc_pin(1u64).is_ok());
    assert!(matches!(bump.alloc_pin(2u64), Err(AllocError)));
    assert_eq!(bump.used(), 8);
    assert!(bump.alloc_pin(3u32).is_ok());
    assert_eq!(bump.used(), 12);
    assert!(bump.alloc_pin(()).is_ok());
    assert!(bump.alloc_pin(1u8).is_err());
}

#[test]
fn raw_allocations() {
    let mut memory = [MaybeUninit::<u8>::uninit(); 64];
    let mut bump = BumpAllocator::at(&mut memory, 0);
    assert_eq!(bump.alloc_raw(5, 1), Ok(0));
    assert_eq!(bump.alloc_raw(3, 32), Ok(32));
    assert_eq!(bump.alloc_raw(0, 16), Ok(48));
    assert_eq!(bump.alloc_raw(17, 1), Err(AllocError));
    assert_eq!(bump.alloc_raw(usize::MAX, 8), Err(AllocError));
    assert_eq!(bump.alloc_raw(16, 1), Ok(48));
    assert_eq!(bump.used(), 64);
}

#[test]
fn memory_is_aligned_wherever_the_chunk_starts() {
    let mut memory = [MaybeUninit::<u8>::uninit(); 16];
    for skipped in 0..8 {
        let chunk = &mut memory[skipped..];
        let address = chunk.as_ptr() as usize;
        let mut bump = BumpAllocator::new(chunk);
        assert_eq!((bump.used(), bump.capacity()), (0, 16 - skipped));
        let b = bump.alloc_pin(7u32).unwrap();
        assert_eq!(*b, 7);
        assert_eq!((address + b.offset()) % core::mem::align_of::<u32>(), 0);
        assert!(b.offset() < 4);
        assert_eq!(bump.used(), b.offset() + 4);
    }
}

#[test]
fn padding_depends_on_the_address_of_the_chunk() {
    let mut memory = [MaybeUninit::<u8>::uninit(); 32];
    let mut bump = BumpAllocator::at(&mut memory, 1001);
    assert_eq!(bump.alloc_raw(4, 4), Ok(3));
    assert_eq!(bump.alloc_raw(1, 1), Ok(7));
    assert_eq!(bump.alloc_raw(8, 8), Ok(15));
    assert_eq!(bump.alloc_raw(16, 16), Err(AllocError));
    assert_eq!(bump.used(), 23);
}

#[test]
fn bytes_of_the_chunk_are_left_alone() {
    let mut memory = [MaybeUninit::new(5u8); 16];
    let mut bump = BumpAllocator::new(&mut memory);
    bump.alloc_raw(4, 2).unwrap();
    bump.alloc_pin(9u16).unwrap();
    bump.memory_mut()[15] = MaybeUninit::new(6);
    assert_eq!(bump.capacity(), 16);
    assert_eq!(bump.memory_mut().len(), 16);
}

#[test]
fn no_memory_at_all() {
    let mut memory: [MaybeUninit<u8>; 0] = [];
    let mut bump = BumpAllocator::new(&mut memory);
    assert_eq!(bump.capacity(), 0);
    assert!(bump.alloc_pin(0u8).is_err());
}

#[test]
fn boxed_object_can_be_written() {
    let mut memory = [MaybeUninit::<u8>::uninit(); 8];
    let mut bump = BumpAllocator::at(&mut memory, 0);
    let mut b = bump.alloc_pin(40u16).unwrap();
    *b += 2;
    assert_eq!(*b, 42);
    assert_eq!(bump.memory_mut().len(), 8);
    assert_eq!(b.into_inner(), 42);
}

#[test]
fn error_describes_itself() {
    assert_eq!(AllocError.message(), "Bump allocator out of memory");
}
