//! A simple bump allocator for fixed-size memory chunks.
//!
//! This allocator is designed for allocating objects that have a known maximum lifetime.
//! All allocations are freed when the allocator is dropped.
use vstd::prelude::*;

use core::mem::MaybeUninit;

verus! {

/// The least offset not below `offset` at which an address in a chunk that starts at `base` is a
/// multiple of `align`.
pub open spec fn aligned(base: int, offset: int, align: int) -> int {
    offset + crate::bump::padding(base + offset, align)
}

/// `<[T]>::as_ptr`: the address at which the chunk starts. It is not known beforehand; no chunk
/// goes beyond the end of the address space.
#[verifier::external_body]
fn chunk_address(memory: &[MaybeUninit<u8>]) -> (r: usize)
    ensures
        r + memory@.len() <= usize::MAX,
{
    memory.as_ptr() as usize
}

/// A bump allocator that uses a provided memory chunk.
pub struct BumpAllocator<'a> {
    memory: &'a mut [MaybeUninit<u8>],
    base: usize,
    offset: usize,
}

impl<'a> BumpAllocator<'a> {
    /// The bytes of the chunk.
    pub closed spec fn bytes(&self) -> Seq<MaybeUninit<u8>> {
        self.memory@
    }

    /// The address at which the chunk starts.
    pub closed spec fn base(&self) -> int {
        self.base as int
    }

    /// The number of bytes, from the start of the chunk, that are in use.
    pub closed spec fn used_bytes(&self) -> int {
        self.offset as int
    }

    /// The size of the chunk.
    pub open spec fn size_bytes(&self) -> int {
        self.bytes().len() as int
    }

    /// No more than the whole chunk is in use, and it lies in the address space.
    pub open spec fn wf(&self) -> bool {
        &&& 0 <= self.used_bytes() <= self.size_bytes()
        &&& 0 <= self.base()
        &&& self.base() + self.size_bytes() <= usize::MAX
    }

    /// Create a new bump allocator with the provided memory chunk, at the address where it lies.
    pub fn new(memory: &'a mut [MaybeUninit<u8>]) -> (r: Self)
        ensures
            r.wf(),
            r.used_bytes() == 0,
            r.bytes() == old(memory)@,
    {
        let base: usize = chunk_address(&*memory);
        Self::at(memory, base)
    }

    /// Create a new bump allocator with the provided memory chunk, which starts at the address
    /// `base`.
    pub fn at(memory: &'a mut [MaybeUninit<u8>], base: usize) -> (r: Self)
        requires
            base + old(memory)@.len() <= usize::MAX,
        ensures
            r.wf(),
            r.base() == base,
            r.used_bytes() == 0,
            r.bytes() == old(memory)@,
    {
        BumpAllocator { memory, base, offset: 0 }
    }

    /// Allocate memory for an object and place the object there.
    ///
    /// Fails, and leaves the allocator as it is, if and only if the object does not fit behind
    /// the bytes in use.
    pub fn alloc_pin<T>(&mut self, object: T) -> (r: Result<BumpBox<T>, AllocError>)
        requires
            old(self).wf(),
        ensures
            final(self).wf(),
            final(self).bytes() == old(self).bytes(),
            final(self).base() == old(self).base(),
            ({
                let start = aligned(
                    old(self).base(),
                    old(self).used_bytes(),
                    crate::bump::alignment::<T>(),
                );
                let end = start + crate::bump::size::<T>();
                match r {
                    Ok(boxed) => {
                        &&& end <= old(self).size_bytes()
                        &&& final(self).used_bytes() == end
                        &&& boxed.start() == start
                        &&& (old(self).base() + boxed.start()) % crate::bump::alignment::<T>() == 0
                        &&& old(self).used_bytes() <= boxed.start()
                        &&& boxed.start() < old(self).used_bytes() + (vstd::layout::align_of::<T>() as int)
                        &&& (old(self).base() + boxed.start()) % (vstd::layout::align_of::<T>() as int) == 0
                        &&& final(self).used_bytes() == boxed.start() + (vstd::layout::size_of::<T>() as int)
                        &&& final(self).used_bytes() <= old(self).bytes().len()
                        &&& boxed.value() == object
                    },
                    Err(_) => {
                        &&& end > old(self).size_bytes()
                        &&& final(self).used_bytes() == old(self).used_bytes()
                    },
                }
            }),
    {
        vstd::layout::layout_for_type_is_valid::<T>();
        match self.alloc_raw(core::mem::size_of::<T>(), core::mem::align_of::<T>()) {
            Ok(start) => Ok(BumpBox { value: object, start }),
            Err(e) => Err(e),
        }
    }

    /// Allocate `size` bytes whose address is a multiple of `align`, and return their offset from
    /// the start of the chunk.
    pub fn alloc_raw(&mut self, size: usize, align: usize) -> (r: Result<usize, AllocError>)
        requires
            old(self).wf(),
            0 < align,
        ensures
            final(self).wf(),
            final(self).bytes() == old(self).bytes(),
            final(self).base() == old(self).base(),
            ({
                let start = aligned(old(self).base(), old(self).used_bytes(), align as int);
                match r {
                    Ok(offset) => {
                        &&& offset == start
                        &&& (old(self).base() + offset) % (align as int) == 0
                        &&& old(self).used_bytes() <= offset < old(self).used_bytes() + align
                        &&& final(self).used_bytes() == offset + size <= old(self).bytes().len()
                        &&& start + size <= old(self).size_bytes()
                        &&& final(self).used_bytes() == start + size
                    },
                    Err(_) => {
                        &&& start + size > old(self).size_bytes()
                        &&& start + size > old(self).bytes().len()
                        &&& final(self).used_bytes() == old(self).used_bytes()
                    },
                }
            }),
    {
        let capacity: usize = self.memory.len();
        let skipped: usize = crate::bump::pad(self.base + self.offset, align);
        proof {
            crate::bump::lemma_padding_is_least(self.base + self.offset, align as int, 0);
        }
        let left: usize = capacity - self.offset;
        if skipped > left || size > left - skipped {
            return Err(AllocError);
        }
        let start: usize = self.offset + skipped;
        self.offset = start + size;
        Ok(start)
    }

    /// Borrow the chunk.
    pub fn memory_mut(&mut self) -> (r: &mut [MaybeUninit<u8>])
        ensures
            r@ == old(self).bytes(),
            final(self).bytes() == final(r)@,
            final(self).base() == old(self).base(),
            final(self).used_bytes() == old(self).used_bytes(),
    {
        &mut *self.memory
    }

    /// Get the current memory usage.
    pub fn used(&self) -> (r: usize)
        ensures
            r == self.used_bytes(),
    {
        self.offset
    }

    /// Get the total capacity.
    pub fn capacity(&self) -> (r: usize)
        ensures
            r == self.size_bytes(),
            r == self.bytes().len(),
    {
        self.memory.len()
    }
}

/// A box-like container that uses bump allocation.
pub struct BumpBox<T> {
    value: T,
    start: usize,
}

impl<T> BumpBox<T> {
    /// The object in the box.
    pub closed spec fn value(&self) -> T {
        self.value
    }

    /// The offset of the object from the start of the allocator's chunk.
    pub closed spec fn start(&self) -> int {
        self.start as int
    }

    /// Return the offset of the object from the start of the allocator's chunk.
    pub fn offset(&self) -> (r: usize)
        ensures
            r == self.start(),
    {
        self.start
    }

    /// Take the object out of the box.
    pub fn into_inner(self) -> (r: T)
        ensures
            r == self.value(),
    {
        self.value
    }
}

impl<T> core::ops::Deref for BumpBox<T> {
    type Target = T;

    fn deref(&self) -> (r: &T)
        ensures
            *r == self.value(),
    {
        &self.value
    }
}

impl<T> core::ops::DerefMut for BumpBox<T> {
    fn deref_mut(&mut self) -> (r: &mut T)
        ensures
            *r == old(self).value(),
            final(self).value() == *final(r),
            final(self).start() == old(self).start(),
    {
        &mut self.value
    }
}

/// Error type for allocation failures.
#[derive(Debug, Clone, Copy, PartialEq, Eq, Structural)]
pub struct AllocError;

impl AllocError {
    /// Describe the error.
    pub fn message(&self) -> (r: &'static str)
        ensures
            r@ == "Bump allocator out of memory"@,
    {
        "Bump allocator out of memory"
    }
}

/// An allocation goes to the first place behind the bytes in use whose address is a multiple of
/// its alignment.
pub proof fn lemma_aligned_is_least(base: int, used: int, align: int, place: int)
    requires
        0 < align,
    ensures
        used <= aligned(base, used, align) < used + align,
        (base + aligned(base, used, align)) % align == 0,
        used <= place && (base + place) % align == 0 ==> aligned(base, used, align) <= place,
{
    crate::bump::lemma_padding_is_least(base + used, align, place - used);
}

/// An allocation that fails has no place left in the chunk: wherever behind the bytes in use an
/// address is a multiple of the alignment, the chunk ends too soon.
pub proof fn lemma_failure_means_no_place(
    base: int,
    used: int,
    size: int,
    align: int,
    capacity: int,
    place: int,
)
    requires
        0 < align,
        aligned(base, used, align) + size > capacity,
        used <= place,
        (base + place) % align == 0,
    ensures
        place + size > capacity,
{
    lemma_aligned_is_least(base, used, align, place);
}

/// The bytes in use after the first `i` of a series of allocations, each given by its size and
/// alignment, from a chunk at `base` of which `used` bytes are in use.
pub open spec fn used_after(base: int, used: int, objects: Seq<(int, int)>, i: int) -> int
    decreases i,
{
    if i <= 0 {
        used
    } else {
        aligned(base, used_after(base, used, objects, i - 1), objects[i - 1].1) + objects[i - 1].0
    }
}

/// What a series of allocations from one chunk hands out never overlaps: each allocation starts
/// at or after the end of every earlier one, and at an address that is a multiple of its
/// alignment.
pub proof fn lemma_allocations_are_disjoint(
    base: int,
    used: int,
    objects: Seq<(int, int)>,
    i: int,
    j: int,
)
    requires
        0 <= i < j < objects.len(),
        forall|k: int| 0 <= k < objects.len() ==> 0 <= (#[trigger] objects[k]).0 && 0 < objects[k].1,
    ensures
        ({
            let first = aligned(base, used_after(base, used, objects, i), objects[i].1);
            let second = aligned(base, used_after(base, used, objects, j), objects[j].1);
            &&& used <= first
            &&& first + objects[i].0 <= second
            &&& (base + first) % objects[i].1 == 0
            &&& (base + second) % objects[j].1 == 0
        }),
{
    lemma_used_grows(base, used, objects, 0, i);
    lemma_used_grows(base, used, objects, i + 1, j);
    crate::bump::lemma_padding_is_least(
        base + used_after(base, used, objects, i),
        objects[i].1,
        0,
    );
    crate::bump::lemma_padding_is_least(
        base + used_after(base, used, objects, j),
        objects[j].1,
        0,
    );
}

/// The bytes in use never become fewer along a series of allocations.
proof fn lemma_used_grows(base: int, used: int, objects: Seq<(int, int)>, i: int, j: int)
    requires
        forall|k: int| 0 <= k < objects.len() ==> 0 <= (#[trigger] objects[k]).0 && 0 < objects[k].1,
        0 <= i <= j <= objects.len(),
    ensures
        used_after(base, used, objects, i) <= used_after(base, used, objects, j),
    decreases j - i,
{
    if i < j {
        lemma_used_grows(base, used, objects, i, j - 1);
        assert(0 <= objects[j - 1].0 && 0 < objects[j - 1].1);
        crate::bump::lemma_padding_is_least(
            base + used_after(base, used, objects, j - 1),
            objects[j - 1].1,
            0,
        );
    }
}

} // verus!
