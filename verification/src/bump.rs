//! A super-simple bump allocator that allocates off from a fixed-size memory region.
//!
//! The allocator decides where in the region each object goes. Dropping a `BumpBox` drops the
//! object that it holds; the bytes that it was given become free only when the allocator is reset.
//!
//! The primary use case of this allocator is reduction of the size of Rust futures.
use vstd::prelude::*;

verus! {

/// The size of a `T`, in bytes.
pub open spec fn size<T>() -> int {
    vstd::layout::size_of::<T>() as int
}

/// The alignment of a `T`, in bytes.
pub open spec fn alignment<T>() -> int {
    vstd::layout::align_of::<T>() as int
}

/// The number of bytes to skip at `addr` to reach a multiple of `align`.
pub open spec fn padding(addr: int, align: int) -> int {
    (align - addr % align) % align
}

/// The number of bytes that `count` objects of `size` bytes, aligned to `align`, take from a
/// buffer which starts at `addr`: the skipped bytes and the objects themselves.
pub open spec fn taken(addr: int, size: int, align: int, count: int) -> int {
    if count == 0 || size == 0 {
        0
    } else {
        padding(addr, align) + size * count
    }
}

/// `padding` is the least number of bytes that leads from `addr` to a multiple of `align`.
pub proof fn lemma_padding_is_least(addr: int, align: int, other: int)
    requires
        0 < align,
    ensures
        0 <= padding(addr, align) < align,
        (addr + padding(addr, align)) % align == 0,
        0 <= other && (addr + other) % align == 0 ==> padding(addr, align) <= other,
        addr % align == 0 ==> padding(addr, align) == 0,
{
    let p = padding(addr, align);
    let r = addr % align;
    let q = addr / align;
    vstd::arithmetic::div_mod::lemma_fundamental_div_mod(addr, align);
    vstd::arithmetic::div_mod::lemma_mod_bound(addr, align);
    if r == 0 {
        vstd::arithmetic::div_mod::lemma_mod_self_0(align);
        assert(p == 0);
    } else {
        vstd::arithmetic::div_mod::lemma_small_mod((align - r) as nat, align as nat);
        assert(p == align - r);
        assert(addr + p == align * (q + 1)) by (nonlinear_arith)
            requires
                addr == align * q + r,
                p == align - r,
        ;
        vstd::arithmetic::div_mod::lemma_mod_multiples_basic(q + 1, align);
        assert(align * (q + 1) == (q + 1) * align) by (nonlinear_arith);
    }
    if 0 <= other < p && (addr + other) % align == 0 {
        // Then r + other lies strictly between 0 and align.
        let k = (addr + other) / align;
        vstd::arithmetic::div_mod::lemma_fundamental_div_mod(addr + other, align);
        assert(false) by (nonlinear_arith)
            requires
                addr == align * q + r,
                addr + other == align * k,
                0 < r + other < align,
        ;
    }
}

/// `count` objects of `size` bytes take the least number of bytes that holds them at a multiple of
/// `align`: those before them bring them to such an address and are fewer than `align`, and none
/// that start at an earlier such address would do. No objects, or objects without a size, take
/// nothing.
pub proof fn lemma_taken_is_least(addr: int, size: int, align: int, count: int, place: int)
    requires
        0 < align,
        0 <= size,
        0 <= count,
    ensures
        0 < size && 0 < count ==> {
            let leading = taken(addr, size, align, count) - size * count;
            &&& 0 <= leading < align
            &&& (addr + leading) % align == 0
            &&& 0 <= place && (addr + place) % align == 0 ==> leading <= place
        },
        size == 0 || count == 0 ==> taken(addr, size, align, count) == 0,
{
    lemma_padding_is_least(addr, align, place);
}

/// The next object goes to the first place behind the bytes in use whose address is a multiple of
/// its alignment, and one without a size right behind them.
pub proof fn lemma_next_start_is_least<const N: usize, T>(bump: Bump<N>, place: int)
    requires
        0 < vstd::layout::align_of::<T>(),
    ensures
        0 < vstd::layout::size_of::<T>() ==> {
            let align = vstd::layout::align_of::<T>() as int;
            &&& bump.used() <= bump.next_start::<T>() < bump.used() + align
            &&& (bump.base() + bump.next_start::<T>()) % align == 0
            &&& bump.used() <= place && (bump.base() + place) % align == 0
                ==> bump.next_start::<T>() <= place
        },
        vstd::layout::size_of::<T>() == 0 ==> bump.next_start::<T>() == bump.used(),
        size::<T>() == vstd::layout::size_of::<T>(),
        alignment::<T>() == vstd::layout::align_of::<T>(),
{
    lemma_padding_is_least(
        bump.base() + bump.used(),
        vstd::layout::align_of::<T>() as int,
        place - bump.used(),
    );
}

/// Where an allocator has no room for an object, no place behind the bytes in use would do: each
/// whose address is a multiple of the alignment leaves too few bytes.
pub proof fn lemma_no_room_means_no_place<const N: usize, T>(bump: Bump<N>, place: int)
    requires
        0 < vstd::layout::align_of::<T>(),
        !(bump.next_start::<T>() + size::<T>() <= N),
        bump.used() <= N,
        bump.used() <= place,
        (bump.base() + place) % (vstd::layout::align_of::<T>() as int) == 0,
    ensures
        place + vstd::layout::size_of::<T>() > N,
{
    lemma_next_start_is_least::<N, T>(bump, place);
}

/// A series of allocations goes where one allocation after another does: its first object to the
/// next place of the allocator, and the rest behind it.
pub proof fn lemma_series_starts_at_next_place<const N: usize, T>(
    bump: Bump<N>,
    objects: Seq<(int, int)>,
)
    requires
        0 < objects.len(),
        objects[0].0 == vstd::layout::size_of::<T>(),
        objects[0].1 == vstd::layout::align_of::<T>(),
    ensures
        start_of(bump.base(), bump.used(), objects, 0) == bump.next_start::<T>(),
        used_after(bump.base(), bump.used(), objects, 1) == bump.next_start::<T>()
            + vstd::layout::size_of::<T>(),
{
    reveal_with_fuel(used_after, 2);
    reveal_with_fuel(start_of, 2);
}

/// Where a region starts at a multiple of `align`, the padding at an offset in it is that of the
/// offset alone.
pub proof fn lemma_padding_in_aligned_region(base: int, offset: int, align: int)
    requires
        0 < align,
        base % align == 0,
    ensures
        padding(base + offset, align) == padding(offset, align),
{
    vstd::arithmetic::div_mod::lemma_add_mod_noop(base, offset, align);
    vstd::arithmetic::div_mod::lemma_mod_mod(offset, align, 1);
}

/// The bytes to skip at `addr` to reach a multiple of `align`.
pub(crate) fn pad(addr: usize, align: usize) -> (p: usize)
    requires
        0 < align,
    ensures
        p == padding(addr as int, align as int),
        p < align,
{
    let rem: usize = addr % align;
    proof {
        lemma_padding_is_least(addr as int, align as int, 0);
    }
    (align - rem) % align
}

/// Tell whether `count` objects of type `T` fit into a buffer of `len` bytes which starts at `addr`.
pub fn fits<T>(addr: usize, len: usize, count: usize) -> (r: bool)
    ensures
        r == (taken(addr as int, size::<T>(), alignment::<T>(), count as int) <= len),
        count == 0 || vstd::layout::size_of::<T>() == 0 ==> r,
        r ==> (vstd::layout::size_of::<T>() as int) * count <= len,
{
    vstd::layout::layout_for_type_is_valid::<T>();
    let bytes: usize = core::mem::size_of::<T>();
    if count == 0 || bytes == 0 {
        return true;
    }
    let leading: usize = pad(addr, core::mem::align_of::<T>());
    match bytes.checked_mul(count) {
        None => {
            proof {
                lemma_padding_is_least(addr as int, alignment::<T>(), 0);
            }
            false
        },
        Some(total) => leading <= len && total <= len - leading,
    }
}

/// Split a buffer of `len` bytes which starts at `addr` for `count` objects of type `T`.
///
/// Returns the offset of the first object and the offset of the bytes that remain.
/// No bytes are taken for no objects, nor for objects without a size.
pub fn align_min<T>(addr: usize, len: usize, count: usize) -> (r: (usize, usize))
    requires
        taken(addr as int, size::<T>(), alignment::<T>(), count as int) <= len,
    ensures
        r.1 == taken(addr as int, size::<T>(), alignment::<T>(), count as int),
        r.0 + count * size::<T>() == r.1,
        r.0 + count * (vstd::layout::size_of::<T>() as int) == r.1,
        r.1 <= len,
        0 < count && 0 < vstd::layout::size_of::<T>() ==> {
            &&& (addr + r.0) % (vstd::layout::align_of::<T>() as int) == 0
            &&& r.0 < (vstd::layout::align_of::<T>() as int)
        },
        count == 0 || vstd::layout::size_of::<T>() == 0 ==> r.0 == 0 && r.1 == 0,
{
    vstd::layout::layout_for_type_is_valid::<T>();
    let bytes: usize = core::mem::size_of::<T>();
    if count == 0 || bytes == 0 {
        assert(count * size::<T>() == 0) by (nonlinear_arith)
            requires
                count == 0 || size::<T>() == 0,
        ;
        return (0, 0);
    }
    let leading: usize = pad(addr, core::mem::align_of::<T>());
    proof {
        lemma_padding_is_least(addr as int, alignment::<T>(), 0);
    }
    assert(bytes * count == count * bytes) by (nonlinear_arith);
    assert(0 <= bytes * count) by (nonlinear_arith);
    (leading, leading + bytes * count)
}

/// The bookkeeping of a bump allocator over a region of `N` bytes.
pub struct Inner<const N: usize> {
    base: usize,
    offset: usize,
}

impl<const N: usize> Inner<N> {
    /// The address at which the region starts.
    pub closed spec fn base(&self) -> int {
        self.base as int
    }

    /// The number of bytes, from the start of the region, that are no longer available.
    pub closed spec fn used(&self) -> int {
        self.offset as int
    }

    /// The region lies in the address space and no more than all of it is used.
    pub open spec fn wf(&self) -> bool {
        &&& 0 <= self.base()
        &&& self.base() + N <= usize::MAX
        &&& 0 <= self.used() <= N
    }

    /// The bytes that `count` objects of type `T` would take now.
    pub open spec fn needs<T>(&self, count: int) -> int {
        taken(self.base() + self.used(), size::<T>(), alignment::<T>(), count)
    }

    /// Create the bookkeeping of an unused region which starts at the address `base`.
    pub fn new(base: usize) -> (r: Self)
        requires
            base + N <= usize::MAX,
        ensures
            r.wf(),
            r.base() == base,
            r.used() == 0,
    {
        Inner { base, offset: 0 }
    }

    /// Tell whether there is room for `count` objects of type `T`.
    pub fn has_room_for<T>(&self, count: usize) -> (r: bool)
        requires
            self.wf(),
        ensures
            r == (self.used() + self.needs::<T>(count as int) <= N),
    {
        fits::<T>(self.base + self.offset, N - self.offset, count)
    }

    /// Allocate space for `count` objects of type `T`, and return the offset of the first one
    /// from the start of the region.
    pub fn allocate_for<T>(&mut self, count: usize) -> (start: usize)
        requires
            old(self).wf(),
            old(self).used() + old(self).needs::<T>(count as int) <= N,
        ensures
            final(self).wf(),
            final(self).base() == old(self).base(),
            final(self).used() == old(self).used() + old(self).needs::<T>(count as int),
            start + count * size::<T>() == final(self).used(),
            start + count * (vstd::layout::size_of::<T>() as int) == final(self).used(),
            old(self).used() <= start,
            0 < count && 0 < vstd::layout::size_of::<T>() ==> {
                &&& (old(self).base() + start) % (vstd::layout::align_of::<T>() as int) == 0
                &&& start < old(self).used() + (vstd::layout::align_of::<T>() as int)
            },
            count == 0 || vstd::layout::size_of::<T>() == 0 ==> start == old(self).used(),
    {
        let (leading, total) = align_min::<T>(self.base + self.offset, N - self.offset, count);
        let start: usize = self.offset + leading;
        self.offset = self.offset + total;
        start
    }

    /// Take note that the region starts at the address `base` from now on.
    pub fn move_to(&mut self, base: usize)
        requires
            old(self).wf(),
            base + N <= usize::MAX,
        ensures
            final(self).wf(),
            final(self).base() == base,
            final(self).used() == old(self).used(),
    {
        self.base = base;
    }

    /// Make the whole region available again.
    pub fn reset(&mut self)
        requires
            old(self).wf(),
        ensures
            final(self).wf(),
            final(self).base() == old(self).base(),
            final(self).used() == 0,
    {
        self.offset = 0;
    }
}

/// A bump allocator over a region of `N` bytes.
pub struct Bump<const N: usize> {
    inner: Inner<N>,
}

impl<const N: usize> Default for Bump<N> {
    fn default() -> (r: Self)
        ensures
            r.wf(),
            r.base() == 0,
            r.used() == 0,
    {
        Self::new()
    }
}

impl<const N: usize> Bump<N> {
    /// The address at which the region starts.
    pub closed spec fn base(&self) -> int {
        self.inner.base()
    }

    /// The number of bytes, from the start of the region, that are no longer available.
    pub closed spec fn used(&self) -> int {
        self.inner.used()
    }

    /// The region lies in the address space and no more than all of it is used.
    pub open spec fn wf(&self) -> bool {
        &&& 0 <= self.base()
        &&& self.base() + N <= usize::MAX
        &&& 0 <= self.used() <= N
    }

    /// The offset at which the next object of type `T` goes. An object without a size takes no
    /// bytes, and none are skipped for it.
    pub open spec fn next_start<T>(&self) -> int {
        if size::<T>() == 0 {
            self.used()
        } else {
            self.used() + padding(self.base() + self.used(), alignment::<T>())
        }
    }

    /// Create a new bump allocator over a region which is aligned for every type.
    pub fn new() -> (r: Self)
        ensures
            r.wf(),
            r.base() == 0,
            r.used() == 0,
    {
        Self::at(0)
    }

    /// Create a new bump allocator over the region which starts at the address `base`.
    pub fn at(base: usize) -> (r: Self)
        requires
            base + N <= usize::MAX,
        ensures
            r.wf(),
            r.base() == base,
            r.used() == 0,
    {
        Bump { inner: Inner::new(base) }
    }

    /// Reset the allocator, making all previously allocated memory available again.
    ///
    /// Objects that are allocated afterwards get the places of those allocated before.
    pub fn reset(&mut self)
        requires
            old(self).wf(),
        ensures
            final(self).wf(),
            final(self).base() == old(self).base(),
            final(self).used() == 0,
    {
        self.inner.reset();
    }

    /// Take note that the region starts at the address `base` from now on. What is in use stays so.
    pub fn move_to(&mut self, base: usize)
        requires
            old(self).wf(),
            base + N <= usize::MAX,
        ensures
            final(self).wf(),
            final(self).base() == base,
            final(self).used() == old(self).used(),
    {
        self.inner.move_to(base);
    }

    /// Tell whether there is room for one more object of type `T`.
    pub fn has_room_for<T>(&self) -> (r: bool)
        requires
            self.wf(),
        ensures
            r == (self.next_start::<T>() + size::<T>() <= N),
            vstd::layout::size_of::<T>() == 0 ==> r,
            r ==> self.used() + (vstd::layout::size_of::<T>() as int) <= N,
    {
        let r: bool = self.inner.has_room_for::<T>(1);
        assert(size::<T>() * 1 == size::<T>()) by (nonlinear_arith);
        r
    }

    /// Allocate an object at a place that it keeps.
    ///
    /// # Arguments
    /// - `object`: The object to allocate
    /// - `location`: A string describing the location of the allocation
    pub fn pin_alloc<T>(&mut self, object: T, location: &str) -> (r: BumpBox<T>)
        requires
            old(self).wf(),
            old(self).next_start::<T>() + size::<T>() <= N,
        ensures
            final(self).wf(),
            final(self).base() == old(self).base(),
            final(self).used() == old(self).next_start::<T>() + size::<T>(),
            r.value() == object,
            r.start() == old(self).next_start::<T>(),
            old(self).used() <= r.start(),
            r.start() + (vstd::layout::size_of::<T>() as int) == final(self).used() <= N,
            0 < vstd::layout::size_of::<T>() ==> {
                &&& (old(self).base() + r.start()) % (vstd::layout::align_of::<T>() as int) == 0
                &&& r.start() < old(self).used() + (vstd::layout::align_of::<T>() as int)
            },
            vstd::layout::size_of::<T>() == 0 ==> r.start() == old(self).used(),
    {
        self.alloc_box(object, location)
    }

    /// Allocate an object and return it in a `BumpBox<T>`.
    ///
    /// # Arguments
    /// - `object`: The object to allocate
    /// - `location`: A string describing the location of the allocation
    pub fn alloc_box<T>(&mut self, object: T, location: &str) -> (r: BumpBox<T>)
        requires
            old(self).wf(),
            old(self).next_start::<T>() + size::<T>() <= N,
        ensures
            final(self).wf(),
            final(self).base() == old(self).base(),
            final(self).used() == old(self).next_start::<T>() + size::<T>(),
            r.value() == object,
            r.start() == old(self).next_start::<T>(),
            old(self).used() <= r.start(),
            r.start() + (vstd::layout::size_of::<T>() as int) == final(self).used() <= N,
            0 < vstd::layout::size_of::<T>() ==> {
                &&& (old(self).base() + r.start()) % (vstd::layout::align_of::<T>() as int) == 0
                &&& r.start() < old(self).used() + (vstd::layout::align_of::<T>() as int)
            },
            vstd::layout::size_of::<T>() == 0 ==> r.start() == old(self).used(),
    {
        assert(size::<T>() * 1 == size::<T>()) by (nonlinear_arith);
        let start: usize = self.inner.allocate_for::<T>(1);
        BumpBox { value: object, start }
    }
}

/// A box-like container that uses bump allocation.
pub struct BumpBox<T> {
    value: T,
    start: usize,
}

impl<T> BumpBox<T> {
    /// The object in the box.
    pub closed spec fn value(&self) -> T {
        self.value
    }

    /// The offset of the object from the start of the allocator's region.
    pub closed spec fn start(&self) -> int {
        self.start as int
    }

    /// Return the offset of the object from the start of the allocator's region.
    pub fn offset(&self) -> (r: usize)
        ensures
            r == self.start(),
    {
        self.start
    }

    /// Take the object out of the box.
    pub fn into_inner(self) -> (r: T)
        ensures
            r == self.value(),
    {
        self.value
    }
}

impl<T> core::ops::Deref for BumpBox<T> {
    type Target = T;

    fn deref(&self) -> (r: &T)
        ensures
            *r == self.value(),
    {
        &self.value
    }
}

impl<T> core::ops::DerefMut for BumpBox<T> {
    fn deref_mut(&mut self) -> (r: &mut T)
        ensures
            *r == old(self).value(),
            final(self).value() == *final(r),
            final(self).start() == old(self).start(),
    {
        &mut self.value
    }
}

/// The number of used bytes after the first `i` of a series of allocations, each given by the
/// size and the alignment of its object, from a region at `base` of which `used` bytes are used.
pub open spec fn used_after(base: int, used: int, objects: Seq<(int, int)>, i: int) -> int
    decreases i, 0int,
{
    if i <= 0 {
        used
    } else {
        start_of(base, used, objects, i - 1) + objects[i - 1].0
    }
}

/// The offset at which allocation `i` of the series is placed.
pub open spec fn start_of(base: int, used: int, objects: Seq<(int, int)>, i: int) -> int
    decreases i, 1int,
{
    let before = used_after(base, used, objects, i);
    if objects[i].0 == 0 {
        before
    } else {
        before + padding(base + before, objects[i].1)
    }
}

/// The objects of a series of allocations, with no reset in between, never overlap: each one
/// starts at or after the end of every earlier one. All of them lie between the bytes that were
/// in use before and the bytes that are free afterwards, and each that has a size is aligned.
pub proof fn lemma_objects_are_disjoint(
    base: int,
    used: int,
    objects: Seq<(int, int)>,
    i: int,
    j: int,
)
    requires
        forall|k: int| 0 <= k < objects.len() ==> 0 <= (#[trigger] objects[k]).0 && 0 < objects[k].1,
        0 <= i < j < objects.len(),
    ensures
        used <= start_of(base, used, objects, i),
        0 < objects[i].0 ==> (base + start_of(base, used, objects, i)) % objects[i].1 == 0,
        0 < objects[j].0 ==> (base + start_of(base, used, objects, j)) % objects[j].1 == 0,
        start_of(base, used, objects, i) + objects[i].0 <= start_of(base, used, objects, j),
        start_of(base, used, objects, j) + objects[j].0 <= used_after(
            base,
            used,
            objects,
            objects.len() as int,
        ),
{
    lemma_used_grows(base, used, objects, 0, i);
    lemma_used_grows(base, used, objects, i + 1, j);
    lemma_used_grows(base, used, objects, j + 1, objects.len() as int);
    lemma_padding_is_least(base + used_after(base, used, objects, i), objects[i].1, 0);
    lemma_padding_is_least(base + used_after(base, used, objects, j), objects[j].1, 0);
}

/// The number of used bytes never shrinks along a series of allocations.
proof fn lemma_used_grows(base: int, used: int, objects: Seq<(int, int)>, i: int, j: int)
    requires
        forall|k: int| 0 <= k < objects.len() ==> 0 <= (#[trigger] objects[k]).0 && 0 < objects[k].1,
        0 <= i <= j <= objects.len(),
    ensures
        used_after(base, used, objects, i) <= used_after(base, used, objects, j),
    decreases j - i,
{
    if i < j {
        lemma_used_grows(base, used, objects, i, j - 1);
        let before = used_after(base, used, objects, j - 1);
        assert(0 <= objects[j - 1].0 && 0 < objects[j - 1].1);
        lemma_padding_is_least(base + before, objects[j - 1].1, 0);
    }
}

/// A region that starts at a multiple of the alignment holds objects of one type without a gap:
/// as many of them as its size divided by theirs.
pub proof fn lemma_equal_objects_are_packed(base: int, size: int, align: int, n: int, i: int)
    requires
        0 < align,
        0 <= size,
        size % align == 0,
        base % align == 0,
        0 <= i <= n,
    ensures
        used_after(base, 0, Seq::new(n as nat, |k: int| (size, align)), i) == i * size,
    decreases i,
{
    let objects = Seq::new(n as nat, |k: int| (size, align));
    if i > 0 {
        lemma_equal_objects_are_packed(base, size, align, n, i - 1);
        let before = (i - 1) * size;
        assert((base + before) % align == 0) by {
            vstd::arithmetic::div_mod::lemma_mod_mod(0, align, 1);
            vstd::arithmetic::div_mod::lemma_mul_mod_noop_right(i - 1, size, align);
            vstd::arithmetic::div_mod::lemma_add_mod_noop(base, before, align);
            assert((i - 1) * 0 == 0) by (nonlinear_arith);
        }
        lemma_padding_is_least(base + before, align, 0);
        assert(before + size == i * size) by (nonlinear_arith)
            requires
                before == (i - 1) * size,
        ;
    } else {
        assert(0 * size == 0) by (nonlinear_arith);
    }
}

} // verus!
