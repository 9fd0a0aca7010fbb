//! Stack allocation: an explicitly constructed allocator that accounts for a
//! fixed-capacity backing region, and the aligned, zero-initialized stack
//! blocks it hands out.

use vstd::prelude::*;

verus! {

/// Smallest stack size, in bytes, that the allocator will hand out: every
/// request is clamped up to this minimum.
pub const MIN_STACK_SIZE: usize = 4096;

/// Alignment, in bytes, that the target's calling convention requires of a
/// stack's base address.
pub const BYTE_ALIGN: usize = 8;

/// The backing region cannot satisfy a stack request.
#[derive(Clone, Copy, Debug, PartialEq, Eq, Structural)]
pub struct AllocationFailure;

/// A contiguous, zero-initialized memory region used as a coroutine's
/// execution stack. Addresses are offsets into the block's own region:
/// `limit` is the lowest usable address and `base` the highest, since the
/// stack grows downward. The backing bytes live exactly as long as the block.
pub struct DefaultStack {
    /// The backing bytes of the region.
    pub mem: Vec<u8>,
}

/// The requested size clamped up to the allocator's minimum.
pub open spec fn spec_clamped_size(size: usize) -> int {
    if size < MIN_STACK_SIZE {
        MIN_STACK_SIZE as int
    } else {
        size as int
    }
}

/// The size a request really occupies: clamped up to the minimum, then
/// rounded up to the alignment boundary so that the base stays aligned.
pub open spec fn spec_padded_size(size: usize) -> int {
    ((spec_clamped_size(size) + BYTE_ALIGN - 1) / (BYTE_ALIGN as int)) * (BYTE_ALIGN as int)
}

impl DefaultStack {
    /// Size of the region in bytes.
    pub open spec fn spec_size(&self) -> int {
        self.mem@.len() as int
    }

    /// Highest usable address of the region, as an offset into it.
    pub open spec fn spec_base(&self) -> int {
        self.spec_size()
    }

    /// Lowest address of the region, as an offset into it.
    pub open spec fn spec_limit(&self) -> int {
        0
    }

    /// A well-formed block holds at least `MIN_STACK_SIZE` bytes and keeps
    /// its base on the alignment boundary.
    pub open spec fn wf(&self) -> bool {
        &&& self.spec_size() >= MIN_STACK_SIZE
        &&& self.spec_base() % (BYTE_ALIGN as int) == 0
    }

    /// Every byte of the region is zero.
    pub open spec fn zeroed(&self) -> bool {
        forall|i: int| 0 <= i < self.mem@.len() ==> self.mem@[i] == 0u8
    }

    /// Highest usable address of the region (the stack grows down from here).
    pub fn base(&self) -> (r: usize)
        ensures
            r as int == self.spec_base(),
    {
        self.mem.len()
    }

    /// Lowest address of the region.
    pub fn limit(&self) -> (r: usize)
        ensures
            r as int == self.spec_limit(),
    {
        0
    }

    /// Size of the region in bytes; always `base() - limit()`.
    pub fn size(&self) -> (r: usize)
        ensures
            r as int == self.spec_size(),
    {
        self.mem.len()
    }

    /// Creates a new stack with at least the given capacity, drawn from the
    /// given allocator. Same contract as [`StackAllocator::allocate`].
    pub fn new(alloc: &mut StackAllocator, size: usize) -> (r: Result<DefaultStack, AllocationFailure>)
        requires
            old(alloc).wf(),
            old(alloc).outstanding < usize::MAX,
        ensures
            final(alloc).wf(),
            final(alloc).capacity == old(alloc).capacity,
            r is Ok <==> spec_padded_size(size) <= old(alloc).capacity - old(alloc).in_use,
            r matches Ok(b) ==> ({
                &&& b.wf()
                &&& b.zeroed()
                &&& b.spec_size() == spec_padded_size(size)
                &&& b.spec_size() >= size
                &&& b.spec_limit() == b.spec_base() - b.spec_size()
                &&& final(alloc).in_use == old(alloc).in_use + b.spec_size()
                &&& final(alloc).outstanding == old(alloc).outstanding + 1
            }),
            r is Err ==> *final(alloc) == *old(alloc),
    {
        alloc.allocate(size)
    }
}

/// An explicitly constructed stack allocator. It accounts for a backing
/// region of fixed capacity: how many bytes are currently handed out and how
/// many blocks are currently live. Every block must be released exactly once;
/// release is driven by ownership of the block, not by runtime checks.
pub struct StackAllocator {
    /// Bytes the backing region can hand out in total.
    pub capacity: usize,
    /// Bytes currently handed out and not yet released.
    pub in_use: usize,
    /// Number of blocks currently handed out and not yet released.
    pub outstanding: usize,
}

impl StackAllocator {
    /// The allocator never hands out more than its capacity.
    pub open spec fn wf(&self) -> bool {
        self.in_use <= self.capacity
    }

    /// An allocator for a backing region of `capacity` bytes, with nothing
    /// handed out yet. Must be constructed before the first allocation; there
    /// is no hidden process-wide instance.
    pub fn new(capacity: usize) -> (r: StackAllocator)
        ensures
            r.wf(),
            r.capacity == capacity,
            r.in_use == 0,
            r.outstanding == 0,
    {
        StackAllocator { capacity, in_use: 0, outstanding: 0 }
    }

    /// Reserves a stack block of at least `size` bytes: the request is
    /// clamped up to `MIN_STACK_SIZE`, padded to the alignment boundary, and
    /// zero-initialized. Succeeds exactly when the backing region has that
    /// much room left; on failure the allocator is left untouched.
    pub fn allocate(&mut self, size: usize) -> (r: Result<DefaultStack, AllocationFailure>)
        requires
            old(self).wf(),
            old(self).outstanding < usize::MAX,
        ensures
            final(self).wf(),
            final(self).capacity == old(self).capacity,
            r is Ok <==> spec_padded_size(size) <= old(self).capacity - old(self).in_use,
            r matches Ok(b) ==> ({
                &&& b.wf()
                &&& b.zeroed()
                &&& b.spec_size() == spec_padded_size(size)
                &&& b.spec_size() >= size
                &&& b.spec_limit() == b.spec_base() - b.spec_size()
                &&& final(self).in_use == old(self).in_use + b.spec_size()
                &&& final(self).outstanding == old(self).outstanding + 1
            }),
            r is Err ==> *final(self) == *old(self),
    {
        let clamped: usize = if size < MIN_STACK_SIZE {
            MIN_STACK_SIZE
        } else {
            size
        };
        if clamped > usize::MAX - (BYTE_ALIGN - 1) {
            return Err(AllocationFailure);
        }
        let padded: usize = ((clamped + (BYTE_ALIGN - 1)) / BYTE_ALIGN) * BYTE_ALIGN;
        let available: usize = self.capacity - self.in_use;
        if padded > available {
            return Err(AllocationFailure);
        }
        let mut mem: Vec<u8> = Vec::new();
        while mem.len() < padded
            invariant
                mem@.len() <= padded,
                forall|i: int| 0 <= i < mem@.len() ==> mem@[i] == 0u8,
            decreases padded - mem.len(),
        {
            mem.push(0u8);
        }
        self.in_use = self.in_use + padded;
        self.outstanding = self.outstanding + 1;
        Ok(DefaultStack { mem })
    }

    /// Returns a block's region to the backing allocator, consuming the
    /// block: its bytes are freed here, and since the block is gone it cannot
    /// be released twice.
    pub fn release(&mut self, block: DefaultStack)
        requires
            old(self).wf(),
            block.spec_size() <= old(self).in_use,
            old(self).outstanding >= 1,
        ensures
            final(self).wf(),
            final(self).capacity == old(self).capacity,
            final(self).in_use == old(self).in_use - block.spec_size(),
            final(self).outstanding == old(self).outstanding - 1,
    {
        let released = block.size();
        self.in_use = self.in_use - released;
        self.outstanding = self.outstanding - 1;
    }
}

} // verus!
