//! The bump-allocator engine: a fixed capacity, a monotone cursor, and the
//! allocate / deallocate / shrink / reset / checkpoint operations over them.

use vstd::prelude::*;
use crate::align::align_up;
use crate::align::lemma_align_up;
use vstd::arithmetic::div_mod::lemma_mod_division_less_than_divisor;

verus! {

broadcast use vstd::layout::layout_of_primitives;

/// The single opaque failure signal, returned uniformly for capacity
/// exhaustion, unsafe capacities at construction, and alignment-incompatible
/// shrink requests.
#[derive(Clone, Copy, PartialEq, Eq, Structural, Debug)]
pub struct AllocError;

/// The mathematical state of an arena: how many bytes it owns and how many
/// of them are already spoken for.
pub ghost struct ArenaModel {
    pub capacity: int,
    pub cursor: int,
}

impl ArenaModel {
    /// Validity: the cursor stays inside the buffer, and the capacity is
    /// small enough that offset arithmetic can never overflow a signed
    /// offset.
    pub open spec fn inv(self) -> bool {
        0 <= self.cursor <= self.capacity <= isize::MAX as int
    }

    /// A freshly constructed arena: nothing allocated yet.
    pub open spec fn fresh(capacity: int) -> ArenaModel {
        ArenaModel { capacity, cursor: 0 }
    }

    /// Whether a request of `size` bytes at alignment `align` fits in the
    /// free tail, padding included.
    pub open spec fn can_fit(self, size: int, align: int) -> bool {
        align_up(self.cursor, align) + size <= self.capacity
    }

    /// The state after a request of `size` bytes at alignment `align`:
    /// on success the cursor moves past the padded request, on failure
    /// nothing changes.
    pub open spec fn after_alloc(self, size: int, align: int) -> ArenaModel {
        if self.can_fit(size, align) {
            ArenaModel { capacity: self.capacity, cursor: align_up(self.cursor, align) + size }
        } else {
            self
        }
    }

    /// The state after a reset: the full capacity is available again.
    pub open spec fn after_reset(self) -> ArenaModel {
        ArenaModel { capacity: self.capacity, cursor: 0 }
    }

    /// The parent's state after carving off a checkpoint: exhausted.
    pub open spec fn after_checkpoint(self) -> ArenaModel {
        ArenaModel { capacity: self.capacity, cursor: self.capacity }
    }

    /// The checkpoint carved from the free tail: a fresh arena over exactly
    /// the bytes the parent had left.
    pub open spec fn checkpoint_child(self) -> ArenaModel {
        ArenaModel::fresh(self.capacity - self.cursor)
    }
}

/// A single-threaded bump allocator over one contiguous buffer.
///
/// Allocations are byte ranges of the buffer, dispensed by monotonically
/// advancing a cursor; they are reclaimed all at once by [`BumpCar::reset`].
/// This engine owns the offsets alone: the caller pairs it with the buffer
/// the offsets index into, leased once at construction.
///
/// All mutation goes through `&mut` receivers, so the borrow checker rules
/// out concurrent observation, and the read-only queries
/// ([`BumpCar::remaining_capacity`], [`BumpCar::can_allocate`]) can never
/// change later allocation outcomes.
pub struct BumpCar {
    capacity: usize,
    cursor: usize,
}

impl View for BumpCar {
    type V = ArenaModel;

    closed spec fn view(&self) -> ArenaModel {
        ArenaModel { capacity: self.capacity as int, cursor: self.cursor as int }
    }
}

impl BumpCar {
    #[verifier::type_invariant]
    spec fn type_inv(self) -> bool {
        self@.inv()
    }

    /// Creates an arena of `capacity` bytes.
    ///
    /// Fails exactly when the capacity, rounded up to the platform word
    /// size (the alignment the buffer is leased with), exceeds the largest
    /// signed offset; past that bound later offset arithmetic could not be
    /// kept overflow-free.
    pub fn new(capacity: usize) -> (r: Result<BumpCar, AllocError>)
        ensures
            r is Ok <==> align_up(capacity as int, vstd::layout::size_of::<usize>() as int)
                <= isize::MAX as int,
            r is Ok ==> r->Ok_0@ == ArenaModel::fresh(capacity as int),
    {
        let word: usize = core::mem::size_of::<usize>();
        proof {
            lemma_align_up(capacity as int, word as int);
        }
        if capacity > isize::MAX as usize {
            return Err(AllocError);
        }
        let rem: usize = capacity % word;
        if rem != 0 && word - rem > isize::MAX as usize - capacity {
            return Err(AllocError);
        }
        Ok(BumpCar { capacity, cursor: 0 })
    }

    /// Returns the arena's full capacity in bytes.
    pub fn capacity(&self) -> (r: usize)
        ensures
            r as int == self@.capacity,
    {
        self.capacity
    }

    /// Returns the bytes left past the cursor.
    ///
    /// This is an upper bound only: it ignores the padding a request with a
    /// stricter alignment would need.  For a precise feasibility check use
    /// [`BumpCar::can_allocate`].  Calling this never changes the arena.
    pub fn remaining_capacity(&self) -> (r: usize)
        ensures
            r as int == self@.capacity - self@.cursor,
    {
        proof {
            use_type_invariant(self);
        }
        self.capacity - self.cursor
    }

    /// Reports whether a request of `size` bytes at alignment `align` would
    /// succeed, padding included, without committing to it.  Calling this
    /// never changes the arena.
    pub fn can_allocate(&self, size: usize, align: usize) -> (r: bool)
        requires
            1 <= align,
        ensures
            r == self@.can_fit(size as int, align as int),
    {
        proof {
            use_type_invariant(self);
            lemma_mod_division_less_than_divisor(self@.cursor, align as int);
        }
        let rem: usize = self.cursor % align;
        let pad: usize = if rem == 0 {
            0
        } else {
            align - rem
        };
        if pad > self.capacity - self.cursor {
            return false;
        }
        let aligned: usize = self.cursor + pad;
        size <= self.capacity - aligned
    }

    /// Serves a request of `size` bytes at alignment `align`.
    ///
    /// On success the returned offset is the smallest multiple of `align`
    /// at or past the cursor, the granted range is
    /// `[offset, offset + size)`, and the cursor moves to its end.  On
    /// failure (the padded request does not fit) the arena is unchanged.
    /// A zero-size request advances the cursor only by the padding.
    pub fn allocate(&mut self, size: usize, align: usize) -> (r: Result<usize, AllocError>)
        requires
            1 <= align,
        ensures
            final(self)@ == old(self)@.after_alloc(size as int, align as int),
            r is Ok <==> old(self)@.can_fit(size as int, align as int),
            r is Ok ==> r->Ok_0 as int == align_up(old(self)@.cursor, align as int),
    {
        proof {
            use_type_invariant(&*self);
            lemma_mod_division_less_than_divisor(self@.cursor, align as int);
        }
        let rem: usize = self.cursor % align;
        let pad: usize = if rem == 0 {
            0
        } else {
            align - rem
        };
        if pad > self.capacity - self.cursor {
            return Err(AllocError);
        }
        let aligned: usize = self.cursor + pad;
        if size > self.capacity - aligned {
            return Err(AllocError);
        }
        self.cursor = aligned + size;
        Ok(aligned)
    }

    /// Accepts a deallocation as a no-op, by design: the arena never
    /// reclaims individual ranges; space comes back all at once through
    /// [`BumpCar::reset`].  The arena is unchanged.
    pub fn deallocate(&self, _offset: usize, _size: usize, _align: usize) {
    }

    /// Shrinks a previously granted range to `new_size` bytes.
    ///
    /// The placement is never revisited, so this succeeds exactly when the
    /// new alignment does not exceed the one the range was granted with; the
    /// range then keeps its offset with the truncated length.  The arena is
    /// unchanged either way.
    pub fn shrink(
        &self,
        offset: usize,
        old_size: usize,
        old_align: usize,
        new_size: usize,
        new_align: usize,
    ) -> (r: Result<usize, AllocError>)
        requires
            new_size <= old_size,
        ensures
            r is Ok <==> new_align <= old_align,
            r is Ok ==> r->Ok_0 == offset,
    {
        if old_align < new_align {
            return Err(AllocError);
        }
        Ok(offset)
    }

    /// Makes the full capacity available again.
    ///
    /// The exclusive receiver stands in for the caller's guarantee that no
    /// range granted earlier is used afterwards; memory is not zeroed, so
    /// new allocations may observe stale bytes.  A reset parent regains its
    /// original capacity unconditionally, so no checkpoint carved from it
    /// may outlive the reset.
    pub fn reset(&mut self)
        ensures
            final(self)@ == old(self)@.after_reset(),
    {
        proof {
            use_type_invariant(&*self);
        }
        self.cursor = 0;
    }

    /// Carves the free tail `[cursor, capacity)` into an independent,
    /// independently resettable arena of its own, itself checkpoint-able.
    ///
    /// The parent's cursor moves to its capacity, so parent and checkpoint
    /// never overlap; checkpointing an exhausted arena yields a checkpoint
    /// of capacity zero.  The tail is not returned to the parent when the
    /// checkpoint is done with — by design, only a full reset restores the
    /// parent's capacity.
    pub fn checkpoint(&mut self) -> (c: BumpCar)
        ensures
            final(self)@ == old(self)@.after_checkpoint(),
            c@ == old(self)@.checkpoint_child(),
    {
        proof {
            use_type_invariant(&*self);
        }
        let cap: usize = self.capacity - self.cursor;
        self.cursor = self.capacity;
        BumpCar { capacity: cap, cursor: 0 }
    }
}

} // verus!
