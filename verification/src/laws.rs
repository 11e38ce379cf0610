//! Laws of the allocator engine, stated over [`ArenaModel`] and proved once
//! for every arena state and every request sequence.

use vstd::prelude::*;
use crate::align::align_up;
use crate::align::lemma_align_up;
use crate::align::lemma_align_up_one;
use crate::arena::ArenaModel;

verus! {

/// A request sequence is valid when every entry asks for a non-negative
/// size at a positive alignment.
pub open spec fn valid_requests(reqs: Seq<(int, int)>) -> bool {
    forall|i: int|
        0 <= i < reqs.len() ==> 0 <= (#[trigger] reqs[i]).0 && 1 <= reqs[i].1
}

/// The arena state after serving `reqs` in order, failed requests leaving
/// the state unchanged.
pub open spec fn run(m: ArenaModel, reqs: Seq<(int, int)>) -> ArenaModel
    decreases reqs.len(),
{
    if reqs.len() == 0 {
        m
    } else {
        run(m.after_alloc(reqs[0].0, reqs[0].1), reqs.drop_first())
    }
}

/// Whether every request of `reqs`, served in order, succeeds.
pub open spec fn all_fit(m: ArenaModel, reqs: Seq<(int, int)>) -> bool
    decreases reqs.len(),
{
    reqs.len() == 0 || (m.can_fit(reqs[0].0, reqs[0].1) && all_fit(
        m.after_alloc(reqs[0].0, reqs[0].1),
        reqs.drop_first(),
    ))
}

/// The rounded (aligned) size of one request served at state `m`: the
/// padding up to the next aligned offset plus the requested size.
pub open spec fn rounded_size(m: ArenaModel, size: int, align: int) -> int {
    align_up(m.cursor, align) - m.cursor + size
}

/// The sum of the rounded sizes of `reqs` served in order from `m`.
pub open spec fn total_rounded(m: ArenaModel, reqs: Seq<(int, int)>) -> int
    decreases reqs.len(),
{
    if reqs.len() == 0 {
        0
    } else {
        rounded_size(m, reqs[0].0, reqs[0].1) + total_rounded(
            m.after_alloc(reqs[0].0, reqs[0].1),
            reqs.drop_first(),
        )
    }
}

/// One allocation step keeps the arena valid and the capacity fixed; a
/// successful step advances the cursor by exactly the rounded size.
pub proof fn lemma_alloc_step(m: ArenaModel, size: int, align: int)
    requires
        m.inv(),
        0 <= size,
        1 <= align,
    ensures
        m.after_alloc(size, align).inv(),
        m.after_alloc(size, align).capacity == m.capacity,
        m.can_fit(size, align) ==> m.after_alloc(size, align).cursor == m.cursor + rounded_size(
            m,
            size,
            align,
        ),
        !m.can_fit(size, align) ==> m.after_alloc(size, align) == m,
{
    lemma_align_up(m.cursor, align);
}

/// Law: over any sequence of allocations the capacity never changes and the
/// arena stays valid; when every request succeeds, the cursor ends exactly
/// at the starting cursor plus the sum of the rounded sizes, and — the
/// remaining capacity being capacity minus cursor — that sum never exceeds
/// the capacity.
pub proof fn lemma_allocation_sequence(m: ArenaModel, reqs: Seq<(int, int)>)
    requires
        m.inv(),
        valid_requests(reqs),
    ensures
        run(m, reqs).inv(),
        run(m, reqs).capacity == m.capacity,
        all_fit(m, reqs) ==> run(m, reqs).cursor == m.cursor + total_rounded(m, reqs),
        all_fit(m, reqs) ==> m.cursor + total_rounded(m, reqs) <= m.capacity,
    decreases reqs.len(),
{
    if reqs.len() > 0 {
        let m1 = m.after_alloc(reqs[0].0, reqs[0].1);
        lemma_alloc_step(m, reqs[0].0, reqs[0].1);
        assert(valid_requests(reqs.drop_first())) by {
            assert forall|i: int| 0 <= i < reqs.drop_first().len() implies 0 <= (
            #[trigger] reqs.drop_first()[i]).0 && 1 <= reqs.drop_first()[i].1 by {
                assert(reqs.drop_first()[i] == reqs[i + 1]);
            }
        }
        lemma_allocation_sequence(m1, reqs.drop_first());
    }
}

/// Law: resetting an arena puts it in exactly the state of a freshly
/// constructed arena of the same capacity, so every later request sequence
/// plays out identically (stale memory contents aside, which the engine
/// does not model).
pub proof fn lemma_reset_round_trip(m: ArenaModel, reqs: Seq<(int, int)>)
    ensures
        m.after_reset() == ArenaModel::fresh(m.capacity),
        run(m.after_reset(), reqs) == run(ArenaModel::fresh(m.capacity), reqs),
{
}

/// Law: for consecutive successful allocations, the second one starts at
/// the smallest multiple of its alignment at or past the end of the first.
pub proof fn lemma_alignment_placement(
    m: ArenaModel,
    size1: int,
    align1: int,
    size2: int,
    align2: int,
)
    requires
        m.inv(),
        0 <= size1,
        1 <= align1,
        0 <= size2,
        1 <= align2,
        m.can_fit(size1, align1),
    ensures
        ({
            let start1 = align_up(m.cursor, align1);
            let start2 = align_up(m.after_alloc(size1, align1).cursor, align2);
            &&& start2 % align2 == 0
            &&& start1 + size1 <= start2
            &&& forall|k: int|
                start1 + size1 <= k && #[trigger] (k % align2) == 0 ==> start2 <= k
        }),
{
    lemma_align_up(m.cursor, align1);
    lemma_align_up(m.after_alloc(size1, align1).cursor, align2);
}

/// Law: a request whose aligned end lands exactly at the capacity succeeds;
/// a request reaching one byte past it fails and leaves the arena unchanged.
pub proof fn lemma_boundary(m: ArenaModel, size: int, align: int)
    requires
        m.inv(),
        0 <= size,
        1 <= align,
    ensures
        align_up(m.cursor, align) + size == m.capacity ==> m.can_fit(size, align)
            && m.after_alloc(size, align).cursor == m.capacity,
        align_up(m.cursor, align) + size == m.capacity + 1 ==> !m.can_fit(size, align)
            && m.after_alloc(size, align) == m,
{
}

/// Law: a zero-size request succeeds whenever its alignment padding fits,
/// and advances the cursor only by that padding, never by the size.
pub proof fn lemma_zero_size(m: ArenaModel, align: int)
    requires
        m.inv(),
        1 <= align,
        align_up(m.cursor, align) <= m.capacity,
    ensures
        m.can_fit(0, align),
        m.after_alloc(0, align).cursor == align_up(m.cursor, align),
{
}

/// Law: a zero-size, byte-aligned request always succeeds and changes
/// nothing — even when the remaining capacity is zero.
pub proof fn lemma_zero_size_byte_aligned(m: ArenaModel)
    requires
        m.inv(),
    ensures
        m.can_fit(0, 1),
        m.after_alloc(0, 1) == m,
{
    lemma_align_up_one(m.cursor);
}

/// Law: carving a checkpoint exhausts the parent, the checkpoint's capacity
/// is exactly the parent's free tail with its own cursor at zero, and a
/// checkpoint of an exhausted arena has capacity zero.
pub proof fn lemma_checkpoint(m: ArenaModel)
    requires
        m.inv(),
    ensures
        m.after_checkpoint().capacity - m.after_checkpoint().cursor == 0,
        m.checkpoint_child() == ArenaModel::fresh(m.capacity - m.cursor),
        m.checkpoint_child().inv(),
        m.after_checkpoint().checkpoint_child().capacity == 0,
{
}

} // verus!
