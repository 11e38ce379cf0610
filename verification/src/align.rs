//! Alignment arithmetic: rounding a cursor up to the next aligned offset.

use vstd::prelude::*;
use vstd::arithmetic::div_mod::lemma_add_mod_noop;
use vstd::arithmetic::div_mod::lemma_fundamental_div_mod;
use vstd::arithmetic::div_mod::lemma_mod_division_less_than_divisor;
use vstd::arithmetic::div_mod::lemma_mod_self_0;
use vstd::arithmetic::div_mod::lemma_small_mod;

verus! {

/// The smallest multiple of `align` that is greater than or equal to `pos`.
pub open spec fn align_up(pos: int, align: int) -> int {
    if pos % align == 0 {
        pos
    } else {
        pos + align - pos % align
    }
}

/// `align_up(pos, align)` is the smallest multiple of `align` at or above
/// `pos`, and it lies strictly below `pos + align`.
pub proof fn lemma_align_up(pos: int, align: int)
    requires
        0 <= pos,
        1 <= align,
    ensures
        align_up(pos, align) % align == 0,
        pos <= align_up(pos, align) < pos + align,
        forall|m: int| pos <= m && #[trigger] (m % align) == 0 ==> align_up(pos, align) <= m,
{
    let r = pos % align;
    lemma_mod_division_less_than_divisor(pos, align);
    if r != 0 {
        lemma_add_mod_noop(pos, align - r, align);
        lemma_small_mod((align - r) as nat, align as nat);
        lemma_mod_self_0(align);
        assert((pos + (align - r)) % align == 0);
    }
    assert forall|m: int| pos <= m && #[trigger] (m % align) == 0 implies align_up(
        pos,
        align,
    ) <= m by {
        if r != 0 && m < align_up(pos, align) {
            lemma_fundamental_div_mod(pos, align);
            lemma_fundamental_div_mod(m, align);
            let p = pos / align;
            let q = m / align;
            assert(q >= p + 1) by (nonlinear_arith)
                requires
                    align * q >= align * p + r,
                    0 < r,
                    1 <= align,
            ;
            assert(align * q >= align * p + align) by (nonlinear_arith)
                requires
                    q >= p + 1,
                    1 <= align,
            ;
        }
    }
}

/// With the trivial alignment of one byte no padding is ever inserted.
pub proof fn lemma_align_up_one(pos: int)
    requires
        0 <= pos,
    ensures
        align_up(pos, 1) == pos,
{
    lemma_mod_division_less_than_divisor(pos, 1);
}

} // verus!
