use vstd::prelude::*;
use vstd::arithmetic::div_mod::{lemma_fundamental_div_mod_converse, lemma_small_mod};

verus! {

/// The storage slot that lies `i` steps after `head` in a ring of `cap` slots.
///
/// For `0 <= head < cap` and `0 <= i < cap` this is `(head + i) % cap`,
/// see [`lemma_slot_is_mod`].
pub open spec fn slot(head: int, i: int, cap: int) -> int {
    if head + i < cap {
        head + i
    } else {
        head + i - cap
    }
}

/// The number of steps from `head` forward to slot `p` in a ring of `cap` slots.
pub open spec fn offset(head: int, p: int, cap: int) -> int {
    if p >= head {
        p - head
    } else {
        p + cap - head
    }
}

/// The slot after `p`, wrapping to 0 at the end of the ring.
pub open spec fn next_slot(p: int, cap: int) -> int {
    if p + 1 == cap {
        0
    } else {
        p + 1
    }
}

/// The slot before `p`, wrapping to `cap - 1` at the start of the ring.
pub open spec fn prev_slot(p: int, cap: int) -> int {
    if p == 0 {
        cap - 1
    } else {
        p - 1
    }
}

/// `slot` is addition modulo the capacity.
pub proof fn lemma_slot_is_mod(head: int, i: int, cap: int)
    requires
        0 <= head < cap,
        0 <= i < cap,
    ensures
        slot(head, i, cap) == (head + i) % cap,
        0 <= slot(head, i, cap) < cap,
{
    if head + i < cap {
        lemma_small_mod((head + i) as nat, cap as nat);
    } else {
        lemma_fundamental_div_mod_converse(head + i, cap, 1, head + i - cap);
    }
}

/// Stepping forward and backward by one are the modular successor and predecessor.
pub proof fn lemma_step_is_mod(p: int, cap: int)
    requires
        0 <= p < cap,
    ensures
        next_slot(p, cap) == (p + 1) % cap,
        prev_slot(p, cap) == (p + cap - 1) % cap,
{
    if p + 1 == cap {
        lemma_fundamental_div_mod_converse(p + 1, cap, 1, 0);
    } else {
        lemma_small_mod((p + 1) as nat, cap as nat);
    }
    if p == 0 {
        lemma_small_mod((cap - 1) as nat, cap as nat);
    } else {
        lemma_fundamental_div_mod_converse(p + cap - 1, cap, 1, p - 1);
    }
}

} // verus!
