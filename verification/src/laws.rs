//! The library's laws: properties that hold of every engine state, stated
//! over the same spec functions the public contracts use.

use crate::state::{
    align_start_ms, elapsed_secs, panel_bytes, render_next_view, render_output_bytes,
    selection_down, selection_up, undo_bytes, StateView,
};
use crate::vte_actions::{run, VteAction};
use vstd::prelude::*;

verus! {

/// A flush is idempotent: the state a render leaves behind has an empty
/// primary buffer, so a second render with no new bytes and no secondary
/// change emits no primary content — only the panel bookkeeping (the undo
/// prefix and the redrawn panel) — and moves neither the cursor offset nor
/// the outputs.
pub proof fn lemma_render_idempotent(v: StateView, t1: u64, t2: u64)
    ensures
        ({
            let v1 = render_next_view(v, t1);
            let v2 = render_next_view(v1, t2);
            &&& v1.primary == Seq::<u8>::empty()
            &&& render_output_bytes(v1, t2) == undo_bytes(v1.prev_extra, v1.x, v1.y)
                + panel_bytes(v1.outputs, v1.selected as int, t2, v1.max_lines, v1.y)
            &&& v2.x == v1.x
            &&& v2.y == v1.y
            &&& v2.outputs == v1.outputs
            &&& v2.selected == v1.selected
        }),
{
    let v1 = render_next_view(v, t1);
    assert(run(v1.parser, v1.primary) == (v1.parser, Seq::<VteAction>::empty()));
    Seq::add_empty_right(undo_bytes(v1.prev_extra, v1.x, v1.y), v1.primary);
}

/// How far `n` downward steps move the selection.
pub open spec fn selection_down_n(selected: usize, len: int, n: nat) -> usize
    decreases n,
{
    if n == 0 {
        selected
    } else {
        selection_down(selection_down_n(selected, len, (n - 1) as nat), len)
    }
}

/// How far `n` upward steps move the selection.
pub open spec fn selection_up_n(selected: usize, n: nat) -> usize
    decreases n,
{
    if n == 0 {
        selected
    } else {
        selection_up(selection_up_n(selected, (n - 1) as nat))
    }
}

/// `n` downward steps from a valid selection stop at the last output: the
/// selection advances one output per step and then stays clamped there.
pub proof fn lemma_selection_down_n(selected: usize, len: int, n: nat)
    requires
        len > 0,
        len <= usize::MAX,
        (selected as int) < len,
    ensures
        selection_down_n(selected, len, n) as int == if selected + n < len {
            selected + n
        } else {
            len - 1
        },
    decreases n,
{
    if n > 0 {
        lemma_selection_down_n(selected, len, (n - 1) as nat);
    }
}

/// With `len` outputs, any `len - 1` or more downward steps from the top
/// leave the last output selected.
pub proof fn lemma_selection_down_clamps(len: int, n: nat)
    requires
        len > 0,
        len <= usize::MAX,
        n >= len - 1,
    ensures
        selection_down_n(0, len, n) as int == len - 1,
{
    lemma_selection_down_n(0, len, n);
}

/// `n` upward steps stop at the first output: the selection retreats one
/// output per step and then stays clamped at zero.
pub proof fn lemma_selection_up_n(selected: usize, n: nat)
    ensures
        selection_up_n(selected, n) as int == if selected >= n {
            selected - n
        } else {
            0
        },
    decreases n,
{
    if n > 0 {
        lemma_selection_up_n(selected, (n - 1) as nat);
    }
}

/// Any `selected` or more upward steps leave the first output selected.
pub proof fn lemma_selection_up_clamps(selected: usize, n: nat)
    requires
        n >= selected,
    ensures
        selection_up_n(selected, n) == 0,
{
    lemma_selection_up_n(selected, n);
}

/// Outputs created within the same whole second since the engine's reference
/// instant share an aligned start, so their displayed second-counts agree at
/// every later render: they tick over together.
pub proof fn lemma_aligned_outputs_tick_together(c1: u64, c2: u64, t: u64)
    requires
        c1 / 1000 == c2 / 1000,
    ensures
        align_start_ms(c1) == align_start_ms(c2),
        elapsed_secs(align_start_ms(c1), t) == elapsed_secs(align_start_ms(c2), t),
{
}

} // verus!
