//! Folding interpreter actions onto the primary cursor offset.
//!
//! The offset is `(x, y)`: columns from the left margin, and rows above the
//! bottom-most emitted row. Both saturate at zero, and at `u16::MAX` instead
//! of overflowing; they never point past a known bound.

use crate::vte_actions::VteAction;
use vstd::prelude::*;

verus! {

/// Addition on a `u16` coordinate, saturating at `u16::MAX`.
pub open spec fn sat_add(a: u16, b: u16) -> u16 {
    if a + b > 0xffff {
        0xffff
    } else {
        (a + b) as u16
    }
}

/// Subtraction on a `u16` coordinate, saturating at zero.
pub open spec fn sat_sub(a: u16, b: u16) -> u16 {
    if a >= b {
        (a - b) as u16
    } else {
        0
    }
}

/// One action applied to the offset, exactly as the render step folds it:
/// text advances one column, tab advances to the next multiple of 8, a line
/// feed moves one row closer to the bottom, and the explicit cursor motions
/// move by their count.
pub open spec fn apply_action(x: u16, y: u16, a: VteAction) -> (u16, u16) {
    match a {
        VteAction::Text(_) => (sat_add(x, 1), y),
        VteAction::Tab => (sat_add(x, (8 - x % 8) as u16), y),
        VteAction::LineFeed => (x, sat_sub(y, 1)),
        VteAction::CarriageReturn => (0, y),
        VteAction::CursorUp(n) => (x, sat_add(y, n)),
        VteAction::CursorDown(n) => (x, sat_sub(y, n)),
        VteAction::CursorForward(n) => (sat_add(x, n), y),
        VteAction::CursorBackward(n) => (sat_sub(x, n), y),
        VteAction::CursorNextLine(n) => (0, sat_sub(y, n)),
        VteAction::CursorPreviousLine(n) => (0, sat_add(y, n)),
    }
}

/// All actions folded onto the offset, in order.
pub open spec fn fold_offset(x: u16, y: u16, actions: Seq<VteAction>) -> (u16, u16)
    decreases actions.len(),
{
    if actions.len() == 0 {
        (x, y)
    } else {
        let o = apply_action(x, y, actions[0]);
        fold_offset(o.0, o.1, actions.drop_first())
    }
}

/// Addition on a `u16` coordinate, saturating at `u16::MAX`.
pub(crate) fn sat_add_exec(a: u16, b: u16) -> (r: u16)
    ensures
        r == sat_add(a, b),
{
    let s: u32 = (a as u32) + (b as u32);
    if s > 0xffff {
        0xffff
    } else {
        s as u16
    }
}

/// Subtraction on a `u16` coordinate, saturating at zero.
pub(crate) fn sat_sub_exec(a: u16, b: u16) -> (r: u16)
    ensures
        r == sat_sub(a, b),
{
    if a >= b {
        a - b
    } else {
        0
    }
}

/// One action applied to the offset.
fn apply_action_exec(x: u16, y: u16, a: &VteAction) -> (r: (u16, u16))
    ensures
        r == apply_action(x, y, *a),
{
    match a {
        VteAction::Text(_) => (sat_add_exec(x, 1), y),
        VteAction::Tab => (sat_add_exec(x, 8 - x % 8), y),
        VteAction::LineFeed => (x, sat_sub_exec(y, 1)),
        VteAction::CarriageReturn => (0, y),
        VteAction::CursorUp(n) => (x, sat_add_exec(y, *n)),
        VteAction::CursorDown(n) => (x, sat_sub_exec(y, *n)),
        VteAction::CursorForward(n) => (sat_add_exec(x, *n), y),
        VteAction::CursorBackward(n) => (sat_sub_exec(x, *n), y),
        VteAction::CursorNextLine(n) => (0, sat_sub_exec(y, *n)),
        VteAction::CursorPreviousLine(n) => (0, sat_add_exec(y, *n)),
    }
}

/// All actions folded onto the offset, in order.
pub(crate) fn fold_offset_exec(x: u16, y: u16, actions: &Vec<VteAction>) -> (r: (u16, u16))
    ensures
        r == fold_offset(x, y, actions@),
{
    let mut cx = x;
    let mut cy = y;
    let mut i: usize = 0;
    proof {
        assert(actions@.skip(0) =~= actions@);
    }
    while i < actions.len()
        invariant
            i <= actions.len(),
            fold_offset(x, y, actions@) == fold_offset(cx, cy, actions@.skip(i as int)),
        decreases actions.len() - i,
    {
        proof {
            assert(actions@.skip(i as int)[0] == actions@[i as int]);
            assert(actions@.skip(i as int).drop_first() =~= actions@.skip(i + 1));
        }
        let o = apply_action_exec(cx, cy, &actions[i]);
        cx = o.0;
        cy = o.1;
        i = i + 1;
    }
    proof {
        assert(actions@.skip(actions@.len() as int) =~= Seq::<VteAction>::empty());
    }
    (cx, cy)
}

} // verus!
