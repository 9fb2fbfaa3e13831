//! The secondary-output line buffer: a bounded virtual terminal grid, one per
//! secondary output, used only to answer "what do this output's most recent
//! lines look like". The grid itself is vt100's full terminal emulator; what
//! the renderer reads out of it — the formatted rows and the cursor position —
//! is named abstractly, and the window of rows actually shown is chosen by
//! verified code over those values.

use vstd::prelude::*;

verus! {

/// A bounded virtual terminal grid; the vt100 emulator it holds is opaque to
/// verification and is read only through the trusted accessors below.
#[verifier::external_body]
pub struct TermGrid {
    inner: vt100::Parser,
}

/// The formatted contents of each visible grid row, top to bottom.
pub uninterp spec fn grid_rows(p: TermGrid) -> Seq<Seq<u8>>;

/// The grid's cursor position as (row, column).
pub uninterp spec fn grid_cursor(p: TermGrid) -> (u16, u16);

/// What feeding bytes to a grid produces: the formatted rows and the cursor
/// position afterwards. vt100's emulation is a function of the grid and the
/// bytes alone, so the outcome can be named even though stating it would take
/// the whole emulator.
pub uninterp spec fn processed_grid(g: TermGrid, bytes: Seq<u8>) -> (Seq<Seq<u8>>, (u16, u16));

/// Relies on vt100::Parser::new: a fresh grid of the given size with every
/// cell empty and the cursor at the origin. The grid must be at least two by
/// two: on a one-column grid vt100's text handling panics when a double-width
/// character arrives, and on a one-row grid its line wrapping panics when a
/// full row scrolls.
#[verifier::external_body]
pub(crate) fn buffer_new(rows: u16, cols: u16, scrollback: usize) -> (p: TermGrid)
    requires
        2 <= rows,
        2 <= cols,
    ensures
        grid_rows(p).len() == rows as nat,
        forall|i: int| 0 <= i < grid_rows(p).len() ==> grid_rows(p)[i].len() == 0,
        grid_cursor(p) == (0u16, 0u16),
{
    TermGrid { inner: vt100::Parser::new(rows, cols, scrollback) }
}

/// Relies on vt100::Parser::process: feeds bytes through the terminal
/// emulator. The new rows and cursor are what emulation makes of the old grid
/// and exactly these bytes, and the grid keeps its height (nothing reachable
/// from `process` resizes it).
#[verifier::external_body]
pub(crate) fn buffer_process(p: &mut TermGrid, bytes: &[u8])
    ensures
        grid_rows(*final(p)) == processed_grid(*old(p), bytes@).0,
        grid_cursor(*final(p)) == processed_grid(*old(p), bytes@).1,
        grid_rows(*final(p)).len() == grid_rows(*old(p)).len(),
{
    p.inner.process(bytes);
}

/// Relies on vt100::Screen::rows_formatted: the formatted contents of each
/// visible row, top to bottom, one entry per grid row.
#[verifier::external_body]
pub(crate) fn buffer_rows(p: &TermGrid) -> (rows: Vec<Vec<u8>>)
    ensures
        rows@.len() == grid_rows(*p).len(),
        forall|i: int| 0 <= i < rows@.len() ==> rows@[i]@ == grid_rows(*p)[i],
{
    p.inner.screen().rows_formatted(0, u16::MAX).collect()
}

/// Relies on vt100::Screen::cursor_position: the cursor's (row, column); the
/// row always lies within the grid.
#[verifier::external_body]
pub(crate) fn buffer_cursor(p: &TermGrid) -> (rc: (u16, u16))
    ensures
        rc == grid_cursor(*p),
        (rc.0 as int) < grid_rows(*p).len(),
{
    p.inner.screen().cursor_position()
}

/// The row contents of a `Vec` of rows, as a sequence of byte sequences.
pub open spec fn rows_view(rows: Seq<Vec<u8>>) -> Seq<Seq<u8>> {
    rows.map_values(|r: Vec<u8>| r@)
}

/// The index of the last row with any formatted content, or 0 if every row is
/// empty.
pub open spec fn last_non_empty_row(rows: Seq<Seq<u8>>) -> int
    decreases rows.len(),
{
    if rows.len() == 0 {
        0
    } else if rows[rows.len() - 1].len() > 0 {
        rows.len() - 1
    } else {
        last_non_empty_row(rows.drop_last())
    }
}

/// The cursor row with a trailing line break discounted: a cursor at column 0
/// is taken to sit just past a final line break, so the row above it is the
/// last line of content.
pub open spec fn cursor_row_adjusted(cursor: (u16, u16)) -> int {
    if cursor.1 == 0 {
        if cursor.0 > 0 {
            cursor.0 - 1
        } else {
            0
        }
    } else {
        cursor.0 as int
    }
}

/// The last row the expanded view shows: whichever is lower of the adjusted
/// cursor row and the last non-empty row.
pub open spec fn window_end(rows: Seq<Seq<u8>>, cursor: (u16, u16)) -> int {
    let c = cursor_row_adjusted(cursor);
    let l = last_non_empty_row(rows);
    if c >= l {
        c
    } else {
        l
    }
}

/// The first row the expanded view shows: at most `max_lines` rows ending at
/// `end`, clamped at the top of the grid.
pub open spec fn window_start(end: int, max_lines: usize) -> int {
    if end - (max_lines - 1) > 0 {
        end - (max_lines - 1)
    } else {
        0
    }
}

/// The index of the last row with any formatted content, or 0.
pub(crate) fn last_non_empty_row_exec(rows: &Vec<Vec<u8>>) -> (r: usize)
    ensures
        r as int == last_non_empty_row(rows_view(rows@)),
        rows@.len() > 0 ==> (r as int) < rows@.len(),
        rows@.len() == 0 ==> r == 0,
{
    let ghost full = rows_view(rows@);
    proof {
        assert(full.len() == rows@.len());
        assert(full.take(rows@.len() as int) =~= full);
    }
    let mut i: usize = rows.len();
    while i > 0
        invariant
            i <= rows@.len(),
            full == rows_view(rows@),
            full.len() == rows@.len(),
            last_non_empty_row(full) == last_non_empty_row(full.take(i as int)),
        decreases i,
    {
        proof {
            assert(full[i - 1] == rows@[i - 1]@);
            assert(full.take(i as int).len() == i);
            assert(full.take(i as int).drop_last() =~= full.take(i - 1));
            assert(full.take(i as int)[i - 1] == full[i - 1]);
        }
        if rows[i - 1].len() > 0 {
            return i - 1;
        }
        i = i - 1;
    }
    proof {
        assert(full.take(0) =~= Seq::<Seq<u8>>::empty());
    }
    0
}

} // verus!
