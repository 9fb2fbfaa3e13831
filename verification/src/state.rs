//! The rendering engine: owns the pending primary bytes, the derived primary
//! cursor offset, the ordered collection of secondary outputs, the selection
//! cursor, and the bookkeeping needed to erase and redraw the secondary panel
//! between renders.
//!
//! Time is carried as milliseconds since a reference instant captured once at
//! engine creation; callers pass the current reading to the operations that
//! need it, and whatever reads the clock lives outside this crate.

use crate::ansi::{clear_down_seq, column_zero_seq, csi_seq, dec_digits, push_bytes, push_csi};
use crate::offset::{fold_offset, sat_add};
use crate::term_buffer::{
    buffer_cursor, buffer_new, buffer_process, buffer_rows, cursor_row_adjusted, grid_cursor,
    grid_rows, last_non_empty_row_exec, processed_grid, rows_view, window_end, window_start,
    TermGrid,
};
use crate::vte_actions::{run, ParseMode, VteActionParser};
use vstd::prelude::*;
use vstd::string::StrSliceExecFns;
use vstd::utf8::encode_utf8;

verus! {

/// The number of rows of each secondary output's virtual terminal grid.
pub const GRID_ROWS: u16 = 50;

/// The number of columns of each secondary output's virtual terminal grid.
pub const GRID_COLS: u16 = 50;

/// An opaque, monotonically increasing handle to a secondary output.
/// Allocated once per created output and never reused, even after removal.
#[derive(Default, Debug, Copy, Clone, Eq, PartialEq, Structural)]
pub struct SecondaryOutputId(u32);

impl View for SecondaryOutputId {
    type V = u32;

    closed spec fn view(&self) -> u32 {
        self.0
    }
}

impl SecondaryOutputId {
    /// Hands out the current id and steps the counter to the next one.
    pub fn next_id(&mut self) -> (r: Self)
        requires
            old(self)@ < u32::MAX,
        ensures
            final(self)@ == old(self)@ + 1,
            r@ == old(self)@,
    {
        let id = self.0;
        self.0 = self.0 + 1;
        SecondaryOutputId(id)
    }
}

/// The error returned when an operation names a `SecondaryOutputId` that does
/// not currently exist (never allocated, or already removed).
#[derive(Debug, Copy, Clone, Eq, PartialEq, Structural)]
pub struct InvalidId;

/// One live secondary output.
struct SecondaryOutputState {
    id: SecondaryOutputId,
    title: Vec<u8>,
    start_ms: u64,
    expanded: bool,
    buffer: TermGrid,
}

/// The mathematical image of one secondary output. `grid` is the line
/// buffer itself, so that contracts can say what feeding bytes to it
/// produces; `rows` and `cursor` are what the renderer reads out of it.
pub struct SecondaryOutputView {
    pub id: u32,
    pub title: Seq<u8>,
    pub start_ms: u64,
    pub expanded: bool,
    pub grid: TermGrid,
    pub rows: Seq<Seq<u8>>,
    pub cursor: (u16, u16),
}

impl View for SecondaryOutputState {
    type V = SecondaryOutputView;

    closed spec fn view(&self) -> SecondaryOutputView {
        SecondaryOutputView {
            id: self.id@,
            title: self.title@,
            start_ms: self.start_ms,
            expanded: self.expanded,
            grid: self.buffer,
            rows: grid_rows(self.buffer),
            cursor: grid_cursor(self.buffer),
        }
    }
}

/// The mathematical image of the whole engine.
pub struct StateView {
    pub primary: Seq<u8>,
    pub parser: ParseMode,
    pub x: u16,
    pub y: u16,
    pub max_lines: usize,
    pub next_id: u32,
    pub outputs: Seq<SecondaryOutputView>,
    pub selected: usize,
    pub prev_extra: usize,
}

/// Engine well-formedness: the selection is valid whenever outputs exist (and
/// pinned to 0 when none do), ids are strictly increasing in display order and
/// all below the allocation counter, and every grid keeps its full height.
pub open spec fn view_wf(v: StateView) -> bool {
    &&& v.max_lines >= 1
    &&& (v.outputs.len() == 0 ==> v.selected == 0)
    &&& (v.outputs.len() > 0 ==> (v.selected as int) < v.outputs.len())
    &&& (forall|i: int| 0 <= i < v.outputs.len() ==> (#[trigger] v.outputs[i].id) < v.next_id)
    &&& (forall|i: int, j: int|
        0 <= i < j < v.outputs.len() ==> (#[trigger] v.outputs[i].id) < (
        #[trigger] v.outputs[j].id))
    &&& (forall|i: int|
        0 <= i < v.outputs.len() ==> (#[trigger] v.outputs[i].rows).len() == GRID_ROWS as nat)
}

/// The index of the output with the given id, or -1 when no output has it.
pub open spec fn index_of_id(outputs: Seq<SecondaryOutputView>, id: u32) -> int
    decreases outputs.len(),
{
    if outputs.len() == 0 {
        -1
    } else if outputs[0].id == id {
        0
    } else {
        let r = index_of_id(outputs.drop_first(), id);
        if r < 0 {
            -1
        } else {
            r + 1
        }
    }
}

/// An output's start, aligned by rounding the creation time down to the
/// nearest whole second since the engine's reference instant, so that
/// distinct outputs' displayed second-counts tick over together.
pub open spec fn align_start_ms(now_ms: u64) -> u64 {
    ((now_ms / 1000) * 1000) as u64
}

/// Whole elapsed seconds between an output's start and the render time; a
/// clock reading before the start counts as zero.
pub open spec fn elapsed_secs(start_ms: u64, now_ms: u64) -> u64 {
    if now_ms >= start_ms {
        (((now_ms - start_ms) as u64) / 1000) as u64
    } else {
        0
    }
}

/// The selection index after one downward step.
pub open spec fn selection_down(selected: usize, len: int) -> usize {
    if len == 0 {
        selected
    } else if selected + 1 < len {
        (selected + 1) as usize
    } else {
        (len - 1) as usize
    }
}

/// The selection index after one upward step.
pub open spec fn selection_up(selected: usize) -> usize {
    if selected > 0 {
        (selected - 1) as usize
    } else {
        0
    }
}

/// The selection index after the output at `removed` has been removed: the
/// index drops by one when the removed output sat above the selection, so the
/// same logical item stays selected, and is then clamped into the shrunken
/// list.
pub open spec fn selection_after_removal(selected: usize, removed: int, new_len: int) -> usize {
    let s = if removed < selected {
        selected - 1
    } else {
        selected as int
    };
    if new_len > 0 && s >= new_len {
        (new_len - 1) as usize
    } else if new_len == 0 {
        0
    } else {
        s as usize
    }
}

/// Addition of a line count, saturating at `usize::MAX`.
pub open spec fn sat_add_usize(a: usize, b: int) -> usize {
    if a + b > usize::MAX {
        usize::MAX
    } else {
        (a + b) as usize
    }
}

/// The summary line of one secondary output: selection marker, expand
/// indicator, right-aligned elapsed whole seconds, the title, and a line
/// break.
pub open spec fn header_bytes(o: SecondaryOutputView, selected: bool, now_ms: u64) -> Seq<u8> {
    let secs = elapsed_secs(o.start_ms, now_ms);
    crate::ansi::marker_bytes(selected) + crate::ansi::indicator_bytes(o.expanded) + seq![0x20u8]
        + crate::ansi::pad3(secs) + dec_digits(secs) + seq![0x73u8, 0x20u8] + o.title
        + crate::ansi::crlf()
}

/// Grid rows `lo..=hi`, each followed by a line break.
pub open spec fn rows_block(rows: Seq<Seq<u8>>, lo: int, hi: int) -> Seq<u8>
    decreases hi + 1 - lo,
{
    if lo < 0 || lo > hi {
        Seq::empty()
    } else {
        rows[lo] + crate::ansi::crlf() + rows_block(rows, lo + 1, hi)
    }
}

/// The rows an expanded output shows: the window ending at `window_end`,
/// holding at most `max_lines` rows, or nothing when that end is row zero.
pub open spec fn window_bytes(rows: Seq<Seq<u8>>, cursor: (u16, u16), max_lines: usize) -> Seq<
    u8,
> {
    let end = window_end(rows, cursor);
    if end > 0 {
        rows_block(rows, window_start(end, max_lines), end)
    } else {
        Seq::empty()
    }
}

/// How many rows the expanded window holds.
pub open spec fn window_lines(rows: Seq<Seq<u8>>, cursor: (u16, u16), max_lines: usize) -> int {
    let end = window_end(rows, cursor);
    if end > 0 {
        end + 1 - window_start(end, max_lines)
    } else {
        0
    }
}

/// Everything one output contributes to the panel: its summary line and, when
/// expanded, its window of recent rows.
pub open spec fn block_bytes(
    o: SecondaryOutputView,
    selected: bool,
    now_ms: u64,
    max_lines: usize,
) -> Seq<u8> {
    header_bytes(o, selected, now_ms) + if o.expanded {
        window_bytes(o.rows, o.cursor, max_lines)
    } else {
        Seq::empty()
    }
}

/// The panel line count after one output's contribution.
pub open spec fn block_lines(acc: usize, o: SecondaryOutputView, max_lines: usize) -> usize {
    let h = sat_add_usize(acc, 1);
    if o.expanded {
        sat_add_usize(h, window_lines(o.rows, o.cursor, max_lines))
    } else {
        h
    }
}

/// The panel contributions of the first `i` outputs, in display order.
pub open spec fn panel_blocks(
    outputs: Seq<SecondaryOutputView>,
    sel: int,
    now_ms: u64,
    max_lines: usize,
    i: int,
) -> Seq<u8>
    decreases i,
{
    if i <= 0 {
        Seq::empty()
    } else {
        panel_blocks(outputs, sel, now_ms, max_lines, i - 1) + block_bytes(
            outputs[i - 1],
            i - 1 == sel,
            now_ms,
            max_lines,
        )
    }
}

/// The number of panel lines the first `i` outputs contribute.
pub open spec fn panel_lines(outputs: Seq<SecondaryOutputView>, max_lines: usize, i: int) -> usize
    decreases i,
{
    if i <= 0 {
        0
    } else {
        block_lines(panel_lines(outputs, max_lines, i - 1), outputs[i - 1], max_lines)
    }
}

/// What a render emits first: when the previous render drew panel lines, move
/// to column zero, up over them, erase to the end of the screen, then move up
/// `y + 1` rows and right `x` columns — back to the end of the primary
/// content.
pub open spec fn undo_bytes(prev_extra: usize, x: u16, y: u16) -> Seq<u8> {
    if prev_extra > 0 {
        column_zero_seq() + csi_seq(prev_extra as u64, 0x41) + clear_down_seq() + csi_seq(
            sat_add(y, 1) as u64,
            0x41,
        ) + csi_seq(x as u64, 0x43)
    } else {
        Seq::empty()
    }
}

/// What a render emits after the primary bytes: when outputs exist, move to
/// column zero and down past the primary content, then every output's block.
pub open spec fn panel_bytes(
    outputs: Seq<SecondaryOutputView>,
    sel: int,
    now_ms: u64,
    max_lines: usize,
    y: u16,
) -> Seq<u8> {
    if outputs.len() > 0 {
        column_zero_seq() + csi_seq(sat_add(y, 1) as u64, 0x42) + panel_blocks(
            outputs,
            sel,
            now_ms,
            max_lines,
            outputs.len() as int,
        )
    } else {
        Seq::empty()
    }
}

/// Everything one render emits: the undo of the previous panel, the pending
/// primary bytes verbatim, and the fresh panel positioned after the primary
/// content's final cursor offset.
pub open spec fn render_output_bytes(v: StateView, now_ms: u64) -> Seq<u8> {
    let folded = fold_offset(v.x, v.y, run(v.parser, v.primary).1);
    undo_bytes(v.prev_extra, v.x, v.y) + v.primary + panel_bytes(
        v.outputs,
        v.selected as int,
        now_ms,
        v.max_lines,
        folded.1,
    )
}

/// The engine after one render: the primary buffer empty, the interpreter
/// state advanced over it, the offset folded forward, and the panel line
/// count remembered for the next undo.
pub open spec fn render_next_view(v: StateView, now_ms: u64) -> StateView {
    let r = run(v.parser, v.primary);
    let folded = fold_offset(v.x, v.y, r.1);
    StateView {
        primary: Seq::<u8>::empty(),
        parser: r.0,
        x: folded.0,
        y: folded.1,
        prev_extra: panel_lines(v.outputs, v.max_lines, v.outputs.len() as int),
        ..v
    }
}

/// The rendering engine.
pub struct State {
    primary_bytes: Vec<u8>,
    primary_output_parser: VteActionParser,
    primary_output_final_cursor_offset: (u16, u16),
    secondary_output_max_lines: usize,
    secondary_output_next_id: SecondaryOutputId,
    secondary_outputs: Vec<SecondaryOutputState>,
    secondary_output_selected_index: usize,
    previous_render_extra_lines: usize,
}

impl View for State {
    type V = StateView;

    closed spec fn view(&self) -> StateView {
        StateView {
            primary: self.primary_bytes@,
            parser: self.primary_output_parser@,
            x: self.primary_output_final_cursor_offset.0,
            y: self.primary_output_final_cursor_offset.1,
            max_lines: self.secondary_output_max_lines,
            next_id: self.secondary_output_next_id@,
            outputs: self.secondary_outputs@.map_values(|s: SecondaryOutputState| s@),
            selected: self.secondary_output_selected_index,
            prev_extra: self.previous_render_extra_lines,
        }
    }
}

impl State {
    /// A fresh engine: nothing buffered, the cursor offset at the origin, no
    /// secondary outputs. `secondary_output_max_lines` caps the number of
    /// recent lines an expanded output shows and must be positive.
    pub fn new(secondary_output_max_lines: usize) -> (r: Self)
        requires
            secondary_output_max_lines >= 1,
        ensures
            view_wf(r@),
            r@.primary == Seq::<u8>::empty(),
            r@.parser == ParseMode::Ground,
            r@.x == 0 && r@.y == 0,
            r@.max_lines == secondary_output_max_lines,
            r@.next_id == 0,
            r@.outputs == Seq::<SecondaryOutputView>::empty(),
            r@.selected == 0,
            r@.prev_extra == 0,
    {
        let r = Self {
            primary_bytes: Vec::new(),
            primary_output_parser: VteActionParser::new(),
            primary_output_final_cursor_offset: (0, 0),
            secondary_output_max_lines,
            secondary_output_next_id: SecondaryOutputId(0),
            secondary_outputs: Vec::new(),
            secondary_output_selected_index: 0,
            previous_render_extra_lines: 0,
        };
        proof {
            assert(r@.outputs =~= Seq::<SecondaryOutputView>::empty());
        }
        r
    }

    /// Appends primary bytes; they are not written out until the next render.
    pub fn handle_primary_bytes(&mut self, bytes: &[u8])
        ensures
            final(self)@ == (StateView { primary: old(self)@.primary + bytes@, ..old(self)@ }),
    {
        push_bytes(&mut self.primary_bytes, bytes);
    }

    /// Creates a new secondary output with the given title: allocates the
    /// next id, aligns the start to the reference second, and appends the
    /// output, collapsed and with a fresh grid, to the end of the list.
    pub fn new_secondary_output(&mut self, title: String, now_ms: u64) -> (id: SecondaryOutputId)
        requires
            view_wf(old(self)@),
            old(self)@.next_id < u32::MAX,
        ensures
            view_wf(final(self)@),
            id@ == old(self)@.next_id,
            final(self)@.outputs.len() == old(self)@.outputs.len() + 1,
            final(self)@.outputs == old(self)@.outputs.push(
                final(self)@.outputs.last(),
            ),
            ({
                let o = final(self)@.outputs.last();
                &&& o.id == old(self)@.next_id
                &&& o.title == encode_utf8(title@)
                &&& o.start_ms == align_start_ms(now_ms)
                &&& o.expanded == false
                &&& o.rows == grid_rows(o.grid)
                &&& o.cursor == grid_cursor(o.grid)
                &&& o.cursor == (0u16, 0u16)
                &&& o.rows.len() == GRID_ROWS as nat
                &&& forall|i: int| 0 <= i < o.rows.len() ==> (#[trigger] o.rows[i]).len() == 0
            }),
            final(self)@ == (StateView {
                next_id: (old(self)@.next_id + 1) as u32,
                outputs: final(self)@.outputs,
                ..old(self)@
            }),
    {
        let start_ms = (now_ms / 1000) * 1000;
        let id = self.secondary_output_next_id.next_id();
        let scrollback: usize = if self.secondary_output_max_lines > usize::MAX / 3 {
            usize::MAX
        } else {
            self.secondary_output_max_lines * 3
        };
        let title_bytes = title.as_str().as_bytes_vec();
        let entry = SecondaryOutputState {
            id,
            title: title_bytes,
            start_ms,
            expanded: false,
            buffer: buffer_new(GRID_ROWS, GRID_COLS, scrollback),
        };
        self.secondary_outputs.push(entry);
        proof {
            assert(self@.outputs =~= old(self)@.outputs.push(self@.outputs.last()));
        }
        id
    }

    /// The position of the output with the given id, if it is live.
    fn secondary_output_position(&self, id: &SecondaryOutputId) -> (r: Option<usize>)
        ensures
            r matches Some(k) ==> {
                &&& index_of_id(self@.outputs, id@) == k as int
                &&& (k as int) < self@.outputs.len()
            },
            r is None ==> index_of_id(self@.outputs, id@) < 0,
    {
        let ghost outputs = self@.outputs;
        proof {
            assert(outputs.skip(0) =~= outputs);
        }
        let mut k: usize = 0;
        while k < self.secondary_outputs.len()
            invariant
                k <= self.secondary_outputs.len(),
                outputs == self@.outputs,
                outputs.len() == self.secondary_outputs@.len(),
                forall|j: int| 0 <= j < k ==> (#[trigger] outputs[j].id) != id@,
                index_of_id(outputs, id@) == if index_of_id(outputs.skip(k as int), id@) >= 0 {
                    index_of_id(outputs.skip(k as int), id@) + k
                } else {
                    -1
                },
            decreases self.secondary_outputs.len() - k,
        {
            proof {
                assert(outputs[k as int] == self.secondary_outputs@[k as int]@);
                assert(outputs.skip(k as int)[0] == outputs[k as int]);
                assert(outputs.skip(k as int).drop_first() =~= outputs.skip(k + 1));
            }
            if self.secondary_outputs[k].id == *id {
                return Some(k);
            }
            k = k + 1;
        }
        proof {
            assert(outputs.skip(outputs.len() as int) =~= Seq::<SecondaryOutputView>::empty());
        }
        None
    }

    /// Feeds bytes to the output with the given id — its rows and cursor
    /// become whatever terminal emulation makes of its grid and exactly those
    /// bytes — or fails with `InvalidId` (and changes nothing) when no live
    /// output has it.
    pub fn handle_secondary_bytes(&mut self, id: &SecondaryOutputId, bytes: &[u8]) -> (r: Result<
        (),
        InvalidId,
    >)
        requires
            view_wf(old(self)@),
        ensures
            view_wf(final(self)@),
            ({
                let i = index_of_id(old(self)@.outputs, id@);
                if i >= 0 {
                    &&& r is Ok
                    &&& final(self)@.outputs.len() == old(self)@.outputs.len()
                    &&& forall|j: int|
                        0 <= j < old(self)@.outputs.len() && j != i ==> final(self)@.outputs[j]
                            == old(self)@.outputs[j]
                    &&& final(self)@.outputs[i].id == old(self)@.outputs[i].id
                    &&& final(self)@.outputs[i].title == old(self)@.outputs[i].title
                    &&& final(self)@.outputs[i].start_ms == old(self)@.outputs[i].start_ms
                    &&& final(self)@.outputs[i].expanded == old(self)@.outputs[i].expanded
                    &&& final(self)@.outputs[i].rows == processed_grid(
                        old(self)@.outputs[i].grid,
                        bytes@,
                    ).0
                    &&& final(self)@.outputs[i].cursor == processed_grid(
                        old(self)@.outputs[i].grid,
                        bytes@,
                    ).1
                    &&& final(self)@.outputs[i].rows.len() == old(self)@.outputs[i].rows.len()
                    &&& final(self)@ == (StateView {
                        outputs: final(self)@.outputs,
                        ..old(self)@
                    })
                } else {
                    r is Err && final(self)@ == old(self)@
                }
            }),
    {
        match self.secondary_output_position(id) {
            Some(idx) => {
                let ghost before = self@;
                proof {
                    assert(before.outputs.len() == self.secondary_outputs@.len());
                }
                proof {
                    assert(before.outputs[idx as int].grid == old(
                        self,
                    ).secondary_outputs@[idx as int].buffer);
                }
                buffer_process(&mut self.secondary_outputs[idx].buffer, bytes);
                proof {
                    assert(self@.outputs.len() == self.secondary_outputs@.len());
                    assert(self@.outputs[idx as int] == self.secondary_outputs@[idx as int]@);
                    assert(self@.outputs[idx as int].rows == grid_rows(
                        self.secondary_outputs@[idx as int].buffer,
                    ));
                    assert forall|j: int|
                        0 <= j < before.outputs.len() && j != idx as int implies self@.outputs[j]
                        == before.outputs[j] by {
                        assert(self@.outputs[j] == self.secondary_outputs@[j]@);
                        assert(before.outputs[j] == old(self).secondary_outputs@[j]@);
                    }
                    assert forall|j: int| 0 <= j < self@.outputs.len() implies (
                    #[trigger] self@.outputs[j]).id == before.outputs[j].id
                        && self@.outputs[j].rows.len() == before.outputs[j].rows.len() by {
                        assert(self@.outputs[j] == self.secondary_outputs@[j]@);
                        assert(before.outputs[j] == old(self).secondary_outputs@[j]@);
                    }
                    assert(view_wf(self@));
                }
                Ok(())
            },
            None => Err(InvalidId),
        }
    }

    /// Removes the output with the given id, re-clamping the selection so the
    /// same logical item stays selected whenever possible; fails with
    /// `InvalidId` (and changes nothing) when no live output has it —
    /// removing the same id twice fails the second time.
    pub fn remove_secondary_output(&mut self, id: SecondaryOutputId) -> (r: Result<(), InvalidId>)
        requires
            view_wf(old(self)@),
        ensures
            view_wf(final(self)@),
            ({
                let i = index_of_id(old(self)@.outputs, id@);
                if i >= 0 {
                    &&& r is Ok
                    &&& final(self)@.outputs == old(self)@.outputs.remove(i)
                    &&& final(self)@.selected == selection_after_removal(
                        old(self)@.selected,
                        i,
                        old(self)@.outputs.len() - 1,
                    )
                    &&& final(self)@ == (StateView {
                        outputs: final(self)@.outputs,
                        selected: final(self)@.selected,
                        ..old(self)@
                    })
                } else {
                    r is Err && final(self)@ == old(self)@
                }
            }),
    {
        match self.secondary_output_position(&id) {
            Some(idx) => {
                let ghost before = self@;
                proof {
                    lemma_index_of_id_bounds(before.outputs, id@);
                }
                self.secondary_outputs.remove(idx);
                if self.secondary_output_selected_index > idx {
                    self.secondary_output_selected_index = self.secondary_output_selected_index
                        - 1;
                }
                if self.secondary_outputs.len() > 0 && self.secondary_output_selected_index
                    >= self.secondary_outputs.len() {
                    self.secondary_output_selected_index = self.secondary_outputs.len() - 1;
                }
                proof {
                    assert(self@.outputs =~= before.outputs.remove(idx as int));
                }
                Ok(())
            },
            None => Err(InvalidId),
        }
    }

    /// Moves the selection one output down, clamped to the last output; a
    /// no-op when there are none.
    pub fn move_cursor_down(&mut self)
        requires
            view_wf(old(self)@),
        ensures
            view_wf(final(self)@),
            final(self)@ == (StateView {
                selected: selection_down(old(self)@.selected, old(self)@.outputs.len() as int),
                ..old(self)@
            }),
    {
        if self.secondary_outputs.len() > 0 {
            if self.secondary_output_selected_index + 1 < self.secondary_outputs.len() {
                self.secondary_output_selected_index = self.secondary_output_selected_index + 1;
            } else {
                self.secondary_output_selected_index = self.secondary_outputs.len() - 1;
            }
        }
    }

    /// Moves the selection one output up, clamped to the first output; a
    /// no-op when there are none.
    pub fn move_cursor_up(&mut self)
        requires
            view_wf(old(self)@),
        ensures
            view_wf(final(self)@),
            final(self)@ == (StateView {
                selected: selection_up(old(self)@.selected),
                ..old(self)@
            }),
    {
        if self.secondary_output_selected_index > 0 {
            self.secondary_output_selected_index = self.secondary_output_selected_index - 1;
        }
    }

    /// Flips the expanded flag of the currently selected output; a no-op when
    /// there are none.
    pub fn toggle_current_selection_expanded(&mut self)
        requires
            view_wf(old(self)@),
        ensures
            view_wf(final(self)@),
            old(self)@.outputs.len() == 0 ==> final(self)@ == old(self)@,
            old(self)@.outputs.len() > 0 ==> {
                let i = old(self)@.selected as int;
                &&& final(self)@.outputs.len() == old(self)@.outputs.len()
                &&& final(self)@.outputs[i].expanded == !old(self)@.outputs[i].expanded
                &&& final(self)@.outputs[i].id == old(self)@.outputs[i].id
                &&& final(self)@.outputs[i].title == old(self)@.outputs[i].title
                &&& final(self)@.outputs[i].start_ms == old(self)@.outputs[i].start_ms
                &&& final(self)@.outputs[i].grid == old(self)@.outputs[i].grid
                &&& final(self)@.outputs[i].rows == old(self)@.outputs[i].rows
                &&& final(self)@.outputs[i].cursor == old(self)@.outputs[i].cursor
                &&& (forall|j: int|
                    0 <= j < old(self)@.outputs.len() && j != i ==> final(self)@.outputs[j] == old(
                        self,
                    )@.outputs[j])
                &&& final(self)@ == (StateView { outputs: final(self)@.outputs, ..old(self)@ })
            },
    {
        let ghost before = self@;
        if self.secondary_outputs.len() > 0 {
            let i = self.secondary_output_selected_index;
            proof {
                assert(before.outputs.len() == self.secondary_outputs@.len());
            }
            let flipped = !self.secondary_outputs[i].expanded;
            self.secondary_outputs[i].expanded = flipped;
            proof {
                assert(self@.outputs.len() == self.secondary_outputs@.len());
                assert(self@.outputs[i as int] == self.secondary_outputs@[i as int]@);
                assert forall|j: int|
                    0 <= j < before.outputs.len() && j != i as int implies self@.outputs[j]
                    == before.outputs[j] by {
                    assert(self@.outputs[j] == self.secondary_outputs@[j]@);
                    assert(before.outputs[j] == old(self).secondary_outputs@[j]@);
                }
                assert forall|j: int| 0 <= j < self@.outputs.len() implies (
                #[trigger] self@.outputs[j]).id == before.outputs[j].id
                    && self@.outputs[j].rows.len() == before.outputs[j].rows.len() by {
                    assert(self@.outputs[j] == self.secondary_outputs@[j]@);
                    assert(before.outputs[j] == old(self).secondary_outputs@[j]@);
                }
                assert(view_wf(self@));
            }
        }
    }

    /// One frame: undoes the previous frame's panel lines, writes the pending
    /// primary bytes verbatim while folding their actions onto the cursor
    /// offset, then redraws the whole secondary panel below the primary
    /// content. Returns the frame's bytes for the caller's sink.
    #[verifier::rlimit(100)]
    pub fn render(&mut self, now_ms: u64) -> (out: Vec<u8>)
        requires
            view_wf(old(self)@),
        ensures
            view_wf(final(self)@),
            out@ == render_output_bytes(old(self)@, now_ms),
            final(self)@ == render_next_view(old(self)@, now_ms),
    {
        let ghost v0 = self@;
        let mut out: Vec<u8> = Vec::new();
        let x = self.primary_output_final_cursor_offset.0;
        let y = self.primary_output_final_cursor_offset.1;
        if self.previous_render_extra_lines > 0 {
            push_csi(&mut out, 1, 0x47);
            proof {
                assert(Seq::<u8>::empty() + column_zero_seq() =~= column_zero_seq());
            }
            push_csi(&mut out, self.previous_render_extra_lines as u64, 0x41);
            crate::ansi::push_clear_down(&mut out);
            push_csi(&mut out, crate::offset::sat_add_exec(y, 1) as u64, 0x41);
            push_csi(&mut out, x as u64, 0x43);
            proof {
                assert(out@ == undo_bytes(v0.prev_extra, v0.x, v0.y));
            }
        } else {
            proof {
                assert(out@ =~= undo_bytes(v0.prev_extra, v0.x, v0.y));
            }
        }
        push_bytes(&mut out, self.primary_bytes.as_slice());
        let actions = self.primary_output_parser.parse_bytes(self.primary_bytes.as_slice());
        let folded = crate::offset::fold_offset_exec(x, y, &actions);
        self.primary_output_final_cursor_offset = folded;
        self.primary_bytes.clear();
        let ghost base = out@;
        proof {
            assert(base == undo_bytes(v0.prev_extra, v0.x, v0.y) + v0.primary);
        }
        let mut extra: usize = 0;
        if self.secondary_outputs.len() > 0 {
            push_csi(&mut out, 1, 0x47);
            push_csi(&mut out, crate::offset::sat_add_exec(folded.1, 1) as u64, 0x42);
            let ghost pbase = out@;
            let mut i: usize = 0;
            while i < self.secondary_outputs.len()
                invariant
                    i <= self.secondary_outputs@.len(),
                    self.secondary_outputs@.map_values(|s: SecondaryOutputState| s@)
                        == v0.outputs,
                    v0.outputs.len() == self.secondary_outputs@.len(),
                    self.secondary_output_selected_index == v0.selected,
                    self.secondary_output_max_lines == v0.max_lines,
                    v0.max_lines >= 1,
                    out@ == pbase + panel_blocks(
                        v0.outputs,
                        v0.selected as int,
                        now_ms,
                        v0.max_lines,
                        i as int,
                    ),
                    extra == panel_lines(v0.outputs, v0.max_lines, i as int),
                decreases self.secondary_outputs@.len() - i,
            {
                let is_sel = i == self.secondary_output_selected_index;
                proof {
                    assert(v0.outputs[i as int] == self.secondary_outputs@[i as int]@);
                }
                extra = render_block(
                    &mut out,
                    &self.secondary_outputs[i],
                    is_sel,
                    now_ms,
                    self.secondary_output_max_lines,
                    extra,
                );
                proof {
                    let blocks_i = panel_blocks(
                        v0.outputs,
                        v0.selected as int,
                        now_ms,
                        v0.max_lines,
                        i as int,
                    );
                    let b = block_bytes(v0.outputs[i as int], is_sel, now_ms, v0.max_lines);
                    vstd::seq_lib::lemma_concat_associative(pbase, blocks_i, b);
                    assert(out@ == pbase + panel_blocks(
                        v0.outputs,
                        v0.selected as int,
                        now_ms,
                        v0.max_lines,
                        i + 1,
                    ));
                }
                i = i + 1;
            }
            proof {
                let blocks = panel_blocks(
                    v0.outputs,
                    v0.selected as int,
                    now_ms,
                    v0.max_lines,
                    v0.outputs.len() as int,
                );
                let down = csi_seq(sat_add(fold_offset(v0.x, v0.y, run(v0.parser, v0.primary).1).1, 1) as u64, 0x42);
                vstd::seq_lib::lemma_concat_associative(base, column_zero_seq(), down);
                vstd::seq_lib::lemma_concat_associative(base, column_zero_seq() + down, blocks);
                assert(out@ == render_output_bytes(v0, now_ms));
            }
        } else {
            proof {
                assert(v0.primary + Seq::<u8>::empty() =~= v0.primary);
                vstd::seq_lib::lemma_concat_associative(
                    undo_bytes(v0.prev_extra, v0.x, v0.y),
                    v0.primary,
                    Seq::<u8>::empty(),
                );
                assert(out@ == render_output_bytes(v0, now_ms));
            }
        }
        self.previous_render_extra_lines = extra;
        proof {
            assert(self@.primary =~= Seq::<u8>::empty());
            assert(self@.outputs == v0.outputs);
            assert(self@ == render_next_view(v0, now_ms));
        }
        out
    }
}

/// Addition of a line count, saturating at `usize::MAX`.
fn sat_add_usize_exec(a: usize, b: usize) -> (r: usize)
    ensures
        r == sat_add_usize(a, b as int),
{
    if a > usize::MAX - b {
        usize::MAX
    } else {
        a + b
    }
}

/// `rows_block` grows at its high end: the block through `hi` is the block
/// through `hi - 1` followed by row `hi` and a line break.
proof fn lemma_rows_block_snoc(rows: Seq<Seq<u8>>, lo: int, hi: int)
    requires
        0 <= lo <= hi,
    ensures
        rows_block(rows, lo, hi) == rows_block(rows, lo, hi - 1) + (rows[hi]
            + crate::ansi::crlf()),
    decreases hi - lo,
{
    let tail = rows[hi] + crate::ansi::crlf();
    if lo == hi {
        Seq::add_empty_right(rows[lo] + crate::ansi::crlf(), rows_block(rows, lo + 1, hi));
        Seq::add_empty_left(rows_block(rows, lo, hi - 1), tail);
    } else {
        lemma_rows_block_snoc(rows, lo + 1, hi);
        vstd::seq_lib::lemma_concat_associative(
            rows[lo] + crate::ansi::crlf(),
            rows_block(rows, lo + 1, hi - 1),
            tail,
        );
    }
}

/// Emits one output's panel block and returns the updated panel line count.
fn render_block(
    out: &mut Vec<u8>,
    o: &SecondaryOutputState,
    selected: bool,
    now_ms: u64,
    max_lines: usize,
    acc: usize,
) -> (r: usize)
    requires
        max_lines >= 1,
    ensures
        final(out)@ == old(out)@ + block_bytes(o@, selected, now_ms, max_lines),
        r == block_lines(acc, o@, max_lines),
{
    let ghost a0 = out@;
    let secs: u64 = if now_ms >= o.start_ms {
        (now_ms - o.start_ms) / 1000
    } else {
        0
    };
    let ghost m = crate::ansi::marker_bytes(selected);
    let ghost ind = crate::ansi::indicator_bytes(o.expanded);
    let ghost sp = seq![0x20u8];
    let ghost p = crate::ansi::pad3(secs);
    let ghost d = dec_digits(secs);
    let ghost su = seq![0x73u8, 0x20u8];
    let ghost t = o.title@;
    let ghost c = crate::ansi::crlf();
    crate::ansi::push_marker(out, selected);
    crate::ansi::push_indicator(out, o.expanded);
    proof {
        vstd::seq_lib::lemma_concat_associative(a0, m, ind);
    }
    crate::ansi::push_byte(out, 0x20);
    proof {
        vstd::seq_lib::lemma_concat_associative(a0, m + ind, sp);
    }
    crate::ansi::push_pad3(out, secs);
    proof {
        vstd::seq_lib::lemma_concat_associative(a0, m + ind + sp, p);
    }
    crate::ansi::push_dec(out, secs);
    proof {
        vstd::seq_lib::lemma_concat_associative(a0, m + ind + sp + p, d);
    }
    crate::ansi::push_byte2(out, 0x73, 0x20);
    proof {
        vstd::seq_lib::lemma_concat_associative(a0, m + ind + sp + p + d, su);
    }
    push_bytes(out, o.title.as_slice());
    proof {
        vstd::seq_lib::lemma_concat_associative(a0, m + ind + sp + p + d + su, t);
    }
    crate::ansi::push_crlf(out);
    proof {
        vstd::seq_lib::lemma_concat_associative(a0, m + ind + sp + p + d + su + t, c);
        assert(out@ == a0 + header_bytes(o@, selected, now_ms));
    }
    let ghost header = header_bytes(o@, selected, now_ms);
    let mut lines = sat_add_usize_exec(acc, 1);
    if o.expanded {
        let ghost rv = grid_rows(o.buffer);
        let rows = buffer_rows(&o.buffer);
        let rc = buffer_cursor(&o.buffer);
        let nrows = rows.len();
        proof {
            assert(rows_view(rows@) =~= rv);
        }
        let lne = last_non_empty_row_exec(&rows);
        let cr: usize = if rc.1 == 0 {
            if rc.0 > 0 {
                (rc.0 - 1) as usize
            } else {
                0
            }
        } else {
            rc.0 as usize
        };
        let end: usize = if cr >= lne {
            cr
        } else {
            lne
        };
        proof {
            assert(cr as int == cursor_row_adjusted(o@.cursor));
            assert(end as int == window_end(rv, o@.cursor));
            assert((end as int) < nrows as int);
        }
        if end > 0 {
            let start_idx: usize = if end > max_lines - 1 {
                end - (max_lines - 1)
            } else {
                0
            };
            proof {
                assert(start_idx as int == window_start(end as int, max_lines));
            }
            let ghost base2 = out@;
            let mut j: usize = start_idx;
            proof {
                Seq::add_empty_right(base2, rows_block(rv, start_idx as int, start_idx - 1));
            }
            while j <= end
                invariant
                    start_idx <= j <= end + 1,
                    end < nrows,
                    (end as int) < rows@.len(),
                    rows_view(rows@) == rv,
                    rows@.len() == rv.len(),
                    out@ == base2 + rows_block(rv, start_idx as int, j - 1),
                decreases end + 1 - j,
            {
                let ghost prev_block = rows_block(rv, start_idx as int, j - 1);
                proof {
                    assert(rv[j as int] == rows@[j as int]@);
                }
                push_bytes(out, rows[j].as_slice());
                crate::ansi::push_crlf(out);
                proof {
                    let row = rv[j as int];
                    vstd::seq_lib::lemma_concat_associative(base2 + prev_block, row, c);
                    vstd::seq_lib::lemma_concat_associative(base2, prev_block, row + c);
                    lemma_rows_block_snoc(rv, start_idx as int, j as int);
                }
                j = j + 1;
            }
            proof {
                vstd::seq_lib::lemma_concat_associative(
                    a0,
                    header,
                    rows_block(rv, start_idx as int, end as int),
                );
                assert(out@ == a0 + block_bytes(o@, selected, now_ms, max_lines));
            }
            lines = sat_add_usize_exec(lines, end - start_idx + 1);
        } else {
            proof {
                Seq::add_empty_right(header, window_bytes(rv, o@.cursor, max_lines));
                assert(out@ == a0 + block_bytes(o@, selected, now_ms, max_lines));
            }
        }
    } else {
        proof {
            Seq::add_empty_right(header, Seq::<u8>::empty());
            assert(out@ == a0 + block_bytes(o@, selected, now_ms, max_lines));
        }
    }
    lines
}

/// A present id is found inside the list, at an index bearing that id, and at
/// the first such index.
pub proof fn lemma_index_of_id_bounds(outputs: Seq<SecondaryOutputView>, id: u32)
    ensures
        index_of_id(outputs, id) >= 0 ==> {
            &&& index_of_id(outputs, id) < outputs.len()
            &&& outputs[index_of_id(outputs, id)].id == id
            &&& forall|j: int| 0 <= j < index_of_id(outputs, id) ==> (#[trigger] outputs[j].id)
                != id
        },
        index_of_id(outputs, id) < 0 ==> forall|j: int|
            0 <= j < outputs.len() ==> (#[trigger] outputs[j].id) != id,
    decreases outputs.len(),
{
    if outputs.len() == 0 {
    } else if outputs[0].id == id {
    } else {
        lemma_index_of_id_bounds(outputs.drop_first(), id);
        assert forall|j: int|
            0 <= j < outputs.len() && index_of_id(outputs, id) < 0 implies (
        #[trigger] outputs[j].id) != id by {
            if j > 0 {
                assert(outputs.drop_first()[j - 1] == outputs[j]);
            }
        }
        if index_of_id(outputs, id) >= 0 {
            assert forall|j: int| 0 <= j < index_of_id(outputs, id) implies (
            #[trigger] outputs[j].id) != id by {
                if j > 0 {
                    assert(outputs.drop_first()[j - 1] == outputs[j]);
                }
            }
        }
    }
}

} // verus!
