//! A compositing terminal renderer: a primary byte stream is passed through
//! verbatim while a panel of secondary output streams is drawn beneath it,
//! erased and redrawn on every render without disturbing the primary content.

mod ansi;
mod laws;
mod offset;
mod state;
mod term_buffer;
mod vte_actions;

pub use laws::{
    lemma_aligned_outputs_tick_together, lemma_render_idempotent, lemma_selection_down_clamps,
    lemma_selection_down_n, lemma_selection_up_clamps, lemma_selection_up_n, selection_down_n,
    selection_up_n,
};
pub use offset::{apply_action, fold_offset};
pub use state::{
    align_start_ms, elapsed_secs, panel_bytes, render_next_view, render_output_bytes,
    selection_after_removal, selection_down, selection_up, undo_bytes, view_wf, InvalidId,
    SecondaryOutputId, SecondaryOutputView, State, StateView,
};
pub use term_buffer::{
    cursor_row_adjusted, grid_cursor, grid_rows, last_non_empty_row, processed_grid, window_end,
    window_start, TermGrid,
};
pub use vte_actions::{run, ParseMode, Performer, VteAction, VteActionParser};
