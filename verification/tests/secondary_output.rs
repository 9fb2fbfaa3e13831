//! The secondary-output panel: titles, durations, selection, expansion,
//! removal, and the expanded line windows.

use term_overlay::State;

const PANEL_MAX_LINES: usize = 3;

/// The collapsed indicator: `---` in green, color reset after.
const C: &str = "\x1b[38;5;10m---\x1b[39m";

/// The expanded indicator: `+++` in yellow, color reset after.
const E: &str = "\x1b[38;5;11m+++\x1b[39m";

fn joined(parts: &[Vec<u8>]) -> String {
    let mut all: Vec<u8> = Vec::new();
    for p in parts {
        all.extend_from_slice(p);
    }
    String::from_utf8(all).unwrap()
}

#[test]
fn shows_titles_and_durations() {
    let mut state = State::new(PANEL_MAX_LINES);
    state.new_secondary_output("first title".to_string(), 0);
    state.new_secondary_output("second title".to_string(), 1000);
    let r = state.render(2000);
    assert_eq!(
        joined(&[r]),
        format!("\x1b[1G\x1b[1B> {C}   2s first title\r\n  {C}   1s second title\r\n")
    );
}

#[test]
fn durations_change_at_same_time() {
    let mut state = State::new(PANEL_MAX_LINES);
    // offset from the reference instant taken when the engine was created
    state.new_secondary_output("first title".to_string(), 250);
    // offset by a non-whole number of seconds
    state.new_secondary_output("second title".to_string(), 750);
    // just before the counts tick over: both still show 0s
    let r1 = state.render(999);
    assert_eq!(
        joined(&[r1]),
        format!("\x1b[1G\x1b[1B> {C}   0s first title\r\n  {C}   0s second title\r\n")
    );
    // one millisecond later both tick over in the same frame
    let r2 = state.render(1000);
    assert_eq!(
        joined(&[r2]),
        format!(
            "\x1b[1G\x1b[2A\x1b[J\x1b[1A\x1b[0C\x1b[1G\x1b[1B> {C}   1s first title\r\n  {C}   1s second title\r\n"
        )
    );
}

#[test]
fn shows_cursor_at_selected_index() {
    let mut state = State::new(PANEL_MAX_LINES);
    state.new_secondary_output("one".to_string(), 0);
    state.new_secondary_output("two".to_string(), 0);
    state.new_secondary_output("three".to_string(), 0);
    state.new_secondary_output("four".to_string(), 0);
    state.move_cursor_down();
    state.move_cursor_down();
    state.move_cursor_down();
    state.move_cursor_up();
    let r = state.render(0);
    assert_eq!(
        joined(&[r]),
        format!(
            "\x1b[1G\x1b[1B  {C}   0s one\r\n  {C}   0s two\r\n> {C}   0s three\r\n  {C}   0s four\r\n"
        )
    );
}

#[test]
fn clamps_cursor_down() {
    let mut state = State::new(PANEL_MAX_LINES);
    state.new_secondary_output("one".to_string(), 0);
    state.new_secondary_output("two".to_string(), 0);
    state.move_cursor_down();
    state.move_cursor_down();
    state.move_cursor_down();
    state.move_cursor_down();
    let r = state.render(0);
    assert_eq!(
        joined(&[r]),
        format!("\x1b[1G\x1b[1B  {C}   0s one\r\n> {C}   0s two\r\n")
    );
}

#[test]
fn clamps_cursor_up() {
    let mut state = State::new(PANEL_MAX_LINES);
    state.new_secondary_output("one".to_string(), 0);
    state.new_secondary_output("two".to_string(), 0);
    state.move_cursor_down();
    state.move_cursor_down();
    state.move_cursor_up();
    state.move_cursor_up();
    state.move_cursor_up();
    state.move_cursor_up();
    let r = state.render(0);
    assert_eq!(
        joined(&[r]),
        format!("\x1b[1G\x1b[1B> {C}   0s one\r\n  {C}   0s two\r\n")
    );
}

#[test]
fn changes_prefix_when_expanded() {
    let mut state = State::new(PANEL_MAX_LINES);
    // a no-op while there are no outputs
    state.toggle_current_selection_expanded();
    state.new_secondary_output("one".to_string(), 0);
    state.new_secondary_output("two".to_string(), 0);
    state.new_secondary_output("three".to_string(), 0);
    // expand "one"
    state.toggle_current_selection_expanded();
    // expand "two"
    state.move_cursor_down();
    state.toggle_current_selection_expanded();
    // collapse "one"
    state.move_cursor_up();
    state.toggle_current_selection_expanded();
    // expand "three"
    state.move_cursor_down();
    state.move_cursor_down();
    state.toggle_current_selection_expanded();
    let r = state.render(0);
    assert_eq!(
        joined(&[r]),
        format!("\x1b[1G\x1b[1B  {C}   0s one\r\n  {E}   0s two\r\n> {E}   0s three\r\n")
    );
}

#[test]
fn removing_output_preserves_order_and_selection() {
    let mut state = State::new(PANEL_MAX_LINES);
    state.new_secondary_output("one".to_string(), 0);
    let two_id = state.new_secondary_output("two".to_string(), 0);
    state.new_secondary_output("three".to_string(), 0);
    // put the cursor on the item to be removed
    state.move_cursor_down();
    state.remove_secondary_output(two_id).unwrap();
    let r = state.render(0);
    assert_eq!(
        joined(&[r]),
        format!("\x1b[1G\x1b[1B  {C}   0s one\r\n> {C}   0s three\r\n")
    );
    // the id is single-use: a second removal fails
    assert!(state.remove_secondary_output(two_id).is_err());
}

#[test]
fn removing_output_moves_selection_down() {
    let mut state = State::new(PANEL_MAX_LINES);
    state.new_secondary_output("one".to_string(), 0);
    let two_id = state.new_secondary_output("two".to_string(), 0);
    state.new_secondary_output("three".to_string(), 0);
    state.move_cursor_down();
    state.move_cursor_down();
    state.remove_secondary_output(two_id).unwrap();
    let r = state.render(0);
    assert_eq!(
        joined(&[r]),
        format!("\x1b[1G\x1b[1B  {C}   0s one\r\n> {C}   0s three\r\n")
    );
}

#[test]
fn shows_lines_when_expanded() {
    let mut state = State::new(PANEL_MAX_LINES);
    let id = state.new_secondary_output("out".to_string(), 0);
    state.handle_secondary_bytes(&id, b"a\r\nb\r\n").unwrap();
    let r1 = state.render(0);
    assert_eq!(joined(&[r1]), format!("\x1b[1G\x1b[1B> {C}   0s out\r\n"));
    state.toggle_current_selection_expanded();
    let r2 = state.render(0);
    assert_eq!(
        joined(&[r2]),
        format!("\x1b[1G\x1b[1A\x1b[J\x1b[1A\x1b[0C\x1b[1G\x1b[1B> {E}   0s out\r\na\r\nb\r\n")
    );

    // bytes cannot be sent to a removed output
    state.remove_secondary_output(id).unwrap();
    assert!(state.handle_secondary_bytes(&id, b"").is_err());
}

#[test]
fn only_shows_most_recent_lines() {
    let mut state = State::new(PANEL_MAX_LINES);
    let id = state.new_secondary_output("out".to_string(), 0);
    state.handle_secondary_bytes(&id, b"a\r\nb\r\nc\r\nd\r\n").unwrap();
    state.toggle_current_selection_expanded();
    let r = state.render(0);
    // the oldest line "a" is dropped: only the most recent three remain
    assert_eq!(
        joined(&[r]),
        format!("\x1b[1G\x1b[1B> {E}   0s out\r\nb\r\nc\r\nd\r\n")
    );
}

#[test]
fn handles_trailing_blank_lines() {
    let mut state = State::new(PANEL_MAX_LINES);
    let id = state.new_secondary_output("with trailing".to_string(), 0);
    state.new_secondary_output("after".to_string(), 0);
    state.handle_secondary_bytes(&id, b"a\r\n").unwrap();
    state.toggle_current_selection_expanded();
    let r1 = state.render(0);
    // a single line followed by a line break windows down to nothing
    assert_eq!(
        joined(&[r1]),
        format!("\x1b[1G\x1b[1B> {E}   0s with trailing\r\n  {C}   0s after\r\n")
    );
    state.handle_secondary_bytes(&id, b"\r\n\r\n").unwrap();
    let r2 = state.render(0);
    // the cursor rests below the blank lines, so they are shown
    assert_eq!(
        joined(&[r2]),
        format!(
            "\x1b[1G\x1b[2A\x1b[J\x1b[1A\x1b[0C\x1b[1G\x1b[1B> {E}   0s with trailing\r\na\r\n\r\n\r\n  {C}   0s after\r\n"
        )
    );
}

#[test]
fn pads_second_counts_to_three_columns() {
    let mut state = State::new(PANEL_MAX_LINES);
    state.new_secondary_output("t".to_string(), 0);
    let r1 = state.render(12_345);
    assert_eq!(joined(&[r1]), format!("\x1b[1G\x1b[1B> {C}  12s t\r\n"));
    let r2 = state.render(123_456);
    assert_eq!(
        joined(&[r2]),
        format!("\x1b[1G\x1b[1A\x1b[J\x1b[1A\x1b[0C\x1b[1G\x1b[1B> {C} 123s t\r\n")
    );
}

#[test]
fn navigation_is_a_noop_without_outputs() {
    let mut state = State::new(PANEL_MAX_LINES);
    state.move_cursor_down();
    state.move_cursor_up();
    state.toggle_current_selection_expanded();
    let r = state.render(0);
    assert_eq!(joined(&[r]), "");
}

#[test]
fn invalid_id_reports_error_and_changes_nothing() {
    let mut state = State::new(PANEL_MAX_LINES);
    let id = state.new_secondary_output("only".to_string(), 0);
    state.remove_secondary_output(id).unwrap();
    assert!(state.remove_secondary_output(id).is_err());
    assert!(state.handle_secondary_bytes(&id, b"data").is_err());
    let r = state.render(0);
    assert_eq!(joined(&[r]), "");
}
