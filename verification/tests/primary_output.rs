//! Rendering of the primary byte stream.

use term_overlay::State;

const MAX_LINES: usize = 3;

/// The collapsed indicator: `---` in green, color reset after.
const COLL: &str = "\x1b[38;5;10m---\x1b[39m";

fn collect(parts: &[Vec<u8>]) -> String {
    let mut all: Vec<u8> = Vec::new();
    for p in parts {
        all.extend_from_slice(p);
    }
    String::from_utf8(all).unwrap()
}

#[test]
fn buffers_bytes() {
    let mut state = State::new(MAX_LINES);
    state.handle_primary_bytes("should not render".as_bytes());
    // no render call: nothing reaches the sink
    let out = collect(&[]);
    assert_eq!(out, "");
}

#[test]
fn passes_through_bytes() {
    let mut state = State::new(MAX_LINES);
    state.handle_primary_bytes("my test string\r\nhello hi".as_bytes());
    let r = state.render(0);
    assert_eq!(collect(&[r]), "my test string\r\nhello hi");
}

#[test]
fn only_renders_bytes_once() {
    let mut state = State::new(MAX_LINES);
    state.handle_primary_bytes("no repeat ".as_bytes());
    let r1 = state.render(0);
    let r2 = state.render(0);
    let out = collect(&[r1, r2]);
    assert_eq!(out, "no repeat ");
    assert_eq!(out.matches("no repeat ").count(), 1);
}

#[test]
fn draws_secondary_output_after_content_and_restores_cursor_position() {
    let mut state = State::new(MAX_LINES);
    state.new_secondary_output("test secondary output".to_string(), 0);
    state.handle_primary_bytes("abc\r\ndef\r\nghi\x1b[3D\x1b[1A\x1b[3C".as_bytes());
    let r1 = state.render(0);
    // the offset after the primary bytes is x=3, y=1, so the panel sits
    // one row below the bottom-most emitted row
    let header = format!("> {COLL}   0s test secondary output\r\n");
    assert_eq!(
        collect(&[r1]),
        format!("abc\r\ndef\r\nghi\x1b[3D\x1b[1A\x1b[3C\x1b[1G\x1b[2B{header}")
    );

    state.handle_primary_bytes("123".as_bytes());
    let r2 = state.render(0);
    // undo one panel line, return to (3, 1), append, panel again below
    assert_eq!(
        collect(&[r2]),
        format!("\x1b[1G\x1b[1A\x1b[J\x1b[2A\x1b[3C123\x1b[1G\x1b[2B{header}")
    );
}

#[test]
fn clears_secondary_output() {
    let mut state = State::new(MAX_LINES);
    state.new_secondary_output("test secondary output".to_string(), 0);
    state.handle_primary_bytes("abc".as_bytes());
    let r1 = state.render(0);
    let header = format!("> {COLL}   0s test secondary output\r\n");
    assert_eq!(collect(&[r1]), format!("abc\x1b[1G\x1b[1B{header}"));

    state.handle_primary_bytes("def\r\n123".as_bytes());
    let r2 = state.render(0);
    assert_eq!(
        collect(&[r2]),
        format!("\x1b[1G\x1b[1A\x1b[J\x1b[1A\x1b[3Cdef\r\n123\x1b[1G\x1b[1B{header}")
    );
}

#[test]
fn renders_nothing_for_empty_engine() {
    let mut state = State::new(MAX_LINES);
    let r1 = state.render(0);
    let r2 = state.render(500);
    assert_eq!(collect(&[r1, r2]), "");
}
