//! The control-sequence interpreter: bytes in, semantic actions out.

use term_overlay::{VteAction, VteActionParser};

#[test]
fn parses_plain_text() {
    let mut p = VteActionParser::new();
    let actions = p.parse_bytes(b"hi");
    assert_eq!(actions, vec![VteAction::Text('h'), VteAction::Text('i')]);
}

#[test]
fn parses_control_bytes() {
    let mut p = VteActionParser::new();
    let actions = p.parse_bytes(b"\t\r\n");
    assert_eq!(
        actions,
        vec![VteAction::Tab, VteAction::CarriageReturn, VteAction::LineFeed]
    );
}

#[test]
fn parses_cursor_motions() {
    let mut p = VteActionParser::new();
    let actions = p.parse_bytes(b"\x1b[3D\x1b[A\x1b[2B\x1b[12F\x1b[4E\x1b[7C");
    assert_eq!(
        actions,
        vec![
            VteAction::CursorBackward(3),
            VteAction::CursorUp(1),
            VteAction::CursorDown(2),
            VteAction::CursorPreviousLine(12),
            VteAction::CursorNextLine(4),
            VteAction::CursorForward(7),
        ]
    );
}

#[test]
fn zero_parameter_defaults_to_one() {
    let mut p = VteActionParser::new();
    let actions = p.parse_bytes(b"\x1b[0A");
    assert_eq!(actions, vec![VteAction::CursorUp(1)]);
}

#[test]
fn only_the_first_parameter_counts() {
    let mut p = VteActionParser::new();
    let actions = p.parse_bytes(b"\x1b[5;9A");
    assert_eq!(actions, vec![VteAction::CursorUp(5)]);
}

#[test]
fn unrecognized_finals_yield_no_action() {
    let mut p = VteActionParser::new();
    let actions = p.parse_bytes(b"\x1b[2J\x1b[1;2H\x1b[31mx");
    assert_eq!(actions, vec![VteAction::Text('x')]);
}

#[test]
fn intermediates_and_private_markers_yield_no_action() {
    let mut p = VteActionParser::new();
    let actions = p.parse_bytes(b"\x1b[?25h\x1b[ Ay");
    assert_eq!(actions, vec![VteAction::Text('y')]);
}

#[test]
fn sequence_split_across_calls_is_recognized() {
    let mut p = VteActionParser::new();
    let first = p.parse_bytes(b"abc\x1b[");
    assert_eq!(
        first,
        vec![VteAction::Text('a'), VteAction::Text('b'), VteAction::Text('c')]
    );
    let second = p.parse_bytes(b"3C");
    assert_eq!(second, vec![VteAction::CursorForward(3)]);
}

#[test]
fn osc_strings_are_consumed_silently() {
    let mut p = VteActionParser::new();
    let actions = p.parse_bytes(b"\x1b]0;window title\x07x");
    assert_eq!(actions, vec![VteAction::Text('x')]);
}

#[test]
fn utf8_text_is_decoded() {
    let mut p = VteActionParser::new();
    let actions = p.parse_bytes("h\u{e9}\u{2713}".as_bytes());
    assert_eq!(
        actions,
        vec![
            VteAction::Text('h'),
            VteAction::Text('\u{e9}'),
            VteAction::Text('\u{2713}'),
        ]
    );
}

#[test]
fn utf8_split_across_calls_is_decoded() {
    let mut p = VteActionParser::new();
    let first = p.parse_bytes(b"\xc3");
    assert_eq!(first, vec![]);
    let second = p.parse_bytes(b"\xa9");
    assert_eq!(second, vec![VteAction::Text('\u{e9}')]);
}

#[test]
fn invalid_bytes_become_replacement_characters() {
    let mut p = VteActionParser::new();
    let actions = p.parse_bytes(b"\xffz");
    assert_eq!(actions, vec![VteAction::Text('\u{fffd}'), VteAction::Text('z')]);
}

#[test]
fn truncated_utf8_is_replaced_and_reparsed() {
    let mut p = VteActionParser::new();
    let actions = p.parse_bytes(b"\xc3\nq");
    assert_eq!(
        actions,
        vec![
            VteAction::Text('\u{fffd}'),
            VteAction::LineFeed,
            VteAction::Text('q'),
        ]
    );
}
