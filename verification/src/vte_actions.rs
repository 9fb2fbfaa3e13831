//! The control-sequence interpreter: consumes raw terminal bytes and emits the
//! semantic cursor/text actions they stand for, without materializing a screen.
//!
//! The recognizer follows the classic ANSI parser state machine: printable
//! characters (decoded from UTF-8) and the control bytes tab, line feed and
//! carriage return act in the ground state; CSI sequences with a final byte in
//! `A`..=`F` move the cursor; everything else (other finals, sequences with
//! intermediate bytes, OSC/DCS/SOS/PM/APC strings) is consumed for structural
//! validity but yields no action. Parsing state persists across calls, so a
//! sequence split between two byte buffers is still recognized.

use vstd::prelude::*;
use vstd::utf8::is_scalar;

verus! {

/// The semantic actions that can be taken as a result of bytes sent to the terminal.
#[derive(Debug, Clone, Copy, PartialEq, Eq, Structural)]
pub enum VteAction {
    Text(char),
    Tab,
    LineFeed,
    CarriageReturn,
    CursorUp(u16),
    CursorDown(u16),
    CursorForward(u16),
    CursorBackward(u16),
    CursorNextLine(u16),
    CursorPreviousLine(u16),
}

/// Recognizer state carried between byte buffers.
///
/// `Utf8Collect` is a partially read multi-byte character: `codepoint` holds
/// the bits read so far, `need` the number of continuation bytes still owed,
/// and `next_min`/`next_max` the admissible range of the next byte (the first
/// continuation byte of a sequence is range-restricted so that overlong forms
/// and surrogates are rejected byte by byte). `CsiParam` accumulates the first
/// numeric parameter of a CSI sequence; `value_done` is set once a `;` or `:`
/// ends that parameter. `CsiConsume` is a CSI sequence already known to yield
/// no action (intermediate bytes or private markers were seen, or a parameter
/// was malformed); it is consumed up to its final byte.
#[derive(Debug, Clone, Copy, PartialEq, Eq, Structural)]
pub enum ParseMode {
    Ground,
    Utf8Collect { codepoint: u32, need: u8, next_min: u8, next_max: u8 },
    Escape,
    EscapeIntermediate,
    CsiParam { value: u16, value_done: bool },
    CsiConsume,
    OscString,
    DcsEntry,
    DcsParam,
    DcsIntermediate,
    DcsPassthrough,
    DcsIgnore,
    SosPmApcString,
}

/// The action of a C0 control byte executed in place.
pub open spec fn exec_action(b: u8) -> Seq<VteAction> {
    if b == 9 {
        seq![VteAction::Tab]
    } else if b == 10 {
        seq![VteAction::LineFeed]
    } else if b == 13 {
        seq![VteAction::CarriageReturn]
    } else {
        Seq::empty()
    }
}

/// Whether a byte is a C0 control executed inside an escape sequence
/// (all C0 bytes except CAN, SUB and ESC, which abort the sequence).
pub open spec fn is_exec_c0(b: u8) -> bool {
    b <= 0x17 || b == 0x19 || (0x1c <= b && b <= 0x1f)
}

/// A CSI parameter of 0, or an omitted one, counts as 1 by terminal convention.
pub open spec fn csi_count(value: u16) -> u16 {
    if value == 0 {
        1
    } else {
        value
    }
}

/// The action of a CSI sequence without intermediates, by its final byte.
pub open spec fn csi_action(value: u16, fin: u8) -> Seq<VteAction> {
    let n = csi_count(value);
    if fin == 0x41 {
        seq![VteAction::CursorUp(n)]
    } else if fin == 0x42 {
        seq![VteAction::CursorDown(n)]
    } else if fin == 0x43 {
        seq![VteAction::CursorForward(n)]
    } else if fin == 0x44 {
        seq![VteAction::CursorBackward(n)]
    } else if fin == 0x45 {
        seq![VteAction::CursorNextLine(n)]
    } else if fin == 0x46 {
        seq![VteAction::CursorPreviousLine(n)]
    } else {
        Seq::empty()
    }
}

/// The action emitted when a multi-byte character is complete. A scalar in the
/// C1 range (U+0080..=U+009F) is an executed control, not text; a non-scalar
/// accumulation is replaced by U+FFFD.
pub open spec fn utf8_finish(cp: u32) -> Seq<VteAction> {
    if is_scalar(cp) {
        if 0x80 <= cp && cp <= 0x9f {
            Seq::empty()
        } else {
            seq![VteAction::Text(cp as char)]
        }
    } else {
        seq![VteAction::Text('\u{fffd}')]
    }
}

/// One byte handled in the ground state.
pub open spec fn ground_step(b: u8) -> (ParseMode, Seq<VteAction>) {
    if b == 0x1b {
        (ParseMode::Escape, Seq::empty())
    } else if b < 0x20 {
        (ParseMode::Ground, exec_action(b))
    } else if b < 0x80 {
        (ParseMode::Ground, seq![VteAction::Text(b as char)])
    } else if b < 0xa0 {
        // a stray C1 control byte is executed, which yields no action
        (ParseMode::Ground, Seq::empty())
    } else if b < 0xc2 {
        // invalid as a leading byte (continuation, or overlong 0xc0/0xc1)
        (ParseMode::Ground, seq![VteAction::Text('\u{fffd}')])
    } else if b < 0xe0 {
        (
            ParseMode::Utf8Collect {
                codepoint: (b & 0x1f) as u32,
                need: 1,
                next_min: 0x80,
                next_max: 0xbf,
            },
            Seq::empty(),
        )
    } else if b == 0xe0 {
        (
            ParseMode::Utf8Collect { codepoint: 0, need: 2, next_min: 0xa0, next_max: 0xbf },
            Seq::empty(),
        )
    } else if b == 0xed {
        (
            ParseMode::Utf8Collect {
                codepoint: (b & 0x0f) as u32,
                need: 2,
                next_min: 0x80,
                next_max: 0x9f,
            },
            Seq::empty(),
        )
    } else if b < 0xf0 {
        (
            ParseMode::Utf8Collect {
                codepoint: (b & 0x0f) as u32,
                need: 2,
                next_min: 0x80,
                next_max: 0xbf,
            },
            Seq::empty(),
        )
    } else if b == 0xf0 {
        (
            ParseMode::Utf8Collect { codepoint: 0, need: 3, next_min: 0x90, next_max: 0xbf },
            Seq::empty(),
        )
    } else if b < 0xf4 {
        (
            ParseMode::Utf8Collect {
                codepoint: (b & 0x07) as u32,
                need: 3,
                next_min: 0x80,
                next_max: 0xbf,
            },
            Seq::empty(),
        )
    } else if b == 0xf4 {
        (
            ParseMode::Utf8Collect { codepoint: 4, need: 3, next_min: 0x80, next_max: 0x8f },
            Seq::empty(),
        )
    } else {
        (ParseMode::Ground, seq![VteAction::Text('\u{fffd}')])
    }
}

/// One byte handled in the escape state (right after ESC).
pub open spec fn escape_step(b: u8) -> (ParseMode, Seq<VteAction>) {
    if is_exec_c0(b) {
        (ParseMode::Escape, exec_action(b))
    } else if b == 0x18 || b == 0x1a {
        (ParseMode::Ground, Seq::empty())
    } else if b == 0x1b {
        (ParseMode::Escape, Seq::empty())
    } else if 0x20 <= b && b <= 0x2f {
        (ParseMode::EscapeIntermediate, Seq::empty())
    } else if b == 0x50 {
        (ParseMode::DcsEntry, Seq::empty())
    } else if b == 0x58 || b == 0x5e || b == 0x5f {
        (ParseMode::SosPmApcString, Seq::empty())
    } else if b == 0x5b {
        (ParseMode::CsiParam { value: 0, value_done: false }, Seq::empty())
    } else if b == 0x5d {
        (ParseMode::OscString, Seq::empty())
    } else if 0x30 <= b && b <= 0x7e {
        // a plain escape sequence is dispatched; none carries an action here
        (ParseMode::Ground, Seq::empty())
    } else {
        (ParseMode::Escape, Seq::empty())
    }
}

/// One byte handled while accumulating the first CSI parameter.
pub open spec fn csi_param_step(value: u16, value_done: bool, b: u8) -> (
    ParseMode,
    Seq<VteAction>,
) {
    if is_exec_c0(b) {
        (ParseMode::CsiParam { value, value_done }, exec_action(b))
    } else if b == 0x18 || b == 0x1a {
        (ParseMode::Ground, Seq::empty())
    } else if b == 0x1b {
        (ParseMode::Escape, Seq::empty())
    } else if 0x20 <= b && b <= 0x2f {
        // an intermediate byte: the sequence can no longer yield an action
        (ParseMode::CsiConsume, Seq::empty())
    } else if 0x30 <= b && b <= 0x39 {
        let value2 = if value_done {
            value
        } else {
            saturating_scale_add(value, (b - 0x30) as u16)
        };
        (ParseMode::CsiParam { value: value2, value_done }, Seq::empty())
    } else if b == 0x3a || b == 0x3b {
        (ParseMode::CsiParam { value, value_done: true }, Seq::empty())
    } else if 0x3c <= b && b <= 0x3f {
        // a private marker: the sequence can no longer yield an action
        (ParseMode::CsiConsume, Seq::empty())
    } else if 0x40 <= b && b <= 0x7e {
        (ParseMode::Ground, csi_action(value, b))
    } else {
        (ParseMode::CsiParam { value, value_done }, Seq::empty())
    }
}

/// A decimal digit appended to a parameter accumulator, saturating at `u16::MAX`.
pub open spec fn saturating_scale_add(value: u16, digit: u16) -> u16 {
    if value * 10 + digit > 0xffff {
        0xffff
    } else {
        (value * 10 + digit) as u16
    }
}

/// One byte handled in a CSI sequence that is consumed without an action.
pub open spec fn csi_consume_step(b: u8) -> (ParseMode, Seq<VteAction>) {
    if is_exec_c0(b) {
        (ParseMode::CsiConsume, exec_action(b))
    } else if b == 0x18 || b == 0x1a {
        (ParseMode::Ground, Seq::empty())
    } else if b == 0x1b {
        (ParseMode::Escape, Seq::empty())
    } else if 0x40 <= b && b <= 0x7e {
        (ParseMode::Ground, Seq::empty())
    } else {
        (ParseMode::CsiConsume, Seq::empty())
    }
}

/// One byte handled inside an OSC string (terminated by BEL, CAN, SUB or ESC).
pub open spec fn osc_step(b: u8) -> (ParseMode, Seq<VteAction>) {
    if b == 0x07 || b == 0x18 || b == 0x1a {
        (ParseMode::Ground, Seq::empty())
    } else if b == 0x1b {
        (ParseMode::Escape, Seq::empty())
    } else {
        (ParseMode::OscString, Seq::empty())
    }
}

/// One byte handled in the DCS entry/parameter/intermediate states; `m` is the
/// current state, `on_param` and `on_intermediate` the states entered by
/// parameter and intermediate bytes, `on_bad` the state entered when the
/// sequence turns malformed.
pub open spec fn dcs_prefix_step(
    m: ParseMode,
    on_param: ParseMode,
    on_intermediate: ParseMode,
    on_bad: ParseMode,
    b: u8,
) -> (ParseMode, Seq<VteAction>) {
    if is_exec_c0(b) || b == 0x7f {
        (m, Seq::empty())
    } else if b == 0x18 || b == 0x1a {
        (ParseMode::Ground, Seq::empty())
    } else if b == 0x1b {
        (ParseMode::Escape, Seq::empty())
    } else if 0x20 <= b && b <= 0x2f {
        (on_intermediate, Seq::empty())
    } else if 0x30 <= b && b <= 0x3f {
        (on_param, Seq::empty())
    } else if 0x40 <= b && b <= 0x7e {
        (ParseMode::DcsPassthrough, Seq::empty())
    } else {
        (m, Seq::empty())
    }
}

/// One byte handled in a string state that only CAN, SUB or ESC can leave
/// (SOS/PM/APC strings and ignored DCS remainders).
pub open spec fn opaque_string_step(m: ParseMode, b: u8) -> (ParseMode, Seq<VteAction>) {
    if b == 0x18 || b == 0x1a {
        (ParseMode::Ground, Seq::empty())
    } else if b == 0x1b {
        (ParseMode::Escape, Seq::empty())
    } else {
        (m, Seq::empty())
    }
}

/// One byte handled in the DCS passthrough state (after the final byte).
pub open spec fn dcs_passthrough_step(b: u8) -> (ParseMode, Seq<VteAction>) {
    if b == 0x18 || b == 0x1a || b == 0x9c {
        (ParseMode::Ground, Seq::empty())
    } else if b == 0x1b {
        (ParseMode::Escape, Seq::empty())
    } else {
        (ParseMode::DcsPassthrough, Seq::empty())
    }
}

/// The whole transition function: one byte, at most two actions (a rejected
/// continuation byte emits U+FFFD and is then handled again from ground).
pub open spec fn step(m: ParseMode, b: u8) -> (ParseMode, Seq<VteAction>) {
    match m {
        ParseMode::Ground => ground_step(b),
        ParseMode::Utf8Collect { codepoint, need, next_min, next_max } => {
            if next_min <= b && b <= next_max {
                let cp = (codepoint << 6) | ((b & 0x3f) as u32);
                if need <= 1 {
                    (ParseMode::Ground, utf8_finish(cp))
                } else {
                    (
                        ParseMode::Utf8Collect {
                            codepoint: cp,
                            need: (need - 1) as u8,
                            next_min: 0x80,
                            next_max: 0xbf,
                        },
                        Seq::empty(),
                    )
                }
            } else {
                let (m2, acts) = ground_step(b);
                (m2, seq![VteAction::Text('\u{fffd}')] + acts)
            }
        },
        ParseMode::Escape => escape_step(b),
        ParseMode::EscapeIntermediate => {
            if is_exec_c0(b) {
                (ParseMode::EscapeIntermediate, exec_action(b))
            } else if b == 0x18 || b == 0x1a {
                (ParseMode::Ground, Seq::empty())
            } else if b == 0x1b {
                (ParseMode::Escape, Seq::empty())
            } else if 0x30 <= b && b <= 0x7e {
                (ParseMode::Ground, Seq::empty())
            } else {
                (ParseMode::EscapeIntermediate, Seq::empty())
            }
        },
        ParseMode::CsiParam { value, value_done } => csi_param_step(value, value_done, b),
        ParseMode::CsiConsume => csi_consume_step(b),
        ParseMode::OscString => osc_step(b),
        ParseMode::DcsEntry => dcs_prefix_step(
            ParseMode::DcsEntry,
            ParseMode::DcsParam,
            ParseMode::DcsIntermediate,
            ParseMode::DcsParam,
            b,
        ),
        ParseMode::DcsParam => dcs_param_step(b),
        ParseMode::DcsIntermediate => dcs_intermediate_step(b),
        ParseMode::DcsPassthrough => dcs_passthrough_step(b),
        ParseMode::DcsIgnore => opaque_string_step(ParseMode::DcsIgnore, b),
        ParseMode::SosPmApcString => opaque_string_step(ParseMode::SosPmApcString, b),
    }
}

/// One byte handled in the DCS parameter state.
pub open spec fn dcs_param_step(b: u8) -> (ParseMode, Seq<VteAction>) {
    if is_exec_c0(b) || b == 0x7f {
        (ParseMode::DcsParam, Seq::empty())
    } else if b == 0x18 || b == 0x1a {
        (ParseMode::Ground, Seq::empty())
    } else if b == 0x1b {
        (ParseMode::Escape, Seq::empty())
    } else if 0x20 <= b && b <= 0x2f {
        (ParseMode::DcsIntermediate, Seq::empty())
    } else if 0x30 <= b && b <= 0x3b {
        (ParseMode::DcsParam, Seq::empty())
    } else if 0x3c <= b && b <= 0x3f {
        (ParseMode::DcsIgnore, Seq::empty())
    } else if 0x40 <= b && b <= 0x7e {
        (ParseMode::DcsPassthrough, Seq::empty())
    } else {
        (ParseMode::DcsParam, Seq::empty())
    }
}

/// One byte handled in the DCS intermediate state.
pub open spec fn dcs_intermediate_step(b: u8) -> (ParseMode, Seq<VteAction>) {
    if is_exec_c0(b) || b == 0x7f {
        (ParseMode::DcsIntermediate, Seq::empty())
    } else if b == 0x18 || b == 0x1a {
        (ParseMode::Ground, Seq::empty())
    } else if b == 0x1b {
        (ParseMode::Escape, Seq::empty())
    } else if 0x20 <= b && b <= 0x2f {
        (ParseMode::DcsIntermediate, Seq::empty())
    } else if 0x30 <= b && b <= 0x3f {
        (ParseMode::DcsIgnore, Seq::empty())
    } else if 0x40 <= b && b <= 0x7e {
        (ParseMode::DcsPassthrough, Seq::empty())
    } else {
        (ParseMode::DcsIntermediate, Seq::empty())
    }
}

/// The transition function folded over a byte sequence: the final state and
/// the concatenation of all actions, in order.
pub open spec fn run(m: ParseMode, bytes: Seq<u8>) -> (ParseMode, Seq<VteAction>)
    decreases bytes.len(),
{
    if bytes.len() == 0 {
        (m, Seq::empty())
    } else {
        let s1 = step(m, bytes[0]);
        let s2 = run(s1.0, bytes.drop_first());
        (s2.0, s1.1 + s2.1)
    }
}

/// Running a sequence extended by one byte runs the sequence, then the byte.
pub proof fn lemma_run_snoc(m: ParseMode, bytes: Seq<u8>, b: u8)
    ensures
        run(m, bytes.push(b)).0 == step(run(m, bytes).0, b).0,
        run(m, bytes.push(b)).1 == run(m, bytes).1 + step(run(m, bytes).0, b).1,
    decreases bytes.len(),
{
    reveal_with_fuel(run, 2);
    let s = bytes.push(b);
    assert(s.len() == bytes.len() + 1);
    if bytes.len() == 0 {
        assert(s[0] == b);
        assert(s.drop_first() =~= Seq::<u8>::empty());
        assert(run(m, s).0 == step(m, b).0);
        assert(run(m, s).1 == step(m, b).1 + run(step(m, b).0, s.drop_first()).1);
        assert(run(m, s).1 =~= run(m, bytes).1 + step(run(m, bytes).0, b).1);
    } else {
        let s1 = step(m, bytes[0]);
        assert(s[0] == bytes[0]);
        assert(s.drop_first() =~= bytes.drop_first().push(b));
        lemma_run_snoc(s1.0, bytes.drop_first(), b);
        assert(run(m, s).1 == s1.1 + run(s1.0, s.drop_first()).1);
        assert(run(m, s).1 =~= run(m, bytes).1 + step(run(m, bytes).0, b).1);
    }
}

/// Relies on char::from_u32: `Some` exactly for Unicode scalar values (not a
/// surrogate, at most U+10FFFF), returning the char with that value.
pub assume_specification[ char::from_u32 ](u: u32) -> (r: Option<char>)
    ensures
        r is Some <==> is_scalar(u),
        r matches Some(c) ==> c as u32 == u,
;

/// Collects the actions emitted while bytes are interpreted.
pub struct Performer {
    actions: Vec<VteAction>,
}

impl View for Performer {
    type V = Seq<VteAction>;

    closed spec fn view(&self) -> Seq<VteAction> {
        self.actions@
    }
}

impl Performer {
    pub fn new() -> (r: Self)
        ensures
            r@ == Seq::<VteAction>::empty(),
    {
        Self { actions: Vec::new() }
    }

    fn emit(&mut self, a: VteAction)
        ensures
            final(self)@ == old(self)@.push(a),
    {
        self.actions.push(a);
    }

    fn into_actions(self) -> (r: Vec<VteAction>)
        ensures
            r@ == self@,
    {
        self.actions
    }
}

/// Interprets terminal bytes incrementally; the in-progress escape-sequence
/// state is kept between calls.
pub struct VteActionParser {
    mode: ParseMode,
}

impl View for VteActionParser {
    type V = ParseMode;

    closed spec fn view(&self) -> ParseMode {
        self.mode
    }
}

impl VteActionParser {
    pub fn new() -> (r: Self)
        ensures
            r@ == ParseMode::Ground,
    {
        Self { mode: ParseMode::Ground }
    }

    /// Feeds one byte through the transition function, appending any actions.
    fn advance(&mut self, performer: &mut Performer, b: u8)
        ensures
            final(self)@ == step(old(self)@, b).0,
            final(performer)@ == old(performer)@ + step(old(self)@, b).1,
    {
        let mode = self.mode;
        match mode {
            ParseMode::Ground => {
                self.mode = self.advance_ground(performer, b);
            },
            ParseMode::Utf8Collect { codepoint, need, next_min, next_max } => {
                if next_min <= b && b <= next_max {
                    let cp: u32 = (codepoint << 6u32) | ((b & 0x3f) as u32);
                    if need <= 1 {
                        self.finish_utf8(performer, cp);
                        self.mode = ParseMode::Ground;
                    } else {
                        self.mode = ParseMode::Utf8Collect {
                            codepoint: cp,
                            need: need - 1,
                            next_min: 0x80,
                            next_max: 0xbf,
                        };
                    }
                } else {
                    performer.emit(VteAction::Text('\u{fffd}'));
                    self.mode = self.advance_ground(performer, b);
                }
            },
            ParseMode::Escape => {
                if is_exec_c0_exec(b) {
                    self.emit_exec(performer, b);
                } else if b == 0x18 || b == 0x1a {
                    self.mode = ParseMode::Ground;
                } else if b == 0x1b || b == 0x7f || b >= 0x80 {
                    // stay
                } else if 0x20 <= b && b <= 0x2f {
                    self.mode = ParseMode::EscapeIntermediate;
                } else if b == 0x50 {
                    self.mode = ParseMode::DcsEntry;
                } else if b == 0x58 || b == 0x5e || b == 0x5f {
                    self.mode = ParseMode::SosPmApcString;
                } else if b == 0x5b {
                    self.mode = ParseMode::CsiParam { value: 0, value_done: false };
                } else if b == 0x5d {
                    self.mode = ParseMode::OscString;
                } else {
                    self.mode = ParseMode::Ground;
                }
            },
            ParseMode::EscapeIntermediate => {
                if is_exec_c0_exec(b) {
                    self.emit_exec(performer, b);
                } else if b == 0x18 || b == 0x1a {
                    self.mode = ParseMode::Ground;
                } else if b == 0x1b {
                    self.mode = ParseMode::Escape;
                } else if 0x30 <= b && b <= 0x7e {
                    self.mode = ParseMode::Ground;
                }
            },
            ParseMode::CsiParam { value, value_done } => {
                if is_exec_c0_exec(b) {
                    self.emit_exec(performer, b);
                } else if b == 0x18 || b == 0x1a {
                    self.mode = ParseMode::Ground;
                } else if b == 0x1b {
                    self.mode = ParseMode::Escape;
                } else if (0x20 <= b && b <= 0x2f) || (0x3c <= b && b <= 0x3f) {
                    self.mode = ParseMode::CsiConsume;
                } else if 0x30 <= b && b <= 0x39 {
                    let value2: u16 = if value_done {
                        value
                    } else {
                        saturating_digit(value, (b - 0x30) as u16)
                    };
                    self.mode = ParseMode::CsiParam { value: value2, value_done };
                } else if b == 0x3a || b == 0x3b {
                    self.mode = ParseMode::CsiParam { value, value_done: true };
                } else if 0x40 <= b && b <= 0x7e {
                    self.emit_csi(performer, value, b);
                    self.mode = ParseMode::Ground;
                }
            },
            ParseMode::CsiConsume => {
                if is_exec_c0_exec(b) {
                    self.emit_exec(performer, b);
                } else if b == 0x18 || b == 0x1a {
                    self.mode = ParseMode::Ground;
                } else if b == 0x1b {
                    self.mode = ParseMode::Escape;
                } else if 0x40 <= b && b <= 0x7e {
                    self.mode = ParseMode::Ground;
                }
            },
            ParseMode::OscString => {
                if b == 0x07 || b == 0x18 || b == 0x1a {
                    self.mode = ParseMode::Ground;
                } else if b == 0x1b {
                    self.mode = ParseMode::Escape;
                }
            },
            ParseMode::DcsEntry => {
                if is_exec_c0_exec(b) || b == 0x7f {
                    // dropped
                } else if b == 0x18 || b == 0x1a {
                    self.mode = ParseMode::Ground;
                } else if b == 0x1b {
                    self.mode = ParseMode::Escape;
                } else if 0x20 <= b && b <= 0x2f {
                    self.mode = ParseMode::DcsIntermediate;
                } else if 0x30 <= b && b <= 0x3f {
                    self.mode = ParseMode::DcsParam;
                } else if 0x40 <= b && b <= 0x7e {
                    self.mode = ParseMode::DcsPassthrough;
                }
            },
            ParseMode::DcsParam => {
                if is_exec_c0_exec(b) || b == 0x7f {
                    // dropped
                } else if b == 0x18 || b == 0x1a {
                    self.mode = ParseMode::Ground;
                } else if b == 0x1b {
                    self.mode = ParseMode::Escape;
                } else if 0x20 <= b && b <= 0x2f {
                    self.mode = ParseMode::DcsIntermediate;
                } else if 0x30 <= b && b <= 0x3b {
                    // still the parameter list
                } else if 0x3c <= b && b <= 0x3f {
                    self.mode = ParseMode::DcsIgnore;
                } else if 0x40 <= b && b <= 0x7e {
                    self.mode = ParseMode::DcsPassthrough;
                }
            },
            ParseMode::DcsIntermediate => {
                if is_exec_c0_exec(b) || b == 0x7f {
                    // dropped
                } else if b == 0x18 || b == 0x1a {
                    self.mode = ParseMode::Ground;
                } else if b == 0x1b {
                    self.mode = ParseMode::Escape;
                } else if 0x20 <= b && b <= 0x2f {
                    // still the intermediate bytes
                } else if 0x30 <= b && b <= 0x3f {
                    self.mode = ParseMode::DcsIgnore;
                } else if 0x40 <= b && b <= 0x7e {
                    self.mode = ParseMode::DcsPassthrough;
                }
            },
            ParseMode::DcsPassthrough => {
                if b == 0x18 || b == 0x1a || b == 0x9c {
                    self.mode = ParseMode::Ground;
                } else if b == 0x1b {
                    self.mode = ParseMode::Escape;
                }
            },
            ParseMode::DcsIgnore => {
                if b == 0x18 || b == 0x1a {
                    self.mode = ParseMode::Ground;
                } else if b == 0x1b {
                    self.mode = ParseMode::Escape;
                }
            },
            ParseMode::SosPmApcString => {
                if b == 0x18 || b == 0x1a {
                    self.mode = ParseMode::Ground;
                } else if b == 0x1b {
                    self.mode = ParseMode::Escape;
                }
            },
        }
    }

    /// Handles one byte as the ground state does and returns the next mode.
    fn advance_ground(&self, performer: &mut Performer, b: u8) -> (m: ParseMode)
        ensures
            m == ground_step(b).0,
            final(performer)@ == old(performer)@ + ground_step(b).1,
    {
        if b == 0x1b {
            ParseMode::Escape
        } else if b < 0x20 {
            self.emit_exec(performer, b);
            ParseMode::Ground
        } else if b < 0x80 {
            performer.emit(VteAction::Text(b as char));
            ParseMode::Ground
        } else if b < 0xa0 {
            ParseMode::Ground
        } else if b < 0xc2 {
            performer.emit(VteAction::Text('\u{fffd}'));
            ParseMode::Ground
        } else if b < 0xe0 {
            ParseMode::Utf8Collect {
                codepoint: (b & 0x1f) as u32,
                need: 1,
                next_min: 0x80,
                next_max: 0xbf,
            }
        } else if b == 0xe0 {
            ParseMode::Utf8Collect { codepoint: 0, need: 2, next_min: 0xa0, next_max: 0xbf }
        } else if b == 0xed {
            ParseMode::Utf8Collect {
                codepoint: (b & 0x0f) as u32,
                need: 2,
                next_min: 0x80,
                next_max: 0x9f,
            }
        } else if b < 0xf0 {
            ParseMode::Utf8Collect {
                codepoint: (b & 0x0f) as u32,
                need: 2,
                next_min: 0x80,
                next_max: 0xbf,
            }
        } else if b == 0xf0 {
            ParseMode::Utf8Collect { codepoint: 0, need: 3, next_min: 0x90, next_max: 0xbf }
        } else if b < 0xf4 {
            ParseMode::Utf8Collect {
                codepoint: (b & 0x07) as u32,
                need: 3,
                next_min: 0x80,
                next_max: 0xbf,
            }
        } else if b == 0xf4 {
            ParseMode::Utf8Collect { codepoint: 4, need: 3, next_min: 0x80, next_max: 0x8f }
        } else {
            performer.emit(VteAction::Text('\u{fffd}'));
            ParseMode::Ground
        }
    }

    /// Emits the action of an executed C0 control byte, if any.
    fn emit_exec(&self, performer: &mut Performer, b: u8)
        ensures
            final(performer)@ == old(performer)@ + exec_action(b),
    {
        if b == 9 {
            performer.emit(VteAction::Tab);
        } else if b == 10 {
            performer.emit(VteAction::LineFeed);
        } else if b == 13 {
            performer.emit(VteAction::CarriageReturn);
        }
    }

    /// Emits the action of a dispatched CSI final byte, if any.
    fn emit_csi(&self, performer: &mut Performer, value: u16, fin: u8)
        ensures
            final(performer)@ == old(performer)@ + csi_action(value, fin),
    {
        let n: u16 = if value == 0 {
            1
        } else {
            value
        };
        if fin == 0x41 {
            performer.emit(VteAction::CursorUp(n));
        } else if fin == 0x42 {
            performer.emit(VteAction::CursorDown(n));
        } else if fin == 0x43 {
            performer.emit(VteAction::CursorForward(n));
        } else if fin == 0x44 {
            performer.emit(VteAction::CursorBackward(n));
        } else if fin == 0x45 {
            performer.emit(VteAction::CursorNextLine(n));
        } else if fin == 0x46 {
            performer.emit(VteAction::CursorPreviousLine(n));
        }
    }

    /// Emits the action of a completed multi-byte character.
    fn finish_utf8(&self, performer: &mut Performer, cp: u32)
        ensures
            final(performer)@ == old(performer)@ + utf8_finish(cp),
    {
        match char::from_u32(cp) {
            Some(c) => {
                proof {
                    vstd::utf8::char_u32_cast(c, cp);
                }
                if 0x80 <= cp && cp <= 0x9f {
                    // a C1 control arrived UTF-8 encoded: executed, no action
                } else {
                    performer.emit(VteAction::Text(c));
                }
            },
            None => {
                performer.emit(VteAction::Text('\u{fffd}'));
            },
        }
    }

    /// Interprets a byte buffer: returns the actions it carries, in order, and
    /// keeps the final recognizer state for the next call.
    pub fn parse_bytes(&mut self, bytes: &[u8]) -> (actions: Vec<VteAction>)
        ensures
            final(self)@ == run(old(self)@, bytes@).0,
            actions@ == run(old(self)@, bytes@).1,
    {
        let mut performer = Performer::new();
        let ghost m0 = self.mode;
        let mut i: usize = 0;
        while i < bytes.len()
            invariant
                i <= bytes.len(),
                self@ == run(m0, bytes@.take(i as int)).0,
                performer@ == run(m0, bytes@.take(i as int)).1,
            decreases bytes.len() - i,
        {
            proof {
                lemma_run_snoc(m0, bytes@.take(i as int), bytes@[i as int]);
                assert(bytes@.take(i as int).push(bytes@[i as int]) =~= bytes@.take(i + 1));
            }
            self.advance(&mut performer, bytes[i]);
            i = i + 1;
        }
        proof {
            assert(bytes@.take(bytes@.len() as int) =~= bytes@);
        }
        performer.into_actions()
    }
}

/// A decimal digit appended to a parameter accumulator, saturating at `u16::MAX`.
fn saturating_digit(value: u16, digit: u16) -> (r: u16)
    requires
        digit <= 9,
    ensures
        r == saturating_scale_add(value, digit),
{
    let scaled: u32 = (value as u32) * 10 + (digit as u32);
    if scaled > 0xffff {
        0xffff
    } else {
        scaled as u16
    }
}

/// Whether a byte is a C0 control executed inside an escape sequence.
fn is_exec_c0_exec(b: u8) -> (r: bool)
    ensures
        r == is_exec_c0(b),
{
    b <= 0x17 || b == 0x19 || (0x1c <= b && b <= 0x1f)
}

} // verus!
