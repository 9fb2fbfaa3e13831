//! Emission of the byte sequences the renderer writes: decimal numbers and
//! the small set of ANSI control sequences the output protocol uses
//! (cursor-column-absolute, cursor up/down/right by N, erase to end of
//! screen, and a foreground color around the expand/collapse indicator).

use vstd::prelude::*;

verus! {

/// The decimal digits of `n`, most significant first.
pub open spec fn dec_digits(n: u64) -> Seq<u8>
    decreases n,
{
    if n < 10 {
        seq![(0x30 + n) as u8]
    } else {
        dec_digits(n / 10).push((0x30 + n % 10) as u8)
    }
}

/// A CSI sequence with one numeric parameter: `ESC [ n fin`.
pub open spec fn csi_seq(n: u64, fin: u8) -> Seq<u8> {
    seq![0x1bu8, 0x5bu8] + dec_digits(n) + seq![fin]
}

/// `ESC [ J`: erase from the cursor to the end of the screen.
pub open spec fn clear_down_seq() -> Seq<u8> {
    seq![0x1bu8, 0x5bu8, 0x4au8]
}

/// `ESC [ 1 G`: move the cursor to the leftmost column.
pub open spec fn column_zero_seq() -> Seq<u8> {
    csi_seq(1, 0x47)
}

/// `CR LF`: the line break between panel lines.
pub open spec fn crlf() -> Seq<u8> {
    seq![0x0du8, 0x0au8]
}

/// The selection marker before a panel line: `"> "` for the selected output,
/// `"  "` for the others.
pub open spec fn marker_bytes(selected: bool) -> Seq<u8> {
    if selected {
        seq![0x3eu8, 0x20u8]
    } else {
        seq![0x20u8, 0x20u8]
    }
}

/// The expand/collapse indicator: `+++` in yellow for an expanded output,
/// `---` in green for a collapsed one, the color set and reset around it.
pub open spec fn indicator_bytes(expanded: bool) -> Seq<u8> {
    if expanded {
        seq![
            0x1bu8,
            0x5bu8,
            0x33u8,
            0x38u8,
            0x3bu8,
            0x35u8,
            0x3bu8,
            0x31u8,
            0x31u8,
            0x6du8,
            0x2bu8,
            0x2bu8,
            0x2bu8,
            0x1bu8,
            0x5bu8,
            0x33u8,
            0x39u8,
            0x6du8,
        ]
    } else {
        seq![
            0x1bu8,
            0x5bu8,
            0x33u8,
            0x38u8,
            0x3bu8,
            0x35u8,
            0x3bu8,
            0x31u8,
            0x30u8,
            0x6du8,
            0x2du8,
            0x2du8,
            0x2du8,
            0x1bu8,
            0x5bu8,
            0x33u8,
            0x39u8,
            0x6du8,
        ]
    }
}

/// The spaces that right-align a seconds count to at least three columns.
pub open spec fn pad3(n: u64) -> Seq<u8> {
    if n < 10 {
        seq![0x20u8, 0x20u8]
    } else if n < 100 {
        seq![0x20u8]
    } else {
        Seq::empty()
    }
}

/// Appends a byte slice.
pub(crate) fn push_bytes(out: &mut Vec<u8>, s: &[u8])
    ensures
        final(out)@ == old(out)@ + s@,
{
    let mut i: usize = 0;
    while i < s.len()
        invariant
            i <= s.len(),
            out@ == old(out)@ + s@.take(i as int),
        decreases s.len() - i,
    {
        proof {
            assert((old(out)@ + s@.take(i as int)).push(s@[i as int]) =~= old(out)@ + s@.take(
                i + 1,
            ));
        }
        out.push(s[i]);
        i = i + 1;
    }
    proof {
        assert(s@.take(s@.len() as int) =~= s@);
    }
}

/// Appends one byte, as a concatenation fact.
pub(crate) fn push_byte(out: &mut Vec<u8>, b: u8)
    ensures
        final(out)@ == old(out)@ + seq![b],
{
    out.push(b);
    proof {
        assert(out@ =~= old(out)@ + seq![b]);
    }
}

/// Appends two bytes, as a concatenation fact.
pub(crate) fn push_byte2(out: &mut Vec<u8>, b1: u8, b2: u8)
    ensures
        final(out)@ == old(out)@ + seq![b1, b2],
{
    out.push(b1);
    out.push(b2);
    proof {
        assert(out@ =~= old(out)@ + seq![b1, b2]);
    }
}

/// Appends the decimal digits of `n`.
pub(crate) fn push_dec(out: &mut Vec<u8>, n: u64)
    ensures
        final(out)@ == old(out)@ + dec_digits(n),
    decreases n,
{
    if n < 10 {
        out.push(0x30 + n as u8);
        proof {
            assert(old(out)@.push((0x30 + n) as u8) =~= old(out)@ + dec_digits(n));
        }
    } else {
        push_dec(out, n / 10);
        out.push(0x30 + (n % 10) as u8);
        proof {
            assert((old(out)@ + dec_digits(n / 10)).push((0x30 + n % 10) as u8) =~= old(out)@
                + dec_digits(n));
        }
    }
}

/// Appends `ESC [ n fin`.
pub(crate) fn push_csi(out: &mut Vec<u8>, n: u64, fin: u8)
    ensures
        final(out)@ == old(out)@ + csi_seq(n, fin),
{
    out.push(0x1b);
    out.push(0x5b);
    push_dec(out, n);
    out.push(fin);
    proof {
        assert(old(out)@.push(0x1bu8).push(0x5bu8) + dec_digits(n) =~= old(out)@ + (seq![
            0x1bu8,
            0x5bu8,
        ] + dec_digits(n)));
        assert((old(out)@ + (seq![0x1bu8, 0x5bu8] + dec_digits(n))).push(fin) =~= old(out)@
            + csi_seq(n, fin));
    }
}

/// Appends the selection marker.
pub(crate) fn push_marker(out: &mut Vec<u8>, selected: bool)
    ensures
        final(out)@ == old(out)@ + marker_bytes(selected),
{
    if selected {
        out.push(0x3e);
    } else {
        out.push(0x20);
    }
    out.push(0x20);
    proof {
        assert(out@ =~= old(out)@ + marker_bytes(selected));
    }
}

/// Appends the expand/collapse indicator.
pub(crate) fn push_indicator(out: &mut Vec<u8>, expanded: bool)
    ensures
        final(out)@ == old(out)@ + indicator_bytes(expanded),
{
    out.push(0x1b);
    out.push(0x5b);
    out.push(0x33);
    out.push(0x38);
    out.push(0x3b);
    out.push(0x35);
    out.push(0x3b);
    out.push(0x31);
    if expanded {
        out.push(0x31);
    } else {
        out.push(0x30);
    }
    out.push(0x6d);
    let glyph: u8 = if expanded {
        0x2b
    } else {
        0x2d
    };
    out.push(glyph);
    out.push(glyph);
    out.push(glyph);
    out.push(0x1b);
    out.push(0x5b);
    out.push(0x33);
    out.push(0x39);
    out.push(0x6d);
    proof {
        assert(out@ =~= old(out)@ + indicator_bytes(expanded));
    }
}

/// Appends the spaces that right-align a seconds count to three columns.
pub(crate) fn push_pad3(out: &mut Vec<u8>, n: u64)
    ensures
        final(out)@ == old(out)@ + pad3(n),
{
    if n < 10 {
        out.push(0x20);
        out.push(0x20);
    } else if n < 100 {
        out.push(0x20);
    }
    proof {
        assert(out@ =~= old(out)@ + pad3(n));
    }
}

/// Appends `CR LF`.
pub(crate) fn push_crlf(out: &mut Vec<u8>)
    ensures
        final(out)@ == old(out)@ + crlf(),
{
    out.push(0x0d);
    out.push(0x0a);
    proof {
        assert(out@ =~= old(out)@ + crlf());
    }
}

/// Appends `ESC [ J`.
pub(crate) fn push_clear_down(out: &mut Vec<u8>)
    ensures
        final(out)@ == old(out)@ + clear_down_seq(),
{
    out.push(0x1b);
    out.push(0x5b);
    out.push(0x4a);
    proof {
        assert(old(out)@.push(0x1bu8).push(0x5bu8).push(0x4au8) =~= old(out)@ + clear_down_seq());
    }
}

} // verus!
