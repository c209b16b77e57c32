//! The ANSI escape sequences that select colors, styles and hyperlinks.
use vstd::prelude::*;

use crate::color::Color;
use crate::color_spec::{ColorSpec, ColorSpecView};

verus! {

/// The escape character.
pub const ESC: u8 = 0x1B;
/// `[`, which opens a control sequence after `ESC`.
pub const LEFT_BRACKET: u8 = 0x5B;
/// `]`, which opens an operating system command after `ESC`.
pub const RIGHT_BRACKET: u8 = 0x5D;
/// `m`, which ends a select-graphic-rendition sequence.
pub const LETTER_M: u8 = 0x6D;
/// `;`, the parameter separator.
pub const SEMICOLON: u8 = 0x3B;
/// `\`, which ends an operating system command after `ESC`.
pub const BACKSLASH: u8 = 0x5C;
/// The ASCII digits used in the escape sequences.
pub const DIGIT_0: u8 = 0x30;
pub const DIGIT_1: u8 = 0x31;
pub const DIGIT_2: u8 = 0x32;
pub const DIGIT_3: u8 = 0x33;
pub const DIGIT_4: u8 = 0x34;
pub const DIGIT_5: u8 = 0x35;
pub const DIGIT_8: u8 = 0x38;
pub const DIGIT_9: u8 = 0x39;

/// `ESC [ <code> m`: a select-graphic-rendition sequence with a one digit code.
pub open spec fn sgr(code: u8) -> Seq<u8> {
    seq![ESC, LEFT_BRACKET, code, LETTER_M]
}

/// `ESC [ 0 m`, which resets all colors and styles.
pub open spec fn reset_escape() -> Seq<u8> {
    sgr(DIGIT_0)
}

/// The decimal digits of `n`, without leading zeros (`0` for zero).
pub open spec fn decimal(n: nat) -> Seq<u8>
    decreases n,
{
    if n < 10 {
        seq![(DIGIT_0 + n) as u8]
    } else {
        decimal(n / 10).push((DIGIT_0 + n % 10) as u8)
    }
}

/// The position of one of the eight named colors in the ANSI palette
/// (black 0, red 1, green 2, yellow 3, blue 4, magenta 5, cyan 6, white 7).
pub open spec fn palette_index(c: Color) -> nat {
    match c {
        Color::Black => 0,
        Color::Red => 1,
        Color::Green => 2,
        Color::Yellow => 3,
        Color::Blue => 4,
        Color::Magenta => 5,
        Color::Cyan => 6,
        Color::White => 7,
        _ => 0,
    }
}

/// `ESC [ 3` for a foreground, `ESC [ 4` for a background.
pub open spec fn layer_prefix(fg: bool) -> Seq<u8> {
    seq![ESC, LEFT_BRACKET, if fg { DIGIT_3 } else { DIGIT_4 }]
}

/// `ESC [ 38 ; <mode> ;` (foreground) or `ESC [ 48 ; <mode> ;` (background),
/// the prefix of an extended color: mode 5 selects from 256 colors, mode 2
/// gives red, green and blue.
pub open spec fn extended_prefix(fg: bool, mode: u8) -> Seq<u8> {
    layer_prefix(fg) + seq![DIGIT_8, SEMICOLON, mode, SEMICOLON]
}

/// The escape sequence that sets the foreground (`fg`) or background color
/// to `c`. An intense named color is written as its 256-color code (the
/// palette index plus 8); `intense` has no effect on the other colors.
pub open spec fn color_escape(fg: bool, c: Color, intense: bool) -> Seq<u8> {
    match c {
        Color::Ansi256(n) => extended_prefix(fg, DIGIT_5) + decimal(n as nat) + seq![LETTER_M],
        Color::Rgb(r, g, b) => extended_prefix(fg, DIGIT_2) + decimal(r as nat) + seq![SEMICOLON] + decimal(
            g as nat,
        ) + seq![SEMICOLON] + decimal(b as nat) + seq![LETTER_M],
        _ => if intense {
            extended_prefix(fg, DIGIT_5) + decimal(palette_index(c) + 8) + seq![LETTER_M]
        } else {
            layer_prefix(fg) + seq![(DIGIT_0 + palette_index(c)) as u8, LETTER_M]
        },
    }
}

/// `part` when `on` holds, nothing otherwise.
pub open spec fn if_set(on: bool, part: Seq<u8>) -> Seq<u8> {
    if on {
        part
    } else {
        Seq::<u8>::empty()
    }
}

/// The style part of a specification: a reset if enabled, then bold (1),
/// dimmed (2), italic (3), underline (4) and strikethrough (9) as set.
pub open spec fn style_escape(v: ColorSpecView) -> Seq<u8> {
    if_set(v.reset, reset_escape()) + if_set(v.bold, sgr(DIGIT_1)) + if_set(v.dimmed, sgr(DIGIT_2))
        + if_set(v.italic, sgr(DIGIT_3)) + if_set(v.underline, sgr(DIGIT_4)) + if_set(
        v.strikethrough,
        sgr(DIGIT_9),
    )
}

/// The escape for an optional foreground or background color.
pub open spec fn layer_escape(fg: bool, c: Option<Color>, intense: bool) -> Seq<u8> {
    match c {
        Some(c) => color_escape(fg, c, intense),
        None => Seq::<u8>::empty(),
    }
}

/// What applying a color specification writes: its styles, then the
/// foreground and the background color.
pub open spec fn color_spec_escape(v: ColorSpecView) -> Seq<u8> {
    style_escape(v) + layer_escape(true, v.fg, v.intense) + layer_escape(false, v.bg, v.intense)
}

/// The OSC-8 sequence `ESC ] 8 ; ; <uri> ESC \` that opens a hyperlink to
/// `uri`, or closes the current one when there is none.
pub open spec fn hyperlink_escape(uri: Option<Seq<u8>>) -> Seq<u8> {
    seq![ESC, RIGHT_BRACKET, DIGIT_8, SEMICOLON, SEMICOLON] + match uri {
        Some(u) => u,
        None => Seq::<u8>::empty(),
    } + seq![ESC, BACKSLASH]
}

// ---------------------------------------------------------------------------
// Builders.
// ---------------------------------------------------------------------------

/// Appends `ESC [ <code> m`.
fn push_sgr(out: &mut Vec<u8>, code: u8)
    ensures
        final(out)@ == old(out)@ + sgr(code),
{
    out.push(ESC);
    out.push(LEFT_BRACKET);
    out.push(code);
    out.push(LETTER_M);
}

/// Appends the decimal digits of `n`: the hundreds digit if it is not zero,
/// the tens digit if it or the hundreds digit is not zero, and always the
/// ones digit.
fn push_decimal(out: &mut Vec<u8>, n: u8)
    ensures
        final(out)@ == old(out)@ + decimal(n as nat),
{
    let c1: u8 = (n / 100) % 10;
    let c2: u8 = (n / 10) % 10;
    let c3: u8 = n % 10;
    let mut printed = false;
    if c1 != 0 {
        printed = true;
        out.push(DIGIT_0 + c1);
    }
    if c2 != 0 || printed {
        out.push(DIGIT_0 + c2);
    }
    out.push(DIGIT_0 + c3);
    proof {
        let m: nat = n as nat;
        if m >= 100 {
            assert(decimal(m / 10) == decimal(m / 100).push((DIGIT_0 + (m / 10) % 10) as u8));
            assert(decimal(m / 100) == seq![(DIGIT_0 + m / 100) as u8]);
        } else if m >= 10 {
            assert(decimal(m / 10) == seq![(DIGIT_0 + m / 10) as u8]);
        }
    }
}

/// Appends the prefix of an extended color.
fn push_extended_prefix(out: &mut Vec<u8>, fg: bool, mode: u8)
    ensures
        final(out)@ == old(out)@ + extended_prefix(fg, mode),
{
    out.push(ESC);
    out.push(LEFT_BRACKET);
    out.push(if fg {
        DIGIT_3
    } else {
        DIGIT_4
    });
    out.push(DIGIT_8);
    out.push(SEMICOLON);
    out.push(mode);
    out.push(SEMICOLON);
}

/// The palette index of a named color, as the escape sequences number them.
fn palette_index_exec(c: Color) -> (i: u8)
    ensures
        i == palette_index(c),
{
    match c {
        Color::Black => 0,
        Color::Red => 1,
        Color::Green => 2,
        Color::Yellow => 3,
        Color::Blue => 4,
        Color::Magenta => 5,
        Color::Cyan => 6,
        Color::White => 7,
        _ => 0,
    }
}

/// Appends the escape sequence for a foreground or background color.
pub fn push_color_escape(out: &mut Vec<u8>, fg: bool, c: Color, intense: bool)
    ensures
        final(out)@ == old(out)@ + color_escape(fg, c, intense),
{
    match c {
        Color::Ansi256(n) => {
            push_extended_prefix(out, fg, DIGIT_5);
            push_decimal(out, n);
            out.push(LETTER_M);
        },
        Color::Rgb(r, g, b) => {
            push_extended_prefix(out, fg, DIGIT_2);
            push_decimal(out, r);
            out.push(SEMICOLON);
            push_decimal(out, g);
            out.push(SEMICOLON);
            push_decimal(out, b);
            out.push(LETTER_M);
        },
        _ => {
            let i: u8 = palette_index_exec(c);
            if intense {
                push_extended_prefix(out, fg, DIGIT_5);
                push_decimal(out, i + 8);
                out.push(LETTER_M);
            } else {
                out.push(ESC);
                out.push(LEFT_BRACKET);
                out.push(if fg {
                    DIGIT_3
                } else {
                    DIGIT_4
                });
                out.push(DIGIT_0 + i);
                out.push(LETTER_M);
            }
        },
    }
}

/// The escape sequence for a foreground or background color.
pub fn color_escape_bytes(fg: bool, c: Color, intense: bool) -> (out: Vec<u8>)
    ensures
        out@ == color_escape(fg, c, intense),
{
    let mut out: Vec<u8> = Vec::new();
    push_color_escape(&mut out, fg, c, intense);
    assert(out@ =~= color_escape(fg, c, intense));
    out
}

/// Appends `ESC [ <code> m` when `on` holds.
fn push_sgr_when(out: &mut Vec<u8>, on: bool, code: u8)
    ensures
        final(out)@ == old(out)@ + if_set(on, sgr(code)),
{
    if on {
        push_sgr(out, code);
    } else {
        assert(old(out)@ + if_set(on, sgr(code)) =~= old(out)@);
    }
}

/// Appends the style part of `spec`.
fn push_style_escape(out: &mut Vec<u8>, spec: &ColorSpec)
    ensures
        final(out)@ == old(out)@ + style_escape(spec@),
{
    let ghost v = spec@;
    let ghost s0 = out@;
    push_sgr_when(out, spec.reset(), DIGIT_0);
    let ghost s1 = out@;
    push_sgr_when(out, spec.bold(), DIGIT_1);
    let ghost s2 = out@;
    push_sgr_when(out, spec.dimmed(), DIGIT_2);
    let ghost s3 = out@;
    assert(s3 =~= s0 + (if_set(v.reset, reset_escape()) + if_set(v.bold, sgr(DIGIT_1)) + if_set(
        v.dimmed,
        sgr(DIGIT_2),
    )));
    push_sgr_when(out, spec.italic(), DIGIT_3);
    push_sgr_when(out, spec.underline(), DIGIT_4);
    push_sgr_when(out, spec.strikethrough(), DIGIT_9);
    assert(out@ =~= s0 + style_escape(v));
}

/// Appends the escape for an optional color.
fn push_layer_escape(out: &mut Vec<u8>, fg: bool, c: Option<&Color>, intense: bool)
    ensures
        final(out)@ == old(out)@ + layer_escape(
            fg,
            match c {
                Some(c) => Some(*c),
                None => None,
            },
            intense,
        ),
{
    match c {
        Some(c) => push_color_escape(out, fg, *c, intense),
        None => {
            assert(old(out)@ + Seq::<u8>::empty() =~= old(out)@);
        },
    }
}

/// Appends what applying `spec` writes.
pub fn push_color_spec_escape(out: &mut Vec<u8>, spec: &ColorSpec)
    ensures
        final(out)@ == old(out)@ + color_spec_escape(spec@),
{
    let ghost v = spec@;
    let ghost s0 = out@;
    let ghost a = style_escape(v);
    let ghost b = layer_escape(true, v.fg, v.intense);
    let ghost c = layer_escape(false, v.bg, v.intense);
    push_style_escape(out, spec);
    let fg = spec.fg();
    assert(match fg { Some(x) => Some(*x), None => None } == v.fg);
    push_layer_escape(out, true, fg, spec.intense());
    let bg = spec.bg();
    assert(match bg { Some(x) => Some(*x), None => None } == v.bg);
    push_layer_escape(out, false, bg, spec.intense());
    assert(out@ =~= s0 + (a + b + c));
}

/// What applying `spec` writes.
pub fn color_spec_escape_bytes(spec: &ColorSpec) -> (out: Vec<u8>)
    ensures
        out@ == color_spec_escape(spec@),
{
    let mut out: Vec<u8> = Vec::new();
    push_color_spec_escape(&mut out, spec);
    assert(out@ =~= color_spec_escape(spec@));
    out
}

/// Appends `ESC [ 0 m`.
pub fn push_reset_escape(out: &mut Vec<u8>)
    ensures
        final(out)@ == old(out)@ + reset_escape(),
{
    push_sgr(out, DIGIT_0);
}

/// Appends the hyperlink sequence for `uri`.
pub fn push_hyperlink_escape(out: &mut Vec<u8>, uri: Option<&[u8]>)
    ensures
        final(out)@ == old(out)@ + hyperlink_escape(
            match uri {
                Some(u) => Some(u@),
                None => None,
            },
        ),
{
    let ghost start = out@;
    out.push(ESC);
    out.push(RIGHT_BRACKET);
    out.push(DIGIT_8);
    out.push(SEMICOLON);
    out.push(SEMICOLON);
    let ghost opened = out@;
    if let Some(u) = uri {
        push_slice(out, u);
    }
    let ghost linked = out@;
    out.push(ESC);
    out.push(BACKSLASH);
    assert(out@ =~= linked + seq![ESC, BACKSLASH]);
    assert(opened =~= start + seq![ESC, RIGHT_BRACKET, DIGIT_8, SEMICOLON, SEMICOLON]);
}

/// Appends the bytes of `bytes`.
pub fn push_slice(out: &mut Vec<u8>, bytes: &[u8])
    ensures
        final(out)@ == old(out)@ + bytes@,
{
    let ghost start = out@;
    let mut i: usize = 0;
    while i < bytes.len()
        invariant
            i <= bytes@.len(),
            out@ == start + bytes@.take(i as int),
        decreases bytes@.len() - i,
    {
        out.push(bytes[i]);
        assert(bytes@.take(i + 1) == bytes@.take(i as int).push(bytes@[i as int]));
        i = i + 1;
    }
    assert(bytes@.take(bytes@.len() as int) == bytes@);
}

} // verus!
