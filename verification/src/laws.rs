//! Properties that hold across the library's functions.
use vstd::prelude::*;

use crate::color::{
    digit_value, digits_value, lemma_split_nonempty, parse_number, parse_numeric, parse_u8_radix, split_commas, Color,
};
use crate::buffer::{print_output, Buffer};
use crate::writer::{Ansi, HyperlinkSpec, WriteColor};
use crate::choice::{attempts_color, dumb_value, zero_value, ColorChoice, ColorEnvView};
use crate::color_spec::{has_no_style, ColorSpecView};
use crate::escape::{
    color_escape, color_spec_escape, decimal, hyperlink_escape, extended_prefix, layer_escape, layer_prefix,
    palette_index, reset_escape, sgr, style_escape, if_set, DIGIT_0, DIGIT_1, DIGIT_2, DIGIT_3, DIGIT_4, DIGIT_5, DIGIT_9, ESC, LEFT_BRACKET,
    LETTER_M, SEMICOLON,
};

verus! {

// ---------------------------------------------------------------------------
// Numbers in the color syntax.
// ---------------------------------------------------------------------------

/// The character of a digit below 16: `0-9`, then `a-f`.
pub open spec fn digit_char(d: nat) -> char {
    if d < 10 {
        (0x30 + d) as char
    } else {
        (0x61 + d - 10) as char
    }
}

/// The numeral of `n` in `radix`, without leading zeros.
pub open spec fn numeral(n: nat, radix: nat) -> Seq<char>
    decreases n,
{
    if radix < 2 || n < radix {
        seq![digit_char(n)]
    } else {
        proof {
            assert(n / radix < n) by (nonlinear_arith)
                requires
                    radix >= 2,
                    n >= radix,
            ;
        }
        numeral(n / radix, radix).push(digit_char(n % radix))
    }
}

/// The characters of ASCII bytes.
pub open spec fn ascii_chars(b: Seq<u8>) -> Seq<char> {
    b.map_values(|x: u8| x as char)
}

/// A comma separated triple of numbers.
pub open spec fn triple_text(a: Seq<char>, b: Seq<char>, c: Seq<char>) -> Seq<char> {
    a.push(',') + b.push(',') + c
}

proof fn lemma_digit_char_value(d: nat)
    requires
        d < 16,
    ensures
        digit_value(digit_char(d)) == d,
{
}

proof fn lemma_numeral_value(n: nat, radix: nat)
    requires
        radix == 10 || radix == 16,
    ensures
        digits_value(numeral(n, radix), radix) == Some(n),
        numeral(n, radix).len() >= 1,
        forall|i: int|
            0 <= i < numeral(n, radix).len() ==> digit_value(#[trigger] numeral(n, radix)[i])
                < radix,
    decreases n,
{
    let s = numeral(n, radix);
    if n < radix {
        lemma_digit_char_value(n);
        assert(s.drop_last() == Seq::<char>::empty());
        assert(digits_value(Seq::<char>::empty(), radix) == Some(0nat));
        assert(0 * radix + n == n);
    } else {
        let q: nat = n / radix;
        let r: nat = n % radix;
        assert(q < n && r < radix && n == q * radix + r) by (nonlinear_arith)
            requires
                radix == 10 || radix == 16,
                n >= radix,
                q == n / radix,
                r == n % radix,
        ;
        lemma_numeral_value(q, radix);
        lemma_digit_char_value(r);
        assert(s.drop_last() == numeral(q, radix));
        assert forall|i: int| 0 <= i < s.len() implies digit_value(#[trigger] s[i]) < radix by {
            if i < s.len() - 1 {
                assert(s[i] == numeral(q, radix)[i]);
            }
        }
    }
}

proof fn lemma_no_comma_in_digits(s: Seq<char>, radix: nat)
    requires
        radix <= 16,
        forall|i: int| 0 <= i < s.len() ==> digit_value(#[trigger] s[i]) < radix,
    ensures
        !s.contains(','),
{
    if s.contains(',') {
        let i: int = choose|i: int| 0 <= i < s.len() && s[i] == ',';
        assert(digit_value(s[i]) < radix);
    }
}

/// An 8-bit number written in decimal, or in hexadecimal after `0x`, reads
/// back as itself, and neither form holds a comma.
pub proof fn lemma_numerals_read_back(n: u8)
    ensures
        parse_number(numeral(n as nat, 10)) == Some(n),
        parse_number(seq!['0', 'x'] + numeral(n as nat, 16)) == Some(n),
        !numeral(n as nat, 10).contains(','),
        !(seq!['0', 'x'] + numeral(n as nat, 16)).contains(','),
{
    let d = numeral(n as nat, 10);
    let h = numeral(n as nat, 16);
    lemma_numeral_value(n as nat, 10);
    lemma_numeral_value(n as nat, 16);
    assert(digit_value(d[0]) < 10);
    assert(d[0] != '+');
    if d.len() >= 2 {
        assert(digit_value(d[1]) < 10);
    }
    assert(parse_u8_radix(d, 10) == Some(n));
    let x = seq!['0', 'x'] + h;
    assert(x.skip(2) == h);
    assert(digit_value(h[0]) < 16);
    assert(parse_u8_radix(h, 16) == Some(n));
    lemma_no_comma_in_digits(d, 10);
    lemma_no_comma_in_digits(h, 16);
    if x.contains(',') {
        let i: int = choose|i: int| 0 <= i < x.len() && x[i] == ',';
        if i >= 2 {
            assert(h[i - 2] == x[i]);
        }
    }
}

proof fn lemma_split_comma_free(s: Seq<char>)
    requires
        !s.contains(','),
    ensures
        split_commas(s) == seq![s],
    decreases s.len(),
{
    if s.len() > 0 {
        let p = s.drop_last();
        assert(!p.contains(',')) by {
            if p.contains(',') {
                let i: int = choose|i: int| 0 <= i < p.len() && p[i] == ',';
                assert(s[i] == ',');
            }
        }
        lemma_split_comma_free(p);
        assert(s.last() != ',') by {
            assert(s[s.len() - 1] == s.last());
        }
        assert(p.push(s.last()) == s);
    } else {
        assert(s == Seq::<char>::empty());
    }
}

proof fn lemma_split_append_comma_free(p: Seq<char>, t: Seq<char>)
    requires
        !t.contains(','),
    ensures
        split_commas(p).len() >= 1,
        split_commas(p + t) == split_commas(p).update(
            split_commas(p).len() - 1,
            split_commas(p).last() + t,
        ),
    decreases t.len(),
{
    lemma_split_nonempty(p);
    let sp = split_commas(p);
    if t.len() == 0 {
        assert(p + t == p);
        assert(sp.last() + t == sp.last());
        assert(sp.update(sp.len() - 1, sp.last()) == sp);
    } else {
        let t0 = t.drop_last();
        let x = t.last();
        assert(!t0.contains(',')) by {
            if t0.contains(',') {
                let i: int = choose|i: int| 0 <= i < t0.len() && t0[i] == ',';
                assert(t[i] == ',');
            }
        }
        assert(x != ',') by {
            assert(t[t.len() - 1] == x);
        }
        lemma_split_append_comma_free(p, t0);
        assert((p + t).drop_last() == p + t0);
        assert((p + t).last() == x);
        let prev = split_commas(p + t0);
        assert(prev.last() == sp.last() + t0);
        assert((sp.last() + t0).push(x) == sp.last() + t);
        assert(split_commas(p + t) == prev.update(prev.len() - 1, prev.last().push(x)));
        assert(split_commas(p + t) =~= sp.update(sp.len() - 1, sp.last() + t));
    }
}

/// A single comma-free number is read as an `Ansi256` color.
pub proof fn lemma_single_number_is_ansi256(a: Seq<char>, n: u8)
    requires
        !a.contains(','),
        parse_number(a) == Some(n),
    ensures
        parse_numeric(a) == Ok::<Color, crate::color::ParseColorErrorKind>(Color::Ansi256(n)),
{
    lemma_split_comma_free(a);
}

proof fn lemma_split_then_comma(p: Seq<char>)
    ensures
        split_commas(p.push(',')) == split_commas(p).push(Seq::<char>::empty()),
{
    assert(p.push(',').drop_last() == p);
}

proof fn lemma_split_triple(a: Seq<char>, b: Seq<char>, c: Seq<char>)
    requires
        !a.contains(','),
        !b.contains(','),
        !c.contains(','),
    ensures
        split_commas(triple_text(a, b, c)) == seq![a, b, c],
{
    let e = Seq::<char>::empty();
    lemma_split_comma_free(a);
    let s1 = a.push(',');
    lemma_split_then_comma(a);
    assert(split_commas(s1) =~= seq![a, e]);
    lemma_split_append_comma_free(s1, b);
    assert(e + b == b);
    assert(split_commas(s1 + b) =~= seq![a, b]);
    let s2 = (s1 + b).push(',');
    lemma_split_then_comma(s1 + b);
    assert(split_commas(s2) =~= seq![a, b, e]);
    lemma_split_append_comma_free(s2, c);
    assert(e + c == c);
    assert(split_commas(s2 + c) =~= seq![a, b, c]);
    assert(triple_text(a, b, c) =~= s2 + c);
}

/// Three comma-free numbers joined by commas are read as an `Rgb` color.
pub proof fn lemma_triple_is_rgb(a: Seq<char>, b: Seq<char>, c: Seq<char>, r: u8, g: u8, bl: u8)
    requires
        !a.contains(','),
        !b.contains(','),
        !c.contains(','),
        parse_number(a) == Some(r),
        parse_number(b) == Some(g),
        parse_number(c) == Some(bl),
    ensures
        parse_numeric(triple_text(a, b, c)) == Ok::<Color, crate::color::ParseColorErrorKind>(
            Color::Rgb(r, g, bl),
        ),
{
    lemma_split_triple(a, b, c);
}

/// The decimal digits that the escape sequences use are the decimal numeral.
pub proof fn lemma_escape_decimal_is_numeral(n: nat)
    ensures
        ascii_chars(decimal(n)) == numeral(n, 10),
    decreases n,
{
    if n >= 10 {
        lemma_escape_decimal_is_numeral(n / 10);
        assert(ascii_chars(decimal(n)) =~= ascii_chars(decimal(n / 10)).push(
            digit_char(n % 10),
        ));
    } else {
        assert(ascii_chars(decimal(n)) =~= seq![digit_char(n)]);
    }
}

/// Every 256-color code and every RGB triple that the escape sequences
/// write in decimal reads back, in the color syntax, as the same color.
pub proof fn lemma_written_numbers_read_back(n: u8, r: u8, g: u8, b: u8)
    ensures
        parse_numeric(ascii_chars(decimal(n as nat))) == Ok::<
            Color,
            crate::color::ParseColorErrorKind,
        >(Color::Ansi256(n)),
        parse_numeric(
            triple_text(
                ascii_chars(decimal(r as nat)),
                ascii_chars(decimal(g as nat)),
                ascii_chars(decimal(b as nat)),
            ),
        ) == Ok::<Color, crate::color::ParseColorErrorKind>(Color::Rgb(r, g, b)),
{
    lemma_escape_decimal_is_numeral(n as nat);
    lemma_escape_decimal_is_numeral(r as nat);
    lemma_escape_decimal_is_numeral(g as nat);
    lemma_escape_decimal_is_numeral(b as nat);
    lemma_numerals_read_back(n);
    lemma_numerals_read_back(r);
    lemma_numerals_read_back(g);
    lemma_numerals_read_back(b);
    lemma_single_number_is_ansi256(numeral(n as nat, 10), n);
    lemma_triple_is_rgb(
        numeral(r as nat, 10),
        numeral(g as nat, 10),
        numeral(b as nat, 10),
        r,
        g,
        b,
    );
}

// ---------------------------------------------------------------------------
// Escape sequences.
// ---------------------------------------------------------------------------

/// For a specification without colors or styles, applying it writes a reset
/// when reset is enabled, and nothing at all otherwise.
pub proof fn lemma_plain_spec_output(v: ColorSpecView)
    requires
        has_no_style(v),
    ensures
        color_spec_escape(v) == if_set(v.reset, reset_escape()),
{
    let e = Seq::<u8>::empty();
    assert(style_escape(v) =~= if_set(v.reset, reset_escape()));
    assert(layer_escape(true, v.fg, v.intense) == e);
    assert(layer_escape(false, v.bg, v.intense) == e);
    assert(color_spec_escape(v) =~= if_set(v.reset, reset_escape()));
}

proof fn lemma_take_of_longer_prefix(x: Seq<u8>, y: Seq<u8>, n: int)
    requires
        0 <= n <= x.len(),
    ensures
        (x + y).take(n) == x.take(n),
        (x + y).len() >= n,
{
    assert((x + y).take(n) =~= x.take(n));
}

/// When reset is enabled, applying a specification writes the reset first.
pub proof fn lemma_reset_comes_first(v: ColorSpecView)
    requires
        v.reset,
    ensures
        color_spec_escape(v).take(4) == reset_escape(),
{
    let r = reset_escape();
    let s1 = r + if_set(v.bold, sgr(DIGIT_1));
    let s2 = s1 + if_set(v.dimmed, sgr(DIGIT_2));
    let s3 = s2 + if_set(v.italic, sgr(DIGIT_3));
    let s4 = s3 + if_set(v.underline, sgr(DIGIT_4));
    let s5 = s4 + if_set(v.strikethrough, sgr(DIGIT_9));
    let s6 = s5 + layer_escape(true, v.fg, v.intense);
    let s7 = s6 + layer_escape(false, v.bg, v.intense);
    assert(r.take(4) =~= r);
    lemma_take_of_longer_prefix(r, if_set(v.bold, sgr(DIGIT_1)), 4);
    lemma_take_of_longer_prefix(s1, if_set(v.dimmed, sgr(DIGIT_2)), 4);
    lemma_take_of_longer_prefix(s2, if_set(v.italic, sgr(DIGIT_3)), 4);
    lemma_take_of_longer_prefix(s3, if_set(v.underline, sgr(DIGIT_4)), 4);
    lemma_take_of_longer_prefix(s4, if_set(v.strikethrough, sgr(DIGIT_9)), 4);
    lemma_take_of_longer_prefix(s5, layer_escape(true, v.fg, v.intense), 4);
    lemma_take_of_longer_prefix(s6, layer_escape(false, v.bg, v.intense), 4);
    assert(style_escape(v) == s5);
    assert(color_spec_escape(v) == s7);
}

/// A byte that may stand between `ESC [` and `m`: a digit or `;`.
pub open spec fn is_parameter_byte(b: u8) -> bool {
    (DIGIT_0 <= b && b <= DIGIT_9) || b == SEMICOLON
}

/// Whether `e` is one select-graphic-rendition sequence: `ESC [`, then
/// digits and semicolons, then `m`.
pub open spec fn is_sgr_sequence(e: Seq<u8>) -> bool {
    &&& e.len() >= 3
    &&& e[0] == ESC
    &&& e[1] == LEFT_BRACKET
    &&& e[e.len() - 1] == LETTER_M
    &&& forall|i: int| 2 <= i < e.len() - 1 ==> is_parameter_byte(#[trigger] e[i])
}

proof fn lemma_decimal_digits(n: nat)
    ensures
        decimal(n).len() >= 1,
        forall|i: int| 0 <= i < decimal(n).len() ==> is_parameter_byte(#[trigger] decimal(n)[i]),
    decreases n,
{
    if n >= 10 {
        lemma_decimal_digits(n / 10);
        let d = decimal(n);
        assert forall|i: int| 0 <= i < d.len() implies is_parameter_byte(#[trigger] d[i]) by {
            if i < d.len() - 1 {
                assert(d[i] == decimal(n / 10)[i]);
            }
        }
    }
}

proof fn lemma_parameters_then_m(p: Seq<u8>, params: Seq<u8>)
    requires
        p.len() >= 2,
        p[0] == ESC,
        p[1] == LEFT_BRACKET,
        forall|i: int| 2 <= i < p.len() ==> is_parameter_byte(#[trigger] p[i]),
        forall|i: int| 0 <= i < params.len() ==> is_parameter_byte(#[trigger] params[i]),
    ensures
        is_sgr_sequence(p + params.push(LETTER_M)),
{
    let e = p + params.push(LETTER_M);
    assert(e.len() == p.len() + params.len() + 1);
    assert forall|i: int| 2 <= i < e.len() - 1 implies is_parameter_byte(#[trigger] e[i]) by {
        if i < p.len() {
            assert(e[i] == p[i]);
        } else {
            assert(e[i] == params[i - p.len()]);
        }
    }
}

/// Every color escape is a single select-graphic-rendition sequence, so a
/// terminal reads it as one instruction and no byte of it leaks as text.
pub proof fn lemma_color_escape_is_one_sequence(fg: bool, c: Color, intense: bool)
    ensures
        is_sgr_sequence(color_escape(fg, c, intense)),
{
    let lp = layer_prefix(fg);
    assert(is_parameter_byte(lp[2]));
    match c {
        Color::Ansi256(n) => {
            let p = extended_prefix(fg, DIGIT_5);
            lemma_decimal_digits(n as nat);
            lemma_parameters_then_m(p, decimal(n as nat));
            assert(color_escape(fg, c, intense) =~= p + decimal(n as nat).push(LETTER_M));
        },
        Color::Rgb(r, g, b) => {
            let p = extended_prefix(fg, DIGIT_2);
            lemma_decimal_digits(r as nat);
            lemma_decimal_digits(g as nat);
            lemma_decimal_digits(b as nat);
            let params = decimal(r as nat) + seq![SEMICOLON] + decimal(g as nat) + seq![SEMICOLON]
                + decimal(b as nat);
            assert forall|i: int| 0 <= i < params.len() implies is_parameter_byte(
                #[trigger] params[i],
            ) by {
                let lr: int = decimal(r as nat).len() as int;
                let lg: int = decimal(g as nat).len() as int;
                if i < lr {
                    assert(params[i] == decimal(r as nat)[i]);
                } else if i == lr {
                } else if i < lr + 1 + lg {
                    assert(params[i] == decimal(g as nat)[i - lr - 1]);
                } else if i == lr + 1 + lg {
                } else {
                    assert(params[i] == decimal(b as nat)[i - lr - 2 - lg]);
                }
            }
            lemma_parameters_then_m(p, params);
            assert(color_escape(fg, c, intense) =~= p + params.push(LETTER_M));
        },
        _ => {
            if intense {
                let p = extended_prefix(fg, DIGIT_5);
                lemma_decimal_digits(palette_index(c) + 8);
                lemma_parameters_then_m(p, decimal(palette_index(c) + 8));
                assert(color_escape(fg, c, intense) =~= p + decimal(palette_index(c) + 8).push(
                    LETTER_M,
                ));
            } else {
                let params = seq![(DIGIT_0 + palette_index(c)) as u8];
                lemma_parameters_then_m(lp, params);
                assert(color_escape(fg, c, intense) =~= lp + params.push(LETTER_M));
            }
        },
    }
}

/// The position of each of the eight named colors in the standard ANSI
/// palette: black 0, red 1, green 2, yellow 3, blue 4, magenta 5, cyan 6,
/// white 7.
pub open spec fn standard_palette(c: Color) -> Option<nat> {
    match c {
        Color::Black => Some(0),
        Color::Red => Some(1),
        Color::Green => Some(2),
        Color::Yellow => Some(3),
        Color::Blue => Some(4),
        Color::Magenta => Some(5),
        Color::Cyan => Some(6),
        Color::White => Some(7),
        _ => None,
    }
}

/// The ASCII decimal digits of a number below 100.
pub open spec fn two_digit_text(n: nat) -> Seq<u8> {
    if n < 10 {
        seq![(0x30 + n) as u8]
    } else {
        seq![(0x30 + n / 10) as u8, (0x30 + n % 10) as u8]
    }
}

/// A named color at palette position `i` is written as `ESC [ 3i m`
/// (foreground) or `ESC [ 4i m` (background); intense, as the 256-color
/// code `8 + i`: `ESC [ 38;5;N m` or `ESC [ 48;5;N m`.
pub proof fn lemma_named_color_escapes(fg: bool, c: Color)
    requires
        standard_palette(c) is Some,
    ensures
        ({
            let i = standard_palette(c)->Some_0;
            let layer: u8 = if fg {
                0x33u8
            } else {
                0x34u8
            };
            &&& color_escape(fg, c, false) == seq![0x1Bu8, 0x5Bu8, layer, (0x30 + i) as u8, 0x6Du8]
            &&& color_escape(fg, c, true) == seq![
                0x1Bu8,
                0x5Bu8,
                layer,
                0x38u8,
                0x3Bu8,
                0x35u8,
                0x3Bu8,
            ] + two_digit_text(i + 8) + seq![0x6Du8]
        }),
{
    let i = standard_palette(c)->Some_0;
    assert(palette_index(c) == i);
    let n: nat = i + 8;
    if n >= 10 {
        assert(decimal(n) == decimal(n / 10).push((DIGIT_0 + n % 10) as u8));
        assert(decimal(n / 10) == seq![(DIGIT_0 + n / 10) as u8]);
    }
    assert(decimal(n) =~= two_digit_text(n));
    assert(layer_prefix(fg) + seq![(DIGIT_0 + i) as u8, LETTER_M] =~= seq![
        0x1Bu8,
        0x5Bu8,
        if fg {
            0x33u8
        } else {
            0x34u8
        },
        (0x30 + i) as u8,
        0x6Du8,
    ]);
    assert(extended_prefix(fg, DIGIT_5) =~= seq![
        0x1Bu8,
        0x5Bu8,
        if fg {
            0x33u8
        } else {
            0x34u8
        },
        0x38u8,
        0x3Bu8,
        0x35u8,
        0x3Bu8,
    ]);
}

/// `ESC [ k m` for a one digit code `k`.
pub open spec fn style_code(k: nat) -> Seq<u8> {
    seq![0x1Bu8, 0x5Bu8, (0x30 + k) as u8, 0x6Du8]
}

/// `ESC [ k m` when `on` holds, nothing otherwise.
pub open spec fn style_code_if(on: bool, k: nat) -> Seq<u8> {
    if on {
        style_code(k)
    } else {
        Seq::<u8>::empty()
    }
}

/// Applying a specification writes, in this order, `ESC [ 0 m` if reset
/// is enabled, `ESC [ 1 m` if bold, `ESC [ 2 m` if dimmed, `ESC [ 3 m` if
/// italic, `ESC [ 4 m` if underlined and `ESC [ 9 m` if struck through,
/// each exactly when its own flag is set, then the foreground color, then
/// the background color, each only when set.
pub proof fn lemma_style_codes(v: ColorSpecView)
    ensures
        color_spec_escape(v) == style_code_if(v.reset, 0) + style_code_if(v.bold, 1)
            + style_code_if(v.dimmed, 2) + style_code_if(v.italic, 3) + style_code_if(
            v.underline,
            4,
        ) + style_code_if(v.strikethrough, 9) + match v.fg {
            Some(c) => color_escape(true, c, v.intense),
            None => Seq::<u8>::empty(),
        } + match v.bg {
            Some(c) => color_escape(false, c, v.intense),
            None => Seq::<u8>::empty(),
        },
{
    assert(if_set(v.reset, reset_escape()) =~= style_code_if(v.reset, 0));
    assert(if_set(v.bold, sgr(DIGIT_1)) =~= style_code_if(v.bold, 1));
    assert(if_set(v.dimmed, sgr(DIGIT_2)) =~= style_code_if(v.dimmed, 2));
    assert(if_set(v.italic, sgr(DIGIT_3)) =~= style_code_if(v.italic, 3));
    assert(if_set(v.underline, sgr(DIGIT_4)) =~= style_code_if(v.underline, 4));
    assert(if_set(v.strikethrough, sgr(DIGIT_9)) =~= style_code_if(v.strikethrough, 9));
}

/// A specification with only reset and strikethrough set writes exactly
/// `ESC [ 0 m ESC [ 9 m`; with strikethrough cleared, exactly `ESC [ 0 m`.
pub proof fn lemma_strikethrough_alone(v: ColorSpecView)
    requires
        v.reset,
        !v.bold,
        !v.dimmed,
        !v.italic,
        !v.underline,
        v.fg is None,
        v.bg is None,
    ensures
        color_spec_escape(v) == if v.strikethrough {
            seq![0x1Bu8, 0x5Bu8, 0x30u8, 0x6Du8, 0x1Bu8, 0x5Bu8, 0x39u8, 0x6Du8]
        } else {
            seq![0x1Bu8, 0x5Bu8, 0x30u8, 0x6Du8]
        },
{
    lemma_style_codes(v);
    assert(color_spec_escape(v) =~= if v.strikethrough {
        seq![0x1Bu8, 0x5Bu8, 0x30u8, 0x6Du8, 0x1Bu8, 0x5Bu8, 0x39u8, 0x6Du8]
    } else {
        seq![0x1Bu8, 0x5Bu8, 0x30u8, 0x6Du8]
    });
}

// ---------------------------------------------------------------------------
// Buffers and writers.
// ---------------------------------------------------------------------------

/// Applying a specification to an ANSI buffer appends exactly what applying
/// it to an `Ansi` writer over the same bytes appends, for every
/// specification, including one without colors or styles; a no-color
/// buffer's bytes stay as they are.
pub proof fn lemma_buffer_colors_like_writers(
    b: Buffer,
    b_after: Buffer,
    a: Ansi<Vec<u8>>,
    a_after: Ansi<Vec<u8>>,
    spec: ColorSpecView,
    rb: Result<(), std::io::Error>,
    ra: Result<(), std::io::Error>,
)
    requires
        <Buffer as WriteColor>::set_color_effect(&b, &b_after, spec, rb),
        <Ansi<Vec<u8>> as WriteColor>::set_color_effect(&a, &a_after, spec, ra),
        b@.data == a@@,
    ensures
        b_after@.ansi == b@.ansi,
        b@.ansi ==> b_after@.data == a_after@@,
        !b@.ansi ==> b_after@.data == b@.data,
{
    if !b@.ansi {
        assert(b@.data + Seq::<u8>::empty() =~= b@.data);
    }
}

/// A hyperlink set through a `&mut` reference to (or a box of) a buffer has
/// the effect it has on the buffer itself: an ANSI buffer appends the OSC-8
/// sequence for the link, a no-color buffer stays as it is, and both
/// succeed.
pub proof fn lemma_forwarded_hyperlink_reaches_buffer(
    before: Buffer,
    after: Buffer,
    link: &HyperlinkSpec,
    r: Result<(), std::io::Error>,
)
    requires
        exists|m: &mut Buffer|
            &*m == &before && &*final(m) == &after && #[trigger] call_ensures(
                <Buffer as WriteColor>::set_hyperlink,
                (m, link),
                r,
            ),
    ensures
        r is Ok,
        after@.ansi == before@.ansi,
        after@.data == before@.data + (if before@.ansi {
            hyperlink_escape(link@)
        } else {
            Seq::<u8>::empty()
        }),
{
}

// ---------------------------------------------------------------------------
// Printing buffers.
// ---------------------------------------------------------------------------

/// What a `BufferWriter` writes for the buffers with bytes `datas`, printed
/// in order, when each non-empty one is recorded with `mark_printed`.
pub open spec fn print_all(printed: bool, separator: Option<Seq<u8>>, datas: Seq<Seq<u8>>) -> Seq<
    u8,
>
    decreases datas.len(),
{
    if datas.len() == 0 {
        Seq::<u8>::empty()
    } else {
        print_output(printed, separator, datas[0]) + print_all(
            printed || datas[0].len() > 0,
            separator,
            datas.drop_first(),
        )
    }
}

/// The non-empty parts, in order.
pub open spec fn nonempty_parts(datas: Seq<Seq<u8>>) -> Seq<Seq<u8>>
    decreases datas.len(),
{
    if datas.len() == 0 {
        Seq::<Seq<u8>>::empty()
    } else if datas[0].len() > 0 {
        seq![datas[0]] + nonempty_parts(datas.drop_first())
    } else {
        nonempty_parts(datas.drop_first())
    }
}

/// The parts, each preceded by `glue`.
pub open spec fn each_preceded(parts: Seq<Seq<u8>>, glue: Seq<u8>) -> Seq<u8>
    decreases parts.len(),
{
    if parts.len() == 0 {
        Seq::<u8>::empty()
    } else {
        glue + parts[0] + each_preceded(parts.drop_first(), glue)
    }
}

/// The parts with `glue` between each two of them.
pub open spec fn joined(parts: Seq<Seq<u8>>, glue: Seq<u8>) -> Seq<u8> {
    if parts.len() == 0 {
        Seq::<u8>::empty()
    } else {
        parts[0] + each_preceded(parts.drop_first(), glue)
    }
}

/// The parts one after another.
pub open spec fn concatenated(parts: Seq<Seq<u8>>) -> Seq<u8>
    decreases parts.len(),
{
    if parts.len() == 0 {
        Seq::<u8>::empty()
    } else {
        parts[0] + concatenated(parts.drop_first())
    }
}

proof fn lemma_print_after_first(sep: Seq<u8>, datas: Seq<Seq<u8>>)
    ensures
        print_all(true, Some(sep), datas) == each_preceded(nonempty_parts(datas), sep.push(0x0Au8)),
    decreases datas.len(),
{
    if datas.len() > 0 {
        let rest = datas.drop_first();
        lemma_print_after_first(sep, rest);
        if datas[0].len() > 0 {
            let parts = nonempty_parts(datas);
            assert(parts[0] == datas[0]);
            assert(parts.drop_first() =~= nonempty_parts(rest));
            assert(print_all(true, Some(sep), datas) =~= sep.push(0x0Au8) + datas[0]
                + each_preceded(nonempty_parts(rest), sep.push(0x0Au8)));
        } else {
            assert(print_all(true, Some(sep), datas) =~= print_all(true, Some(sep), rest));
        }
    }
}

/// Printing buffers one after another writes the non-empty ones, with the
/// separator and a newline between each two of them: none before the first
/// and none after the last, and nothing for an empty buffer.
pub proof fn lemma_separator_between_buffers(sep: Seq<u8>, datas: Seq<Seq<u8>>)
    ensures
        print_all(false, Some(sep), datas) == joined(nonempty_parts(datas), sep.push(0x0Au8)),
    decreases datas.len(),
{
    if datas.len() > 0 {
        let rest = datas.drop_first();
        if datas[0].len() > 0 {
            lemma_print_after_first(sep, rest);
            let parts = nonempty_parts(datas);
            assert(parts[0] == datas[0]);
            assert(parts.drop_first() =~= nonempty_parts(rest));
            assert(print_all(false, Some(sep), datas) =~= datas[0] + print_all(
                true,
                Some(sep),
                rest,
            ));
        } else {
            lemma_separator_between_buffers(sep, rest);
            assert(print_all(false, Some(sep), datas) =~= print_all(false, Some(sep), rest));
        }
    }
}

/// Without a separator, printing buffers one after another writes their
/// bytes one after another.
pub proof fn lemma_no_separator_concatenates(printed: bool, datas: Seq<Seq<u8>>)
    ensures
        print_all(printed, None, datas) == concatenated(datas),
    decreases datas.len(),
{
    if datas.len() > 0 {
        lemma_no_separator_concatenates(printed || datas[0].len() > 0, datas.drop_first());
        assert(print_output(printed, None, datas[0]) == datas[0]);
    }
}

// ---------------------------------------------------------------------------
// Color choices.
// ---------------------------------------------------------------------------

/// `dumb`, as bytes.
pub open spec fn dumb_bytes() -> Seq<u8> {
    seq![0x64u8, 0x75u8, 0x6du8, 0x62u8]
}

/// Whether a `CLICOLOR_FORCE` value forces colors: set, and neither empty
/// nor `0`.
pub open spec fn forces_color(v: Option<Seq<u8>>) -> bool {
    match v {
        Some(s) => s.len() > 0 && s != seq![0x30u8],
        None => false,
    }
}

/// `Always` emits colors and `Never` does not, whatever the environment.
/// Under `Auto`:
/// - `NO_COLOR` set to any value suppresses colors, and so does `TERM=dumb`;
/// - otherwise a forcing `CLICOLOR_FORCE` enables colors;
/// - without it, `CLICOLOR=0` suppresses colors on every platform, and so
///   does an unset `TERM` outside Windows;
/// - without any of these, colors are enabled.
pub proof fn lemma_choice_and_environment(env: ColorEnvView)
    ensures
        attempts_color(ColorChoice::Always, env),
        !attempts_color(ColorChoice::Never, env),
        env.no_color is Some ==> !attempts_color(ColorChoice::Auto, env),
        env.term == Some(dumb_bytes()) ==> !attempts_color(ColorChoice::Auto, env),
        (env.no_color is None && env.term != Some(dumb_bytes()) && forces_color(
            env.clicolor_force,
        )) ==> attempts_color(ColorChoice::Auto, env),
        (env.clicolor == Some(seq![0x30u8]) && !forces_color(env.clicolor_force)) ==> !attempts_color(
            ColorChoice::Auto,
            env,
        ),
        (env.term is None && !env.windows && !forces_color(env.clicolor_force)) ==> !attempts_color(
            ColorChoice::Auto,
            env,
        ),
        (env.no_color is None && env.term != Some(dumb_bytes()) && env.clicolor != Some(
            seq![0x30u8],
        ) && (env.term is Some || env.windows)) ==> attempts_color(ColorChoice::Auto, env),
{
    assert(dumb_value() == dumb_bytes());
    assert(zero_value() == seq![0x30u8]);
}

} // verus!
