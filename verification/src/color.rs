//! Terminal colors and the human readable color syntax.
use vstd::prelude::*;

use crate::text::{chars_eq, chars_of, to_lowercase, unicode_lowercase};

verus! {

/// The set of available colors for the terminal foreground/background.
///
/// The `Ansi256` and `Rgb` colors will only output the correct codes when
/// paired with the `Ansi` writer.
///
/// Colors can be parsed from their human readable form (see `Color::from_str`):
///
/// 1. Any of the explicitly listed colors in English. They are matched
///    case insensitively.
/// 2. A single 8-bit integer, in either decimal or hexadecimal format.
/// 3. A triple of 8-bit integers separated by a comma, where each integer is
///    in decimal or hexadecimal format.
///
/// Hexadecimal numbers are written with a `0x` prefix.
#[allow(missing_docs)]
#[derive(Clone, Copy, Debug, PartialEq, Eq, Structural)]
#[non_exhaustive]
pub enum Color {
    Black,
    Blue,
    Green,
    Red,
    Cyan,
    Magenta,
    Yellow,
    White,
    Ansi256(u8),
    Rgb(u8, u8, u8),
}

/// The reason a color string was rejected.
#[derive(Clone, Copy, Debug, PartialEq, Eq, Structural)]
pub enum ParseColorErrorKind {
    /// Neither a known color name nor a number.
    InvalidName,
    /// A string of hexadecimal digits that is not an 8-bit number.
    InvalidAnsi256,
    /// A comma separated string that is not a triple of 8-bit numbers.
    InvalidRgb,
}

/// An error from parsing an invalid color specification.
#[derive(Clone, Debug, PartialEq, Eq)]
pub struct ParseColorError {
    kind: ParseColorErrorKind,
    given: String,
}

impl View for ParseColorError {
    type V = (ParseColorErrorKind, Seq<char>);

    closed spec fn view(&self) -> (ParseColorErrorKind, Seq<char>) {
        (self.kind, self.given@)
    }
}

// ---------------------------------------------------------------------------
// The numeric syntax, as a mathematical model.
// ---------------------------------------------------------------------------

/// The value of an ASCII alphanumeric character as a digit (`0-9`, then
/// `a-z` or `A-Z` for 10 to 35); 36 for every other character.
pub open spec fn digit_value(c: char) -> nat {
    let n: int = c as int;
    if 0x30 <= n <= 0x39 {
        (n - 0x30) as nat
    } else if 0x61 <= n <= 0x7a {
        (n - 0x61 + 10) as nat
    } else if 0x41 <= n <= 0x5a {
        (n - 0x41 + 10) as nat
    } else {
        36
    }
}

/// The value of a string of digits in the given radix, or `None` when one of
/// its characters is not a digit of that radix. The empty string has value 0.
pub open spec fn digits_value(s: Seq<char>, radix: nat) -> Option<nat>
    decreases s.len(),
{
    if s.len() == 0 {
        Some(0)
    } else {
        match digits_value(s.drop_last(), radix) {
            Some(v) => if digit_value(s.last()) < radix {
                Some(v * radix + digit_value(s.last()))
            } else {
                None
            },
            None => None,
        }
    }
}

/// An 8-bit number in the given radix, as std's unsigned integer parser reads
/// it: an optional leading `+`, then at least one digit, with a value that
/// fits in a `u8`. Leading zeros are allowed.
pub open spec fn parse_u8_radix(s: Seq<char>, radix: nat) -> Option<u8> {
    let digits = if s.len() > 0 && s[0] == '+' {
        s.drop_first()
    } else {
        s
    };
    if digits.len() == 0 {
        None
    } else {
        match digits_value(digits, radix) {
            Some(v) => if v <= 255 {
                Some(v as u8)
            } else {
                None
            },
            None => None,
        }
    }
}

/// One number of the color syntax: hexadecimal after a `0x` prefix, decimal
/// otherwise.
pub open spec fn parse_number(s: Seq<char>) -> Option<u8> {
    if s.len() >= 2 && s[0] == '0' && s[1] == 'x' {
        parse_u8_radix(s.skip(2), 16)
    } else {
        parse_u8_radix(s, 10)
    }
}

/// The pieces of `s` between commas, as `str::split(',')` yields them: there
/// is always one more piece than there are commas.
pub open spec fn split_commas(s: Seq<char>) -> Seq<Seq<char>>
    decreases s.len(),
{
    if s.len() == 0 {
        seq![Seq::<char>::empty()]
    } else {
        let prev = split_commas(s.drop_last());
        if s.last() == ',' {
            prev.push(Seq::<char>::empty())
        } else {
            prev.update(prev.len() - 1, prev.last().push(s.last()))
        }
    }
}

/// Whether `c` is an ASCII hexadecimal digit.
pub open spec fn is_hex_digit(c: char) -> bool {
    digit_value(c) < 16
}

/// The numeric part of the color syntax: a single number gives an `Ansi256`
/// color, three comma separated numbers an `Rgb` color.
pub open spec fn parse_numeric(s: Seq<char>) -> Result<Color, ParseColorErrorKind> {
    let codes = split_commas(s);
    if codes.len() == 1 {
        match parse_number(s) {
            Some(n) => Ok(Color::Ansi256(n)),
            None => if forall|i: int| 0 <= i < s.len() ==> #[trigger] is_hex_digit(s[i]) {
                Err(ParseColorErrorKind::InvalidAnsi256)
            } else {
                Err(ParseColorErrorKind::InvalidName)
            },
        }
    } else if codes.len() == 3 {
        match (parse_number(codes[0]), parse_number(codes[1]), parse_number(codes[2])) {
            (Some(r), Some(g), Some(b)) => Ok(Color::Rgb(r, g, b)),
            _ => Err(ParseColorErrorKind::InvalidRgb),
        }
    } else if s.contains(',') {
        Err(ParseColorErrorKind::InvalidRgb)
    } else {
        Err(ParseColorErrorKind::InvalidName)
    }
}

/// The color that a lowercased string names, if it is one of the eight names.
pub open spec fn color_name(l: Seq<char>) -> Option<Color> {
    if l == seq!['b', 'l', 'a', 'c', 'k'] {
        Some(Color::Black)
    } else if l == seq!['b', 'l', 'u', 'e'] {
        Some(Color::Blue)
    } else if l == seq!['g', 'r', 'e', 'e', 'n'] {
        Some(Color::Green)
    } else if l == seq!['r', 'e', 'd'] {
        Some(Color::Red)
    } else if l == seq!['c', 'y', 'a', 'n'] {
        Some(Color::Cyan)
    } else if l == seq!['m', 'a', 'g', 'e', 'n', 't', 'a'] {
        Some(Color::Magenta)
    } else if l == seq!['y', 'e', 'l', 'l', 'o', 'w'] {
        Some(Color::Yellow)
    } else if l == seq!['w', 'h', 'i', 't', 'e'] {
        Some(Color::White)
    } else {
        None
    }
}

/// The whole color syntax, given the string and its lowercase form: a name
/// is looked up in the lowercase form, numbers are read from the string.
pub open spec fn parse_color(s: Seq<char>, lowered: Seq<char>) -> Result<Color, ParseColorErrorKind> {
    match color_name(lowered) {
        Some(c) => Ok(c),
        None => parse_numeric(s),
    }
}

/// A short description of each kind of error.
pub open spec fn color_error_description(kind: ParseColorErrorKind) -> Seq<char> {
    match kind {
        ParseColorErrorKind::InvalidName => "unrecognized color name"@,
        ParseColorErrorKind::InvalidAnsi256 => "invalid ansi256 color number"@,
        ParseColorErrorKind::InvalidRgb => "invalid RGB color triple"@,
    }
}

/// The message of a color parse error for the string `given`.
pub open spec fn color_error_message(kind: ParseColorErrorKind, given: Seq<char>) -> Seq<char> {
    match kind {
        ParseColorErrorKind::InvalidName => "unrecognized color name '"@ + given
            + "'. Choose from: black, blue, green, red, cyan, magenta, yellow, white"@,
        ParseColorErrorKind::InvalidAnsi256 =>
            "unrecognized ansi256 color number, should be '[0-255]' (or a hex number), but is '"@
            + given + "'"@,
        ParseColorErrorKind::InvalidRgb =>
            "unrecognized RGB color triple, should be '[0-255],[0-255],[0-255]' (or a hex triple), but is '"@
            + given + "'"@,
    }
}

// ---------------------------------------------------------------------------
// Executable parser.
// ---------------------------------------------------------------------------

fn digit_value_exec(c: char) -> (d: u32)
    ensures
        d == digit_value(c),
{
    let n: u32 = c as u32;
    if 0x30 <= n && n <= 0x39 {
        n - 0x30
    } else if 0x61 <= n && n <= 0x7a {
        n - 0x61 + 10
    } else if 0x41 <= n && n <= 0x5a {
        n - 0x41 + 10
    } else {
        36
    }
}

/// Caps a value at 256, which is all a `u8` parser needs to know of it.
pub open spec fn cap256(v: nat) -> nat {
    if v <= 256 {
        v
    } else {
        256
    }
}

proof fn lemma_capped_step(v: nat, radix: nat, d: nat)
    requires
        radix == 10 || radix == 16,
        d < radix,
    ensures
        cap256(v * radix + d) == cap256(cap256(v) * radix + d),
{
    if v > 256 {
        assert(v * radix >= v) by (nonlinear_arith)
            requires
                radix >= 1,
        ;
        assert(256 * radix >= 256) by (nonlinear_arith)
            requires
                radix >= 1,
        ;
    }
}

/// Reads `s[start..]` as a number in `radix`, as std's `u8` parser does.
fn parse_u8_radix_from(s: &Vec<char>, start: usize, radix: u32) -> (r: Option<u8>)
    requires
        start <= s.len(),
        radix == 10 || radix == 16,
    ensures
        r == parse_u8_radix(s@.skip(start as int), radix as nat),
{
    let ghost full = s@.skip(start as int);
    let mut first: usize = start;
    if start < s.len() && s[start] == '+' {
        first = start + 1;
    }
    let ghost digits = s@.skip(first as int);
    assert(digits == (if full.len() > 0 && full[0] == '+' {
        full.drop_first()
    } else {
        full
    }));
    if first == s.len() {
        return None;
    }
    let mut valid = true;
    let mut acc: u32 = 0;
    let mut i: usize = first;
    while i < s.len()
        invariant
            first <= i <= s.len(),
            radix == 10 || radix == 16,
            acc <= 256,
            valid == digits_value(s@.subrange(first as int, i as int), radix as nat) is Some,
            valid ==> acc == cap256(
                digits_value(s@.subrange(first as int, i as int), radix as nat)->Some_0,
            ),
        decreases s.len() - i,
    {
        let d: u32 = digit_value_exec(s[i]);
        proof {
            let pre = s@.subrange(first as int, i as int);
            let next = s@.subrange(first as int, i + 1);
            assert(next.drop_last() == pre);
            assert(next.last() == s@[i as int]);
            if valid && d < radix {
                lemma_capped_step(digits_value(pre, radix as nat)->Some_0, radix as nat, d as nat);
            }
        }
        if valid && d < radix {
            let v: u32 = acc * radix + d;
            acc = if v > 256 {
                256
            } else {
                v
            };
        } else {
            valid = false;
        }
        i = i + 1;
    }
    assert(s@.subrange(first as int, s.len() as int) == digits);
    if valid && acc <= 255 {
        Some(acc as u8)
    } else {
        None
    }
}

/// Reads one number of the color syntax from `s[start..]`.
fn parse_number_from(s: &Vec<char>, start: usize) -> (r: Option<u8>)
    requires
        start <= s.len(),
    ensures
        r == parse_number(s@.skip(start as int)),
{
    let ghost t = s@.skip(start as int);
    if s.len() - start >= 2 && s[start] == '0' && s[start + 1] == 'x' {
        assert(t.skip(2) == s@.skip(start + 2));
        parse_u8_radix_from(s, start + 2, 16)
    } else {
        parse_u8_radix_from(s, start, 10)
    }
}

/// The characters of each piece.
pub open spec fn piece_views(pieces: Seq<Vec<char>>) -> Seq<Seq<char>> {
    pieces.map_values(|p: Vec<char>| p@)
}

/// Splits `s` at its commas.
fn split_commas_exec(s: &Vec<char>) -> (pieces: Vec<Vec<char>>)
    ensures
        piece_views(pieces@) == split_commas(s@),
{
    let mut pieces: Vec<Vec<char>> = Vec::new();
    pieces.push(Vec::new());
    let mut i: usize = 0;
    assert(s@.take(0) == Seq::<char>::empty());
    assert(piece_views(pieces@) =~= split_commas(s@.take(0)));
    while i < s.len()
        invariant
            i <= s.len(),
            pieces.len() >= 1,
            piece_views(pieces@) == split_commas(s@.take(i as int)),
        decreases s.len() - i,
    {
        let c = s[i];
        let ghost prev = piece_views(pieces@);
        assert(s@.take(i + 1).drop_last() == s@.take(i as int));
        if c == ',' {
            pieces.push(Vec::new());
            assert(piece_views(pieces@) =~= prev.push(Seq::<char>::empty()));
        } else {
            let ghost before = pieces@;
            let mut piece = pieces.pop().unwrap();
            piece.push(c);
            pieces.push(piece);
            assert(pieces@ =~= before.update(before.len() - 1, piece));
            assert(piece_views(pieces@) =~= prev.update(prev.len() - 1, prev.last().push(c)));
        }
        i = i + 1;
    }
    assert(s@.take(s.len() as int) == s@);
    pieces
}

fn is_hex_digit_exec(c: char) -> (b: bool)
    ensures
        b == is_hex_digit(c),
{
    digit_value_exec(c) < 16
}

fn all_hex_digits(s: &Vec<char>) -> (b: bool)
    ensures
        b == (forall|i: int| 0 <= i < s@.len() ==> #[trigger] is_hex_digit(s@[i])),
{
    let mut i: usize = 0;
    while i < s.len()
        invariant
            i <= s.len(),
            forall|j: int| 0 <= j < i ==> #[trigger] is_hex_digit(s@[j]),
        decreases s.len() - i,
    {
        if !is_hex_digit_exec(s[i]) {
            return false;
        }
        i = i + 1;
    }
    true
}

fn contains_comma(s: &Vec<char>) -> (b: bool)
    ensures
        b == s@.contains(','),
{
    let mut i: usize = 0;
    while i < s.len()
        invariant
            i <= s.len(),
            forall|j: int| 0 <= j < i ==> s@[j] != ',',
        decreases s.len() - i,
    {
        if s[i] == ',' {
            return true;
        }
        i = i + 1;
    }
    false
}

/// `split_commas` always yields at least one piece.
pub proof fn lemma_split_nonempty(s: Seq<char>)
    ensures
        split_commas(s).len() >= 1,
    decreases s.len(),
{
    if s.len() > 0 {
        lemma_split_nonempty(s.drop_last());
    }
}

impl ParseColorError {
    /// Return the string that couldn't be parsed as a valid color.
    pub fn invalid(&self) -> (r: &str)
        ensures
            r@ == self@.1,
    {
        self.given.as_str()
    }

    /// The reason the string was rejected.
    pub fn kind(&self) -> (k: ParseColorErrorKind)
        ensures
            k == self@.0,
    {
        self.kind
    }

    /// A short description of the error.
    pub fn description(&self) -> (r: &'static str)
        ensures
            r@ == color_error_description(self@.0),
    {
        match self.kind {
            ParseColorErrorKind::InvalidName => "unrecognized color name",
            ParseColorErrorKind::InvalidAnsi256 => "invalid ansi256 color number",
            ParseColorErrorKind::InvalidRgb => "invalid RGB color triple",
        }
    }

    /// The error message: what was given and what is accepted.
    pub fn to_string(&self) -> (r: String)
        ensures
            r@ == color_error_message(self@.0, self@.1),
    {
        let mut m = match self.kind {
            ParseColorErrorKind::InvalidName => String::from_str("unrecognized color name '"),
            ParseColorErrorKind::InvalidAnsi256 => String::from_str(
                "unrecognized ansi256 color number, should be '[0-255]' (or a hex number), but is '",
            ),
            ParseColorErrorKind::InvalidRgb => String::from_str(
                "unrecognized RGB color triple, should be '[0-255],[0-255],[0-255]' (or a hex triple), but is '",
            ),
        };
        m.append(self.given.as_str());
        match self.kind {
            ParseColorErrorKind::InvalidName => m.append(
                "'. Choose from: black, blue, green, red, cyan, magenta, yellow, white",
            ),
            _ => m.append("'"),
        }
        m
    }

    fn with(kind: ParseColorErrorKind, s: &str) -> (e: ParseColorError)
        ensures
            e@ == (kind, s@),
    {
        ParseColorError { kind, given: s.to_owned() }
    }
}

impl Color {
    /// Parses the numeric syntax: one number for an `Ansi256` color, three
    /// comma separated numbers for an `Rgb` color.
    pub fn from_str_numeric(s: &str) -> (r: Result<Color, ParseColorError>)
        ensures
            match r {
                Ok(c) => parse_numeric(s@) == Ok::<Color, ParseColorErrorKind>(c),
                Err(e) => parse_numeric(s@) == Err::<Color, ParseColorErrorKind>(e@.0) && e@.1
                    == s@,
            },
    {
        let chars = chars_of(s);
        let codes = split_commas_exec(&chars);
        proof {
            lemma_split_nonempty(chars@);
        }
        if codes.len() == 1 {
            match parse_number_from(&chars, 0) {
                Some(n) => {
                    assert(chars@.skip(0) == chars@);
                    Ok(Color::Ansi256(n))
                },
                None => {
                    assert(chars@.skip(0) == chars@);
                    if all_hex_digits(&chars) {
                        Err(ParseColorError::with(ParseColorErrorKind::InvalidAnsi256, s))
                    } else {
                        Err(ParseColorError::with(ParseColorErrorKind::InvalidName, s))
                    }
                },
            }
        } else if codes.len() == 3 {
            let ghost dv = piece_views(codes@);
            assert(codes[0]@.skip(0) == dv[0]);
            assert(codes[1]@.skip(0) == dv[1]);
            assert(codes[2]@.skip(0) == dv[2]);
            let r = parse_number_from(&codes[0], 0);
            let g = parse_number_from(&codes[1], 0);
            let b = parse_number_from(&codes[2], 0);
            match (r, g, b) {
                (Some(r), Some(g), Some(b)) => Ok(Color::Rgb(r, g, b)),
                _ => Err(ParseColorError::with(ParseColorErrorKind::InvalidRgb, s)),
            }
        } else if contains_comma(&chars) {
            Err(ParseColorError::with(ParseColorErrorKind::InvalidRgb, s))
        } else {
            Err(ParseColorError::with(ParseColorErrorKind::InvalidName, s))
        }
    }

    /// Parses a color from `s` and its lowercase form `lowered`: one of the
    /// eight names, matched in `lowered`, or else the numeric syntax, read
    /// from `s`.
    pub fn from_lowercased(s: &str, lowered: &str) -> (r: Result<Color, ParseColorError>)
        ensures
            match r {
                Ok(c) => parse_color(s@, lowered@) == Ok::<Color, ParseColorErrorKind>(c),
                Err(e) => parse_color(s@, lowered@) == Err::<Color, ParseColorErrorKind>(e@.0)
                    && e@.1 == s@,
            },
    {
        let l = chars_of(lowered);
        if chars_eq(&l, &['b', 'l', 'a', 'c', 'k']) {
            Ok(Color::Black)
        } else if chars_eq(&l, &['b', 'l', 'u', 'e']) {
            Ok(Color::Blue)
        } else if chars_eq(&l, &['g', 'r', 'e', 'e', 'n']) {
            Ok(Color::Green)
        } else if chars_eq(&l, &['r', 'e', 'd']) {
            Ok(Color::Red)
        } else if chars_eq(&l, &['c', 'y', 'a', 'n']) {
            Ok(Color::Cyan)
        } else if chars_eq(&l, &['m', 'a', 'g', 'e', 'n', 't', 'a']) {
            Ok(Color::Magenta)
        } else if chars_eq(&l, &['y', 'e', 'l', 'l', 'o', 'w']) {
            Ok(Color::Yellow)
        } else if chars_eq(&l, &['w', 'h', 'i', 't', 'e']) {
            Ok(Color::White)
        } else {
            Color::from_str_numeric(s)
        }
    }

    /// Parses a color from its human readable form: one of the eight names,
    /// matched case insensitively, a single 8-bit number, or a comma
    /// separated triple of 8-bit numbers (each decimal, or hexadecimal after
    /// `0x`).
    pub fn from_str(s: &str) -> (r: Result<Color, ParseColorError>)
        ensures
            match r {
                Ok(c) => parse_color(s@, unicode_lowercase(s@)) == Ok::<Color, ParseColorErrorKind>(c),
                Err(e) => parse_color(s@, unicode_lowercase(s@)) == Err::<Color, ParseColorErrorKind>(
                    e@.0,
                ) && e@.1 == s@,
            },
    {
        let lowered = to_lowercase(s);
        Color::from_lowercased(s, lowered.as_str())
    }
}

impl std::str::FromStr for Color {
    type Err = ParseColorError;

    fn from_str(s: &str) -> (r: Result<Color, ParseColorError>)
        ensures
            match r {
                Ok(c) => parse_color(s@, unicode_lowercase(s@)) == Ok::<Color, ParseColorErrorKind>(c),
                Err(e) => parse_color(s@, unicode_lowercase(s@)) == Err::<Color, ParseColorErrorKind>(
                    e@.0,
                ) && e@.1 == s@,
            },
    {
        Color::from_str(s)
    }
}

} // verus!
