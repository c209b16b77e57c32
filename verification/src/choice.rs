//! The end user's color preference and how the environment refines it.
use vstd::prelude::*;

use crate::text::{chars_eq, chars_of, to_lowercase, unicode_lowercase};

verus! {

/// `ColorChoice` represents the color preferences of an end user.
///
/// The `Default` implementation for this type selects `Auto`, which tries
/// to do the right thing based on the current environment.
///
/// Parsing (`ColorChoice::from_str`) converts a lowercase kebab-case string
/// of the variant name to the corresponding variant. Any other string
/// results in an error.
#[derive(Clone, Copy, Debug, PartialEq, Eq, Structural)]
pub enum ColorChoice {
    /// Try very hard to emit colors.
    Always,
    /// Try to use colors, but don't force the issue. If `TERM=dumb`, or if
    /// `NO_COLOR` is defined, for example, then don't use colors.
    Auto,
    /// Never emit colors.
    Never,
}

impl Default for ColorChoice {
    fn default() -> (c: ColorChoice)
        ensures
            c == ColorChoice::Auto,
    {
        ColorChoice::Auto
    }
}

/// An error that occurs when parsing a `ColorChoice` fails.
#[derive(Clone, Debug)]
pub struct ColorChoiceParseError {
    unknown_choice: String,
}

impl View for ColorChoiceParseError {
    type V = Seq<char>;

    /// The rejected string, lowercased.
    closed spec fn view(&self) -> Seq<char> {
        self.unknown_choice@
    }
}

/// The choice that a string names, if any.
pub open spec fn choice_name(l: Seq<char>) -> Option<ColorChoice> {
    if l == seq!['a', 'l', 'w', 'a', 'y', 's'] {
        Some(ColorChoice::Always)
    } else if l == seq!['n', 'e', 'v', 'e', 'r'] {
        Some(ColorChoice::Never)
    } else if l == seq!['a', 'u', 't', 'o'] {
        Some(ColorChoice::Auto)
    } else {
        None
    }
}

/// The message of a parse error for the lowercased rejected string `unknown`.
pub open spec fn choice_error_message(unknown: Seq<char>) -> Seq<char> {
    "unrecognized color choice '"@ + unknown
        + "': valid choices are: always, always-ansi, never, auto"@
}

impl ColorChoiceParseError {
    /// The rejected string, lowercased.
    pub fn unknown_choice(&self) -> (r: &str)
        ensures
            r@ == self@,
    {
        self.unknown_choice.as_str()
    }

    /// The error message: the rejected choice and the valid ones.
    pub fn to_string(&self) -> (r: String)
        ensures
            r@ == choice_error_message(self@),
    {
        let mut m = String::from_str("unrecognized color choice '");
        m.append(self.unknown_choice.as_str());
        m.append("': valid choices are: always, always-ansi, never, auto");
        m
    }
}

impl ColorChoice {
    /// Parses a choice: exactly `always`, `never` or `auto`. Any other
    /// string, including another capitalisation of these, is rejected, and
    /// the error holds its lowercase form.
    pub fn from_str(s: &str) -> (r: Result<ColorChoice, ColorChoiceParseError>)
        ensures
            match r {
                Ok(c) => choice_name(s@) == Some(c),
                Err(e) => choice_name(s@) is None && e@ == unicode_lowercase(s@),
            },
    {
        let l = chars_of(s);
        if chars_eq(&l, &['a', 'l', 'w', 'a', 'y', 's']) {
            Ok(ColorChoice::Always)
        } else if chars_eq(&l, &['n', 'e', 'v', 'e', 'r']) {
            Ok(ColorChoice::Never)
        } else if chars_eq(&l, &['a', 'u', 't', 'o']) {
            Ok(ColorChoice::Auto)
        } else {
            Err(ColorChoiceParseError { unknown_choice: to_lowercase(s) })
        }
    }

    /// Returns true if we should attempt to write colored output, given the
    /// environment that `Auto` consults.
    pub fn should_attempt_color(self, env: &ColorEnv) -> (b: bool)
        ensures
            b == attempts_color(self, env.view()),
    {
        match self {
            ColorChoice::Always => true,
            ColorChoice::Never => false,
            ColorChoice::Auto => env.allows_color(),
        }
    }
}

/// The environment variables that decide whether `Auto` emits colors, as
/// the bytes of their values (`None` when unset), and whether the program
/// runs on Windows.
pub struct ColorEnv {
    /// `NO_COLOR`.
    pub no_color: Option<Vec<u8>>,
    /// `CLICOLOR_FORCE`.
    pub clicolor_force: Option<Vec<u8>>,
    /// `CLICOLOR`.
    pub clicolor: Option<Vec<u8>>,
    /// `TERM`.
    pub term: Option<Vec<u8>>,
    /// Whether the program runs on Windows.
    pub windows: bool,
}

/// The values of a `ColorEnv`.
pub struct ColorEnvView {
    pub no_color: Option<Seq<u8>>,
    pub clicolor_force: Option<Seq<u8>>,
    pub clicolor: Option<Seq<u8>>,
    pub term: Option<Seq<u8>>,
    pub windows: bool,
}

/// The bytes of an optional value.
pub open spec fn opt_bytes(v: Option<Vec<u8>>) -> Option<Seq<u8>> {
    match v {
        Some(b) => Some(b@),
        None => None,
    }
}

impl View for ColorEnv {
    type V = ColorEnvView;

    open spec fn view(&self) -> ColorEnvView {
        ColorEnvView {
            no_color: opt_bytes(self.no_color),
            clicolor_force: opt_bytes(self.clicolor_force),
            clicolor: opt_bytes(self.clicolor),
            term: opt_bytes(self.term),
            windows: self.windows,
        }
    }
}

/// `0`.
pub open spec fn zero_value() -> Seq<u8> {
    seq![0x30u8]
}

/// `dumb`.
pub open spec fn dumb_value() -> Seq<u8> {
    seq![0x64u8, 0x75u8, 0x6du8, 0x62u8]
}

/// Whether the environment lets `Auto` emit colors:
/// - `NO_COLOR` set to any value suppresses colors;
/// - `TERM` set to `dumb` suppresses colors;
/// - otherwise `CLICOLOR_FORCE` set to a value other than empty or `0`
///   enables them;
/// - otherwise `CLICOLOR` set to `0` suppresses colors, and so does, outside
///   Windows, an unset `TERM`.
pub open spec fn env_allows_color(env: ColorEnvView) -> bool {
    let forced = match env.clicolor_force {
        Some(v) => !(v.len() == 0 || v == zero_value()),
        None => false,
    };
    let clicolor_ok = match env.clicolor {
        Some(v) => v != zero_value(),
        None => true,
    };
    let not_dumb = match env.term {
        Some(v) => v != dumb_value(),
        None => true,
    };
    let term_known = env.term is Some || env.windows;
    env.no_color is None && not_dumb && (forced || (clicolor_ok && term_known))
}

/// Whether a choice leads to colored output in an environment.
pub open spec fn attempts_color(choice: ColorChoice, env: ColorEnvView) -> bool {
    match choice {
        ColorChoice::Always => true,
        ColorChoice::Never => false,
        ColorChoice::Auto => env_allows_color(env),
    }
}

fn bytes_eq(a: &Vec<u8>, b: &[u8]) -> (r: bool)
    ensures
        r == (a@ == b@),
{
    if a.len() != b.len() {
        return false;
    }
    let mut i: usize = 0;
    while i < a.len()
        invariant
            i <= a.len(),
            a.len() == b@.len(),
            forall|j: int| 0 <= j < i ==> a@[j] == b@[j],
        decreases a.len() - i,
    {
        if a[i] != b[i] {
            return false;
        }
        i = i + 1;
    }
    assert(a@ =~= b@);
    true
}

impl ColorEnv {
    /// Whether this environment lets `Auto` emit colors.
    pub fn allows_color(&self) -> (b: bool)
        ensures
            b == env_allows_color(self@),
    {
        if self.no_color.is_some() {
            return false;
        }
        let zero: [u8; 1] = [0x30];
        let dumb: [u8; 4] = [0x64, 0x75, 0x6d, 0x62];
        assert(zero@ =~= zero_value());
        assert(dumb@ =~= dumb_value());
        let not_dumb = match &self.term {
            Some(v) => !bytes_eq(v, &dumb),
            None => true,
        };
        if !not_dumb {
            return false;
        }
        let forced = match &self.clicolor_force {
            Some(v) => !(v.len() == 0 || bytes_eq(v, &zero)),
            None => false,
        };
        let clicolor_ok = match &self.clicolor {
            Some(v) => !bytes_eq(v, &zero),
            None => true,
        };
        forced || (clicolor_ok && (self.term.is_some() || self.windows))
    }
}

impl std::str::FromStr for ColorChoice {
    type Err = ColorChoiceParseError;

    fn from_str(s: &str) -> (r: Result<ColorChoice, ColorChoiceParseError>)
        ensures
            match r {
                Ok(c) => choice_name(s@) == Some(c),
                Err(e) => choice_name(s@) is None && e@ == unicode_lowercase(s@),
            },
    {
        ColorChoice::from_str(s)
    }
}

} // verus!
