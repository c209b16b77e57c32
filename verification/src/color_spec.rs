//! Color specifications: a foreground and background color plus styles.
use vstd::prelude::*;

use crate::color::Color;

verus! {

/// The settings that a `ColorSpec` holds.
pub struct ColorSpecView {
    pub fg: Option<Color>,
    pub bg: Option<Color>,
    pub bold: bool,
    pub intense: bool,
    pub underline: bool,
    pub dimmed: bool,
    pub italic: bool,
    pub reset: bool,
    pub strikethrough: bool,
}

/// A color specification.
#[derive(Clone, Debug, PartialEq, Eq, Structural)]
pub struct ColorSpec {
    fg_color: Option<Color>,
    bg_color: Option<Color>,
    bold: bool,
    intense: bool,
    underline: bool,
    dimmed: bool,
    italic: bool,
    reset: bool,
    strikethrough: bool,
}

impl View for ColorSpec {
    type V = ColorSpecView;

    closed spec fn view(&self) -> ColorSpecView {
        ColorSpecView {
            fg: self.fg_color,
            bg: self.bg_color,
            bold: self.bold,
            intense: self.intense,
            underline: self.underline,
            dimmed: self.dimmed,
            italic: self.italic,
            reset: self.reset,
            strikethrough: self.strikethrough,
        }
    }
}

/// The specification with no colors or styles, and with reset enabled.
pub open spec fn default_spec() -> ColorSpecView {
    ColorSpecView {
        fg: None,
        bg: None,
        bold: false,
        intense: false,
        underline: false,
        dimmed: false,
        italic: false,
        reset: true,
        strikethrough: false,
    }
}

/// Whether a specification has no colors or styles. `reset` is not a style.
pub open spec fn has_no_style(v: ColorSpecView) -> bool {
    &&& v.fg is None
    &&& v.bg is None
    &&& !v.bold
    &&& !v.underline
    &&& !v.dimmed
    &&& !v.italic
    &&& !v.intense
    &&& !v.strikethrough
}

/// A specification with its colors and styles removed; `reset` is kept.
pub open spec fn cleared(v: ColorSpecView) -> ColorSpecView {
    ColorSpecView {
        fg: None,
        bg: None,
        bold: false,
        intense: false,
        underline: false,
        dimmed: false,
        italic: false,
        reset: v.reset,
        strikethrough: false,
    }
}

impl Default for ColorSpec {
    fn default() -> (s: ColorSpec)
        ensures
            s@ == default_spec(),
    {
        ColorSpec {
            fg_color: None,
            bg_color: None,
            bold: false,
            intense: false,
            underline: false,
            dimmed: false,
            italic: false,
            reset: true,
            strikethrough: false,
        }
    }
}

impl ColorSpec {
    /// Create a new color specification that has no colors or styles.
    pub fn new() -> (s: ColorSpec)
        ensures
            s@ == default_spec(),
    {
        ColorSpec::default()
    }

    /// Get the foreground color.
    pub fn fg(&self) -> (r: Option<&Color>)
        ensures
            match r {
                Some(c) => self@.fg == Some(*c),
                None => self@.fg is None,
            },
    {
        self.fg_color.as_ref()
    }

    /// Set the foreground color.
    pub fn set_fg(&mut self, color: Option<Color>) -> (r: &mut ColorSpec)
        ensures
            r@ == (ColorSpecView { fg: color, ..old(self)@ }),
            final(self)@ == final(r)@,
    {
        self.fg_color = color;
        self
    }

    /// Get the background color.
    pub fn bg(&self) -> (r: Option<&Color>)
        ensures
            match r {
                Some(c) => self@.bg == Some(*c),
                None => self@.bg is None,
            },
    {
        self.bg_color.as_ref()
    }

    /// Set the background color.
    pub fn set_bg(&mut self, color: Option<Color>) -> (r: &mut ColorSpec)
        ensures
            r@ == (ColorSpecView { bg: color, ..old(self)@ }),
            final(self)@ == final(r)@,
    {
        self.bg_color = color;
        self
    }

    /// Get whether this is bold or not.
    pub fn bold(&self) -> (b: bool)
        ensures
            b == self@.bold,
    {
        self.bold
    }

    /// Set whether the text is bolded or not.
    pub fn set_bold(&mut self, yes: bool) -> (r: &mut ColorSpec)
        ensures
            r@ == (ColorSpecView { bold: yes, ..old(self)@ }),
            final(self)@ == final(r)@,
    {
        self.bold = yes;
        self
    }

    /// Get whether this is dimmed or not.
    pub fn dimmed(&self) -> (b: bool)
        ensures
            b == self@.dimmed,
    {
        self.dimmed
    }

    /// Set whether the text is dimmed or not.
    pub fn set_dimmed(&mut self, yes: bool) -> (r: &mut ColorSpec)
        ensures
            r@ == (ColorSpecView { dimmed: yes, ..old(self)@ }),
            final(self)@ == final(r)@,
    {
        self.dimmed = yes;
        self
    }

    /// Get whether this is italic or not.
    pub fn italic(&self) -> (b: bool)
        ensures
            b == self@.italic,
    {
        self.italic
    }

    /// Set whether the text is italicized or not.
    pub fn set_italic(&mut self, yes: bool) -> (r: &mut ColorSpec)
        ensures
            r@ == (ColorSpecView { italic: yes, ..old(self)@ }),
            final(self)@ == final(r)@,
    {
        self.italic = yes;
        self
    }

    /// Get whether this is underline or not.
    pub fn underline(&self) -> (b: bool)
        ensures
            b == self@.underline,
    {
        self.underline
    }

    /// Set whether the text is underlined or not.
    pub fn set_underline(&mut self, yes: bool) -> (r: &mut ColorSpec)
        ensures
            r@ == (ColorSpecView { underline: yes, ..old(self)@ }),
            final(self)@ == final(r)@,
    {
        self.underline = yes;
        self
    }

    /// Get whether this is strikethrough or not.
    pub fn strikethrough(&self) -> (b: bool)
        ensures
            b == self@.strikethrough,
    {
        self.strikethrough
    }

    /// Set whether the text is strikethrough or not.
    pub fn set_strikethrough(&mut self, yes: bool) -> (r: &mut ColorSpec)
        ensures
            r@ == (ColorSpecView { strikethrough: yes, ..old(self)@ }),
            final(self)@ == final(r)@,
    {
        self.strikethrough = yes;
        self
    }

    /// Get whether reset is enabled or not.
    ///
    /// reset is enabled by default. When enabled and using ANSI escape
    /// sequences, a "reset" code is emitted every time a `ColorSpec`'s
    /// settings are applied.
    pub fn reset(&self) -> (b: bool)
        ensures
            b == self@.reset,
    {
        self.reset
    }

    /// Set whether to reset the terminal whenever color settings are applied.
    pub fn set_reset(&mut self, yes: bool) -> (r: &mut ColorSpec)
        ensures
            r@ == (ColorSpecView { reset: yes, ..old(self)@ }),
            final(self)@ == final(r)@,
    {
        self.reset = yes;
        self
    }

    /// Get whether this is intense or not.
    pub fn intense(&self) -> (b: bool)
        ensures
            b == self@.intense,
    {
        self.intense
    }

    /// Set whether the text is intense or not.
    pub fn set_intense(&mut self, yes: bool) -> (r: &mut ColorSpec)
        ensures
            r@ == (ColorSpecView { intense: yes, ..old(self)@ }),
            final(self)@ == final(r)@,
    {
        self.intense = yes;
        self
    }

    /// Returns true if this color specification has no colors or styles.
    pub fn is_none(&self) -> (b: bool)
        ensures
            b == has_no_style(self@),
    {
        self.fg_color.is_none() && self.bg_color.is_none() && !self.bold && !self.underline
            && !self.dimmed && !self.italic && !self.intense && !self.strikethrough
    }

    /// Clears this color specification so that it has no color/style settings.
    pub fn clear(&mut self)
        ensures
            final(self)@ == cleared(old(self)@),
    {
        self.fg_color = None;
        self.bg_color = None;
        self.bold = false;
        self.underline = false;
        self.intense = false;
        self.dimmed = false;
        self.italic = false;
        self.strikethrough = false;
    }
}

/// A cleared specification has no colors or styles, keeps its `reset`
/// setting, and clearing it again changes nothing.
pub proof fn lemma_clear_removes_all_styles(v: ColorSpecView)
    ensures
        has_no_style(cleared(v)),
        cleared(v).reset == v.reset,
        cleared(cleared(v)) == cleared(v),
{
}

/// A new specification has no colors or styles, and clearing it changes
/// nothing.
pub proof fn lemma_new_has_no_style()
    ensures
        has_no_style(default_spec()),
        cleared(default_spec()) == default_spec(),
        default_spec().reset,
{
}

/// A specification has no style exactly when clearing it changes nothing.
pub proof fn lemma_no_style_iff_clear_is_identity(v: ColorSpecView)
    ensures
        has_no_style(v) <==> cleared(v) == v,
{
}

} // verus!
