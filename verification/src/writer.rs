//! Writers that support colored output: the `WriteColor` trait and the
//! `Ansi` and `NoColor` adapters.
use vstd::prelude::*;
use vstd::string::StringSliceAdditionalSpecFns;

use crate::color::Color;
use crate::color_spec::{ColorSpec, ColorSpecView};
use crate::escape::{
    color_escape, color_spec_escape, hyperlink_escape, push_color_escape,
    push_color_spec_escape, push_hyperlink_escape, push_reset_escape, push_slice, reset_escape,
};

verus! {

#[verifier::external_type_specification]
#[verifier::external_body]
pub struct ExIoError(std::io::Error);

#[verifier::external_type_specification]
#[verifier::external_body]
pub struct ExIoSink(std::io::Sink);

/// A hyperlink specification.
#[derive(Clone, Debug)]
pub struct HyperlinkSpec<'a> {
    uri: Option<&'a [u8]>,
}

impl<'a> View for HyperlinkSpec<'a> {
    type V = Option<Seq<u8>>;

    closed spec fn view(&self) -> Option<Seq<u8>> {
        match self.uri {
            Some(u) => Some(u@),
            None => None,
        }
    }
}

impl<'a> HyperlinkSpec<'a> {
    /// Creates a new hyperlink specification.
    pub fn open(uri: &'a [u8]) -> (h: HyperlinkSpec<'a>)
        ensures
            h@ == Some(uri@),
    {
        HyperlinkSpec { uri: Some(uri) }
    }

    /// Creates a hyperlink specification representing no hyperlink.
    pub fn close() -> (h: HyperlinkSpec<'a>)
        ensures
            h@ is None,
    {
        HyperlinkSpec { uri: None }
    }

    /// Returns the URI of the hyperlink if one is attached to this spec.
    pub fn uri(&self) -> (r: Option<&'a [u8]>)
        ensures
            match r {
                Some(u) => self@ == Some(u@),
                None => self@ is None,
            },
    {
        self.uri
    }
}

/// This trait describes the behavior of writers that support colored output.
///
/// A writer that implements it usually implements `std::io::Write` as well,
/// for the text that the colors apply to.
pub trait WriteColor {
    /// Returns true if and only if the underlying writer supports colors.
    fn supports_color(&self) -> bool;

    /// What a call of `set_color` with `spec` does: `self` is the writer
    /// before the call, `after` the writer once it returned `r`. An
    /// implementation states its behavior by overriding this; by default
    /// nothing is promised.
    open spec fn set_color_effect(
        &self,
        after: &Self,
        spec: ColorSpecView,
        r: Result<(), std::io::Error>,
    ) -> bool {
        true
    }

    /// Set the color settings of the writer.
    ///
    /// Subsequent writes to this writer will use these settings until either
    /// `reset` is called or new color settings are set.
    ///
    /// If there was a problem setting the color settings, then an error is
    /// returned.
    fn set_color(&mut self, spec: &ColorSpec) -> (r: Result<(), std::io::Error>)
        ensures
            Self::set_color_effect(&*old(self), &*final(self), spec@, r),
    ;

    /// What a call of `reset` does (see `set_color_effect`).
    open spec fn reset_effect(&self, after: &Self, r: Result<(), std::io::Error>) -> bool {
        true
    }

    /// Reset the current color settings to the terminal defaults.
    ///
    /// Note that this does not reset hyperlinks. Those need to be
    /// reset on their own, e.g., by calling `set_hyperlink` with
    /// `HyperlinkSpec::close`.
    fn reset(&mut self) -> (r: Result<(), std::io::Error>)
        ensures
            Self::reset_effect(&*old(self), &*final(self), r),
    ;

    /// Returns true if and only if the underlying writer must synchronously
    /// interact with an end user's device in order to control colors. By
    /// default, this always returns `false`.
    fn is_synchronous(&self) -> (b: bool)
        default_ensures
            !b,
    {
        false
    }

    /// Set the current hyperlink of the writer.
    ///
    /// The typical way to use this is to first call it with a
    /// `HyperlinkSpec::open` to write the actual URI to a tty that supports
    /// OSC-8, then write the label, then call this method again with
    /// `HyperlinkSpec::close`.
    ///
    /// This defaults to doing nothing.
    fn set_hyperlink(&mut self, _link: &HyperlinkSpec) -> (r: Result<(), std::io::Error>)
        default_ensures
            r is Ok,
            &*final(self) == &*old(self),
    {
        Ok(())
    }

    /// Returns true if and only if the underlying writer supports hyperlinks.
    ///
    /// This defaults to `false`.
    fn supports_hyperlinks(&self) -> (b: bool)
        default_ensures
            !b,
    {
        false
    }
}

impl WriteColor for std::io::Sink {
    fn supports_color(&self) -> (b: bool)
        ensures
            !b,
    {
        false
    }

    fn supports_hyperlinks(&self) -> (b: bool)
        ensures
            !b,
    {
        false
    }

    open spec fn set_color_effect(
        &self,
        after: &std::io::Sink,
        spec: ColorSpecView,
        r: Result<(), std::io::Error>,
    ) -> bool {
        r is Ok
    }

    open spec fn reset_effect(&self, after: &std::io::Sink, r: Result<(), std::io::Error>) -> bool {
        r is Ok
    }

    fn set_color(&mut self, _spec: &ColorSpec) -> (r: Result<(), std::io::Error>)
        ensures
            r is Ok,
    {
        Ok(())
    }

    fn set_hyperlink(&mut self, _link: &HyperlinkSpec) -> (r: Result<(), std::io::Error>)
        ensures
            r is Ok,
    {
        Ok(())
    }

    fn reset(&mut self) -> (r: Result<(), std::io::Error>)
        ensures
            r is Ok,
    {
        Ok(())
    }
}

/// Satisfies `WriteColor` but ignores all color options.
#[derive(Clone, Debug)]
pub struct NoColor<W>(W);

impl<W> View for NoColor<W> {
    type V = W;

    closed spec fn view(&self) -> W {
        self.0
    }
}

impl<W> NoColor<W> {
    /// Create a new writer that satisfies `WriteColor` but drops all color
    /// information.
    pub fn new(wtr: W) -> (n: NoColor<W>)
        ensures
            n@ == wtr,
    {
        NoColor(wtr)
    }

    /// Consume this `NoColor` value and return the inner writer.
    pub fn into_inner(self) -> (w: W)
        ensures
            w == self@,
    {
        self.0
    }

    /// Return a reference to the inner writer.
    pub fn get_ref(&self) -> (w: &W)
        ensures
            *w == self@,
    {
        &self.0
    }

    /// Return a mutable reference to the inner writer.
    pub fn get_mut(&mut self) -> (w: &mut W)
        ensures
            *w == old(self)@,
            final(self)@ == *final(w),
    {
        &mut self.0
    }
}

impl std::io::Write for NoColor<Vec<u8>> {
    fn write(&mut self, buf: &[u8]) -> (r: Result<usize, std::io::Error>)
        ensures
            final(self)@@ == old(self)@@ + buf@,
            r matches Ok(n) && n == buf@.len(),
    {
        push_slice(&mut self.0, buf);
        Ok(buf.len())
    }

    fn flush(&mut self) -> (r: Result<(), std::io::Error>)
        ensures
            final(self)@@ == old(self)@@,
            r is Ok,
    {
        Ok(())
    }
}

impl<W> WriteColor for NoColor<W> {
    fn supports_color(&self) -> (b: bool)
        ensures
            !b,
    {
        false
    }

    fn supports_hyperlinks(&self) -> (b: bool)
        ensures
            !b,
    {
        false
    }

    open spec fn set_color_effect(
        &self,
        after: &NoColor<W>,
        spec: ColorSpecView,
        r: Result<(), std::io::Error>,
    ) -> bool {
        r is Ok && after@ == self@
    }

    open spec fn reset_effect(
        &self,
        after: &NoColor<W>,
        r: Result<(), std::io::Error>,
    ) -> bool {
        r is Ok && after@ == self@
    }

    fn set_color(&mut self, _spec: &ColorSpec) -> (r: Result<(), std::io::Error>)
        ensures
            r is Ok,
            final(self)@ == old(self)@,
    {
        Ok(())
    }

    fn set_hyperlink(&mut self, _link: &HyperlinkSpec) -> (r: Result<(), std::io::Error>)
        ensures
            r is Ok,
            final(self)@ == old(self)@,
    {
        Ok(())
    }

    fn reset(&mut self) -> (r: Result<(), std::io::Error>)
        ensures
            r is Ok,
            final(self)@ == old(self)@,
    {
        Ok(())
    }

    fn is_synchronous(&self) -> (b: bool)
        ensures
            !b,
    {
        false
    }
}

/// Satisfies `WriteColor` using standard ANSI escape sequences.
#[derive(Clone, Debug)]
pub struct Ansi<W>(W);

impl<W> View for Ansi<W> {
    type V = W;

    closed spec fn view(&self) -> W {
        self.0
    }
}

impl<W> Ansi<W> {
    /// Create a new writer that satisfies `WriteColor` using standard ANSI
    /// escape sequences.
    pub fn new(wtr: W) -> (a: Ansi<W>)
        ensures
            a@ == wtr,
    {
        Ansi(wtr)
    }

    /// Consume this `Ansi` value and return the inner writer.
    pub fn into_inner(self) -> (w: W)
        ensures
            w == self@,
    {
        self.0
    }

    /// Return a reference to the inner writer.
    pub fn get_ref(&self) -> (w: &W)
        ensures
            *w == self@,
    {
        &self.0
    }

    /// Return a mutable reference to the inner writer.
    pub fn get_mut(&mut self) -> (w: &mut W)
        ensures
            *w == old(self)@,
            final(self)@ == *final(w),
    {
        &mut self.0
    }
}

impl std::io::Write for Ansi<Vec<u8>> {
    fn write(&mut self, buf: &[u8]) -> (r: Result<usize, std::io::Error>)
        ensures
            final(self)@@ == old(self)@@ + buf@,
            r matches Ok(n) && n == buf@.len(),
    {
        push_slice(&mut self.0, buf);
        Ok(buf.len())
    }

    fn write_all(&mut self, buf: &[u8]) -> (r: Result<(), std::io::Error>)
        ensures
            final(self)@@ == old(self)@@ + buf@,
            r is Ok,
    {
        push_slice(&mut self.0, buf);
        Ok(())
    }

    fn flush(&mut self) -> (r: Result<(), std::io::Error>)
        ensures
            final(self)@@ == old(self)@@,
            r is Ok,
    {
        Ok(())
    }
}

impl Ansi<Vec<u8>> {
    /// Writes the bytes of `s`.
    pub fn write_str(&mut self, s: &str) -> (r: Result<(), std::io::Error>)
        ensures
            final(self)@@ == old(self)@@ + s.spec_bytes(),
            r is Ok,
    {
        push_slice(&mut self.0, s.as_bytes());
        Ok(())
    }

    /// Writes the escape sequence that sets the foreground (`fg`) or
    /// background color to `c`.
    pub fn write_color(&mut self, fg: bool, c: Color, intense: bool) -> (r: Result<
        (),
        std::io::Error,
    >)
        ensures
            final(self)@@ == old(self)@@ + color_escape(fg, c, intense),
            r is Ok,
    {
        push_color_escape(&mut self.0, fg, c, intense);
        Ok(())
    }
}

impl WriteColor for Ansi<Vec<u8>> {
    fn supports_color(&self) -> (b: bool)
        ensures
            b,
    {
        true
    }

    fn supports_hyperlinks(&self) -> (b: bool)
        ensures
            b,
    {
        true
    }

    open spec fn set_color_effect(
        &self,
        after: &Ansi<Vec<u8>>,
        spec: ColorSpecView,
        r: Result<(), std::io::Error>,
    ) -> bool {
        r is Ok && after@@ == self@@ + color_spec_escape(spec)
    }

    open spec fn reset_effect(
        &self,
        after: &Ansi<Vec<u8>>,
        r: Result<(), std::io::Error>,
    ) -> bool {
        r is Ok && after@@ == self@@ + reset_escape()
    }

    fn set_color(&mut self, spec: &ColorSpec) -> (r: Result<(), std::io::Error>)
        ensures
            final(self)@@ == old(self)@@ + color_spec_escape(spec@),
            r is Ok,
    {
        push_color_spec_escape(&mut self.0, spec);
        Ok(())
    }

    fn set_hyperlink(&mut self, link: &HyperlinkSpec) -> (r: Result<(), std::io::Error>)
        ensures
            final(self)@@ == old(self)@@ + hyperlink_escape(link@),
            r is Ok,
    {
        push_hyperlink_escape(&mut self.0, link.uri());
        Ok(())
    }

    fn reset(&mut self) -> (r: Result<(), std::io::Error>)
        ensures
            final(self)@@ == old(self)@@ + reset_escape(),
            r is Ok,
    {
        push_reset_escape(&mut self.0);
        Ok(())
    }

    fn is_synchronous(&self) -> (b: bool)
        ensures
            !b,
    {
        false
    }
}

impl<'a, T: ?Sized + WriteColor> WriteColor for &'a mut T {
    fn supports_color(&self) -> (b: bool)
        ensures
            call_ensures(T::supports_color, (&*old(*self),), b),
    {
        (**self).supports_color()
    }

    fn supports_hyperlinks(&self) -> (b: bool)
        ensures
            call_ensures(T::supports_hyperlinks, (&*old(*self),), b),
    {
        (**self).supports_hyperlinks()
    }

    open spec fn set_color_effect(
        &self,
        after: &Self,
        spec: ColorSpecView,
        r: Result<(), std::io::Error>,
    ) -> bool {
        T::set_color_effect(&**self, &**after, spec, r)
    }

    fn set_color(&mut self, spec: &ColorSpec) -> (r: Result<(), std::io::Error>)
        ensures
            &*final(*final(self)) == &*final(*old(self)),
    {
        (**self).set_color(spec)
    }

    fn set_hyperlink(&mut self, link: &HyperlinkSpec) -> (r: Result<(), std::io::Error>)
        ensures
            exists|m: &mut T|
                &*m == &**old(self) && &*final(m) == &**final(self)
                    && #[trigger] call_ensures(T::set_hyperlink, (m, link), r),
            &*final(*final(self)) == &*final(*old(self)),
    {
        let forward = T::set_hyperlink;
        let inner: &mut T = &mut **self;
        forward(inner, link)
    }

    open spec fn reset_effect(&self, after: &Self, r: Result<(), std::io::Error>) -> bool {
        T::reset_effect(&**self, &**after, r)
    }

    fn reset(&mut self) -> (r: Result<(), std::io::Error>)
        ensures
            &*final(*final(self)) == &*final(*old(self)),
    {
        (**self).reset()
    }

    fn is_synchronous(&self) -> (b: bool)
        ensures
            call_ensures(T::is_synchronous, (&*old(*self),), b),
    {
        (**self).is_synchronous()
    }
}

impl<T: ?Sized + WriteColor> WriteColor for Box<T> {
    fn supports_color(&self) -> (b: bool)
        ensures
            call_ensures(T::supports_color, (&**self,), b),
    {
        (**self).supports_color()
    }

    fn supports_hyperlinks(&self) -> (b: bool)
        ensures
            call_ensures(T::supports_hyperlinks, (&**self,), b),
    {
        (**self).supports_hyperlinks()
    }

    open spec fn set_color_effect(
        &self,
        after: &Self,
        spec: ColorSpecView,
        r: Result<(), std::io::Error>,
    ) -> bool {
        T::set_color_effect(&**self, &**after, spec, r)
    }

    fn set_color(&mut self, spec: &ColorSpec) -> Result<(), std::io::Error> {
        (**self).set_color(spec)
    }

    fn set_hyperlink(&mut self, link: &HyperlinkSpec) -> (r: Result<(), std::io::Error>)
        ensures
            exists|m: &mut T|
                &*m == &**old(self) && &*final(m) == &**final(self)
                    && #[trigger] call_ensures(T::set_hyperlink, (m, link), r),
    {
        let forward = T::set_hyperlink;
        let inner: &mut T = &mut **self;
        forward(inner, link)
    }

    open spec fn reset_effect(&self, after: &Self, r: Result<(), std::io::Error>) -> bool {
        T::reset_effect(&**self, &**after, r)
    }

    fn reset(&mut self) -> Result<(), std::io::Error> {
        (**self).reset()
    }

    fn is_synchronous(&self) -> (b: bool)
        ensures
            call_ensures(T::is_synchronous, (&**self,), b),
    {
        (**self).is_synchronous()
    }
}

} // verus!
