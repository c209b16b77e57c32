//! In-memory buffers of colored text, and the writer that prints them whole.
use vstd::prelude::*;

use crate::choice::{attempts_color, ColorChoice, ColorEnv};
use crate::color_spec::ColorSpec;
use crate::escape::{
    color_spec_escape, hyperlink_escape, push_color_spec_escape, push_hyperlink_escape,
    push_reset_escape, push_slice, reset_escape,
};
use crate::writer::{Ansi, HyperlinkSpec, NoColor, WriteColor};

verus! {

/// Write colored text to memory.
///
/// `Buffer` is a platform independent abstraction for printing colored text
/// to an in memory buffer. When the buffer is printed using a
/// `BufferWriter`, the color information will be applied to the output
/// device.
///
/// A `Buffer` is typically created by calling the `BufferWriter.buffer`
/// method, which takes color preferences and the environment into account.
/// However, buffers can also be manually created using `no_color` or `ansi`.
#[derive(Clone, Debug)]
pub struct Buffer(BufferInner);

/// `BufferInner` is an enumeration of different buffer types.
#[derive(Clone, Debug)]
enum BufferInner {
    /// No coloring information should be applied. This ignores all coloring
    /// directives.
    NoColor(NoColor<Vec<u8>>),
    /// Apply coloring using ANSI escape sequences embedded into the buffer.
    Ansi(Ansi<Vec<u8>>),
}

/// What a `Buffer` holds: whether it writes ANSI escape sequences, and its
/// bytes.
pub struct BufferView {
    pub ansi: bool,
    pub data: Seq<u8>,
}

impl View for Buffer {
    type V = BufferView;

    closed spec fn view(&self) -> BufferView {
        match self.0 {
            BufferInner::NoColor(w) => BufferView { ansi: false, data: w@@ },
            BufferInner::Ansi(w) => BufferView { ansi: true, data: w@@ },
        }
    }
}

/// What a buffer of the given kind writes when a color specification is
/// applied: the escape sequence if it uses ANSI, nothing otherwise.
pub open spec fn buffer_color_output(ansi: bool, spec: crate::color_spec::ColorSpecView) -> Seq<
    u8,
> {
    if ansi {
        color_spec_escape(spec)
    } else {
        Seq::<u8>::empty()
    }
}

impl Buffer {
    /// Create a new buffer with the given color settings: it uses ANSI
    /// escape sequences exactly when `choice` attempts colors in `env`.
    pub fn new(choice: ColorChoice, env: &ColorEnv) -> (b: Buffer)
        ensures
            b@.ansi == attempts_color(choice, env@),
            b@.data.len() == 0,
    {
        if choice.should_attempt_color(env) {
            Buffer::ansi()
        } else {
            Buffer::no_color()
        }
    }

    /// Create a buffer that drops all color information.
    pub fn no_color() -> (b: Buffer)
        ensures
            !b@.ansi,
            b@.data.len() == 0,
    {
        Buffer(BufferInner::NoColor(NoColor::new(Vec::new())))
    }

    /// Create a buffer that uses ANSI escape sequences.
    pub fn ansi() -> (b: Buffer)
        ensures
            b@.ansi,
            b@.data.len() == 0,
    {
        Buffer(BufferInner::Ansi(Ansi::new(Vec::new())))
    }

    /// Returns true if and only if this buffer is empty.
    pub fn is_empty(&self) -> (r: bool)
        ensures
            r == (self@.data.len() == 0),
    {
        self.len() == 0
    }

    /// Returns the length of this buffer in bytes.
    pub fn len(&self) -> (n: usize)
        ensures
            n == self@.data.len(),
    {
        match &self.0 {
            BufferInner::NoColor(b) => b.get_ref().len(),
            BufferInner::Ansi(b) => b.get_ref().len(),
        }
    }

    /// Clears this buffer.
    pub fn clear(&mut self)
        ensures
            final(self)@.ansi == old(self)@.ansi,
            final(self)@.data.len() == 0,
    {
        match &mut self.0 {
            BufferInner::NoColor(b) => b.get_mut().clear(),
            BufferInner::Ansi(b) => b.get_mut().clear(),
        }
    }

    /// Consume this buffer and return the underlying raw data.
    pub fn into_inner(self) -> (v: Vec<u8>)
        ensures
            v@ == self@.data,
    {
        match self.0 {
            BufferInner::NoColor(b) => b.into_inner(),
            BufferInner::Ansi(b) => b.into_inner(),
        }
    }

    /// Return the underlying data of the buffer.
    pub fn as_slice(&self) -> (s: &[u8])
        ensures
            s@ == self@.data,
    {
        match &self.0 {
            BufferInner::NoColor(b) => b.get_ref().as_slice(),
            BufferInner::Ansi(b) => b.get_ref().as_slice(),
        }
    }

    /// Return the underlying data of the buffer as a mutable slice.
    pub fn as_mut_slice(&mut self) -> (s: &mut [u8])
        ensures
            s@ == old(self)@.data,
            final(self)@.ansi == old(self)@.ansi,
            final(self)@.data == final(s)@,
    {
        match &mut self.0 {
            BufferInner::NoColor(b) => b.get_mut().as_mut_slice(),
            BufferInner::Ansi(b) => b.get_mut().as_mut_slice(),
        }
    }

    /// Appends `bytes` to the buffer's data.
    fn append(&mut self, bytes: &[u8])
        ensures
            final(self)@.ansi == old(self)@.ansi,
            final(self)@.data == old(self)@.data + bytes@,
    {
        match &mut self.0 {
            BufferInner::NoColor(b) => push_slice(b.get_mut(), bytes),
            BufferInner::Ansi(b) => push_slice(b.get_mut(), bytes),
        }
    }
}

impl std::io::Write for Buffer {
    fn write(&mut self, buf: &[u8]) -> (r: Result<usize, std::io::Error>)
        ensures
            final(self)@.ansi == old(self)@.ansi,
            final(self)@.data == old(self)@.data + buf@,
            r matches Ok(n) && n == buf@.len(),
    {
        self.append(buf);
        Ok(buf.len())
    }

    fn flush(&mut self) -> (r: Result<(), std::io::Error>)
        ensures
            final(self)@ == old(self)@,
            r is Ok,
    {
        Ok(())
    }
}

impl WriteColor for Buffer {
    fn supports_color(&self) -> (b: bool)
        ensures
            b == self@.ansi,
    {
        match self.0 {
            BufferInner::NoColor(_) => false,
            BufferInner::Ansi(_) => true,
        }
    }

    fn supports_hyperlinks(&self) -> (b: bool)
        ensures
            b == self@.ansi,
    {
        match self.0 {
            BufferInner::NoColor(_) => false,
            BufferInner::Ansi(_) => true,
        }
    }

    open spec fn set_color_effect(
        &self,
        after: &Buffer,
        spec: crate::color_spec::ColorSpecView,
        r: Result<(), std::io::Error>,
    ) -> bool {
        &&& r is Ok
        &&& after@.ansi == self@.ansi
        &&& after@.data == self@.data + buffer_color_output(self@.ansi, spec)
    }

    open spec fn reset_effect(&self, after: &Buffer, r: Result<(), std::io::Error>) -> bool {
        &&& r is Ok
        &&& after@.ansi == self@.ansi
        &&& after@.data == self@.data + (if self@.ansi {
            reset_escape()
        } else {
            Seq::<u8>::empty()
        })
    }

    fn set_color(&mut self, spec: &ColorSpec) -> (r: Result<(), std::io::Error>)
        ensures
            final(self)@.ansi == old(self)@.ansi,
            final(self)@.data == old(self)@.data + buffer_color_output(old(self)@.ansi, spec@),
            r is Ok,
    {
        match &mut self.0 {
            BufferInner::NoColor(_) => {
                assert(old(self)@.data + Seq::<u8>::empty() =~= old(self)@.data);
            },
            BufferInner::Ansi(b) => push_color_spec_escape(b.get_mut(), spec),
        }
        Ok(())
    }

    fn set_hyperlink(&mut self, link: &HyperlinkSpec) -> (r: Result<(), std::io::Error>)
        ensures
            final(self)@.ansi == old(self)@.ansi,
            final(self)@.data == old(self)@.data + (if old(self)@.ansi {
                hyperlink_escape(link@)
            } else {
                Seq::<u8>::empty()
            }),
            r is Ok,
    {
        match &mut self.0 {
            BufferInner::NoColor(_) => {
                assert(old(self)@.data + Seq::<u8>::empty() =~= old(self)@.data);
            },
            BufferInner::Ansi(b) => push_hyperlink_escape(b.get_mut(), link.uri()),
        }
        Ok(())
    }

    fn reset(&mut self) -> (r: Result<(), std::io::Error>)
        ensures
            final(self)@.ansi == old(self)@.ansi,
            final(self)@.data == old(self)@.data + (if old(self)@.ansi {
                reset_escape()
            } else {
                Seq::<u8>::empty()
            }),
            r is Ok,
    {
        match &mut self.0 {
            BufferInner::NoColor(_) => {
                assert(old(self)@.data + Seq::<u8>::empty() =~= old(self)@.data);
            },
            BufferInner::Ansi(b) => push_reset_escape(b.get_mut()),
        }
        Ok(())
    }

    fn is_synchronous(&self) -> (b: bool)
        ensures
            !b,
    {
        false
    }
}

/// The standard stream that a `BufferWriter` prints to.
#[derive(Clone, Copy, Debug, PartialEq, Eq, Structural)]
pub enum StandardTarget {
    /// Standard output.
    Stdout,
    /// Standard error.
    Stderr,
}

/// Writes colored buffers to stdout or stderr.
///
/// Writable buffers can be obtained by calling `buffer` on a `BufferWriter`.
///
/// This writer works with terminals that support ANSI escape sequences.
///
/// A `BufferWriter` decides what printing a buffer writes: the buffer's
/// bytes, whole, preceded by the separator line when one is set and a buffer
/// was printed before. The caller writes those bytes to the stream in one
/// piece and then records the print with `mark_printed`.
#[derive(Debug)]
pub struct BufferWriter {
    stream: StandardTarget,
    printed: bool,
    separator: Option<Vec<u8>>,
    color_choice: ColorChoice,
}

/// The state of a `BufferWriter`.
pub struct BufferWriterView {
    pub stream: StandardTarget,
    pub printed: bool,
    pub separator: Option<Seq<u8>>,
    pub color_choice: ColorChoice,
}

impl View for BufferWriter {
    type V = BufferWriterView;

    closed spec fn view(&self) -> BufferWriterView {
        BufferWriterView {
            stream: self.stream,
            printed: self.printed,
            separator: match self.separator {
                Some(s) => Some(s@),
                None => None,
            },
            color_choice: self.color_choice,
        }
    }
}

/// What printing a buffer with bytes `data` writes: nothing for an empty
/// buffer; otherwise the separator and a newline if a separator is set and a
/// buffer was printed before, then the bytes.
pub open spec fn print_output(printed: bool, separator: Option<Seq<u8>>, data: Seq<u8>) -> Seq<
    u8,
> {
    if data.len() == 0 {
        Seq::<u8>::empty()
    } else {
        match separator {
            Some(sep) => if printed {
                sep.push(0x0Au8) + data
            } else {
                data
            },
            None => data,
        }
    }
}

impl BufferWriter {
    fn create(stream: StandardTarget, choice: ColorChoice) -> (w: BufferWriter)
        ensures
            w@ == (BufferWriterView {
                stream,
                printed: false,
                separator: None,
                color_choice: choice,
            }),
    {
        BufferWriter { stream, printed: false, separator: None, color_choice: choice }
    }

    /// Create a new `BufferWriter` that writes to stdout with the given
    /// color preferences.
    pub fn stdout(choice: ColorChoice) -> (w: BufferWriter)
        ensures
            w@ == (BufferWriterView {
                stream: StandardTarget::Stdout,
                printed: false,
                separator: None,
                color_choice: choice,
            }),
    {
        BufferWriter::create(StandardTarget::Stdout, choice)
    }

    /// Create a new `BufferWriter` that writes to stderr with the given
    /// color preferences.
    pub fn stderr(choice: ColorChoice) -> (w: BufferWriter)
        ensures
            w@ == (BufferWriterView {
                stream: StandardTarget::Stderr,
                printed: false,
                separator: None,
                color_choice: choice,
            }),
    {
        BufferWriter::create(StandardTarget::Stderr, choice)
    }

    /// The standard stream this writer prints to.
    pub fn stream(&self) -> (t: StandardTarget)
        ensures
            t == self@.stream,
    {
        self.stream
    }

    /// If set, the separator given is printed between buffers. By default,
    /// no separator is printed.
    pub fn separator(&mut self, sep: Option<Vec<u8>>)
        ensures
            final(self)@ == (BufferWriterView {
                separator: match sep {
                    Some(s) => Some(s@),
                    None => None,
                },
                ..old(self)@
            }),
    {
        self.separator = sep;
    }

    /// Creates a new `Buffer` with the current color preferences, as the
    /// environment `env` refines them.
    pub fn buffer(&self, env: &ColorEnv) -> (b: Buffer)
        ensures
            b@.ansi == attempts_color(self@.color_choice, env@),
            b@.data.len() == 0,
    {
        Buffer::new(self.color_choice, env)
    }

    /// The bytes that printing `buf` writes to the stream, in one piece:
    /// nothing for an empty buffer; otherwise the separator line, when a
    /// separator is set and a buffer was printed before, then the buffer.
    pub fn print(&self, buf: &Buffer) -> (out: Vec<u8>)
        ensures
            out@ == print_output(self@.printed, self@.separator, buf@.data),
    {
        let mut out: Vec<u8> = Vec::new();
        if buf.is_empty() {
            return out;
        }
        if self.printed {
            if let Some(sep) = &self.separator {
                push_slice(&mut out, sep.as_slice());
                out.push(0x0A);
            }
        }
        push_slice(&mut out, buf.as_slice());
        out
    }

    /// Records that a non-empty buffer was written to the stream, so that
    /// the next one is preceded by the separator.
    pub fn mark_printed(&mut self)
        ensures
            final(self)@ == (BufferWriterView { printed: true, ..old(self)@ }),
    {
        self.printed = true;
    }
}

} // verus!
