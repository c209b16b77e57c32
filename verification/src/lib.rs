//! Colored text for terminals, written with ANSI escape sequences.
//!
//! - `color`: the `Color` type and its human readable syntax.
//! - `color_spec`: `ColorSpec`, a foreground and background color plus styles.
//! - `escape`: the escape sequences that colors, styles and hyperlinks are
//!   written as.
//! - `writer`: the `WriteColor` trait, `HyperlinkSpec`, and the `Ansi` and
//!   `NoColor` writers.
//! - `choice`: `ColorChoice`, an end user's preference, and the environment
//!   that refines `Auto`.
//! - `buffer`: in-memory `Buffer`s and the `BufferWriter` that prints them.
//! - `laws`: properties that span several of these.

mod text;

pub mod buffer;
pub mod choice;
pub mod color;
pub mod color_spec;
pub mod escape;
pub mod laws;
pub mod writer;

pub use buffer::{Buffer, BufferWriter, StandardTarget};
pub use choice::{ColorChoice, ColorChoiceParseError, ColorEnv};
pub use color::{Color, ParseColorError, ParseColorErrorKind};
pub use color_spec::ColorSpec;
pub use writer::{Ansi, HyperlinkSpec, NoColor, WriteColor};
