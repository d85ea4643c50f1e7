//! The trusted boundary to the terminal-color crate.
//!
//! The byte buffer that accumulates one record and the handle on the real
//! stream are termcolor's; everything the rest of the crate knows about them
//! is stated here, over the names `buffer_bytes`, `buffer_colored`,
//! `writer_resolved`, `writer_colored` and `writer_is_stdout`, and over the
//! concrete escape-byte layout `style_escape`.

use std::io::Write;
use termcolor::Color as TC;
use vstd::prelude::*;

use crate::style;
use crate::writer::WriteStyle;

verus! {

#[verifier::external_type_specification]
#[verifier::external_body]
pub struct ExBuffer(termcolor::Buffer);

#[verifier::external_type_specification]
#[verifier::external_body]
pub struct ExBufferWriter(termcolor::BufferWriter);

/// The bytes a buffer holds.
pub uninterp spec fn buffer_bytes(b: termcolor::Buffer) -> Seq<u8>;

/// Whether a buffer was created color-capable, so that styling calls append
/// escape sequences to it rather than doing nothing.
pub uninterp spec fn buffer_colored(b: termcolor::Buffer) -> bool;

/// Whether a stream writer's color capability is pinned — made with a color
/// choice that never consults the environment again — so that every buffer it
/// hands out has one and the same capability.
pub uninterp spec fn writer_resolved(w: termcolor::BufferWriter) -> bool;

/// Whether a resolved stream writer hands out color-capable buffers.
pub uninterp spec fn writer_colored(w: termcolor::BufferWriter) -> bool;

/// Whether a stream writer was opened on standard output (else standard
/// error).
pub uninterp spec fn writer_is_stdout(w: termcolor::BufferWriter) -> bool;

/// The escape bytes for one color, as the ANSI writer forms them: `ESC [ 3 d
/// m` for a named foreground color and `ESC [ 4 d m` for a named background
/// color, with `d` the color's fixed digit; the palette form `38;5;`/`48;5;`
/// and the true-color form `38;2;`/`48;2;` carry their arguments as bare
/// decimal digits.
pub open spec fn color_escape(fg: bool, c: style::Color) -> Seq<u8> {
    let lead: u8 = if fg {
        51u8
    } else {
        52u8
    };
    match c {
        style::Color::Black => seq![27u8, 91u8, lead, 48u8, 109u8],
        style::Color::Blue => seq![27u8, 91u8, lead, 52u8, 109u8],
        style::Color::Green => seq![27u8, 91u8, lead, 50u8, 109u8],
        style::Color::Red => seq![27u8, 91u8, lead, 49u8, 109u8],
        style::Color::Cyan => seq![27u8, 91u8, lead, 54u8, 109u8],
        style::Color::Magenta => seq![27u8, 91u8, lead, 53u8, 109u8],
        style::Color::Yellow => seq![27u8, 91u8, lead, 51u8, 109u8],
        style::Color::White => seq![27u8, 91u8, lead, 55u8, 109u8],
        style::Color::Ansi256(n) => seq![27u8, 91u8, lead, 56u8, 59u8, 53u8, 59u8]
            + crate::style::u64_text(n as u64) + seq![109u8],
        style::Color::Rgb(r, g, b) => seq![27u8, 91u8, lead, 56u8, 59u8, 50u8, 59u8]
            + crate::style::u64_text(r as u64) + seq![59u8] + crate::style::u64_text(g as u64)
            + seq![59u8] + crate::style::u64_text(b as u64) + seq![109u8],
    }
}

/// The escape bytes a color-capable buffer is given when a style with these
/// fields is applied to it: the reset escape first, then `ESC [ 1 m` for
/// bold weight, then the foreground and the background color escapes.
pub open spec fn style_escape(fg: Option<style::Color>, bg: Option<style::Color>, bold: bool) -> Seq<
    u8,
> {
    reset_escape() + (if bold {
        seq![27u8, 91u8, 49u8, 109u8]
    } else {
        Seq::<u8>::empty()
    }) + (match fg {
        Some(c) => color_escape(true, c),
        None => Seq::<u8>::empty(),
    }) + (match bg {
        Some(c) => color_escape(false, c),
        None => Seq::<u8>::empty(),
    })
}

/// The escape bytes that return a color-capable terminal to its default
/// style: `ESC [ 0 m`.
pub open spec fn reset_escape() -> Seq<u8> {
    seq![27u8, 91u8, 48u8, 109u8]
}

/// An error from printing to the real stream, carrying the operating
/// system's error code where one was reported.
#[derive(Clone, Copy, Debug, Eq, PartialEq, Structural)]
pub struct PrintError {
    /// The OS error code of the failed write, if the error carried one.
    pub raw_os_error: Option<i32>,
}

/// Relies on `BufferWriter::stdout`: the writer is opened on standard
/// output; with the `Always` choice every buffer it hands out is
/// color-capable, with `Never` none is, and with `Auto` the capability is
/// read from the environment anew at each buffer, so nothing is pinned.
#[verifier::external_body]
pub(crate) fn buffer_writer_stdout(style: WriteStyle) -> (r: termcolor::BufferWriter)
    ensures
        writer_is_stdout(r),
        style == WriteStyle::Always ==> writer_resolved(r) && writer_colored(r),
        style == WriteStyle::Never ==> writer_resolved(r) && !writer_colored(r),
{
    termcolor::BufferWriter::stdout(match style {
        WriteStyle::Auto => termcolor::ColorChoice::Auto,
        WriteStyle::Always => termcolor::ColorChoice::Always,
        WriteStyle::Never => termcolor::ColorChoice::Never,
    })
}

/// Relies on `BufferWriter::stderr`, as `buffer_writer_stdout` does on
/// `BufferWriter::stdout`.
#[verifier::external_body]
pub(crate) fn buffer_writer_stderr(style: WriteStyle) -> (r: termcolor::BufferWriter)
    ensures
        !writer_is_stdout(r),
        style == WriteStyle::Always ==> writer_resolved(r) && writer_colored(r),
        style == WriteStyle::Never ==> writer_resolved(r) && !writer_colored(r),
{
    termcolor::BufferWriter::stderr(match style {
        WriteStyle::Auto => termcolor::ColorChoice::Auto,
        WriteStyle::Always => termcolor::ColorChoice::Always,
        WriteStyle::Never => termcolor::ColorChoice::Never,
    })
}

/// Relies on `BufferWriter::buffer`: a fresh, empty buffer; on a writer with
/// a pinned color choice its capability matches that choice.
#[verifier::external_body]
pub(crate) fn writer_buffer(w: &termcolor::BufferWriter) -> (r: termcolor::Buffer)
    ensures
        buffer_bytes(r) == Seq::<u8>::empty(),
        writer_resolved(*w) ==> buffer_colored(r) == writer_colored(*w),
{
    w.buffer()
}

/// Relies on `Buffer::supports_color`: true exactly of a color-capable
/// buffer.
#[verifier::external_body]
pub(crate) fn buffer_supports_color(b: &termcolor::Buffer) -> (r: bool)
    ensures
        r == buffer_colored(*b),
{
    termcolor::WriteColor::supports_color(b)
}

/// Relies on `Buffer`'s `io::Write`: writing appends the bytes, all of them,
/// to the in-memory buffer, and cannot fail there.
#[verifier::external_body]
pub(crate) fn buffer_write(b: &mut termcolor::Buffer, bytes: &[u8])
    ensures
        buffer_bytes(*final(b)) == buffer_bytes(*old(b)) + bytes@,
        buffer_colored(*final(b)) == buffer_colored(*old(b)),
{
    let _ = b.write_all(bytes);
}

/// Relies on `Buffer::set_color`: on a color-capable buffer it appends
/// exactly `style_escape(fg, bg, bold)` — the descriptor handed over is
/// fresh, so its reset flag is set and nothing but these three fields is; on
/// a plain buffer it does nothing.
#[verifier::external_body]
pub(crate) fn buffer_set_color(
    b: &mut termcolor::Buffer,
    fg: Option<style::Color>,
    bg: Option<style::Color>,
    bold: bool,
)
    ensures
        buffer_colored(*final(b)) == buffer_colored(*old(b)),
        buffer_colored(*old(b)) ==> buffer_bytes(*final(b)) == buffer_bytes(*old(b)) + style_escape(
            fg,
            bg,
            bold,
        ),
        !buffer_colored(*old(b)) ==> buffer_bytes(*final(b)) == buffer_bytes(*old(b)),
{
    let cv = |c: style::Color| match c {
        style::Color::Black => TC::Black, style::Color::Blue => TC::Blue,
        style::Color::Green => TC::Green, style::Color::Red => TC::Red,
        style::Color::Cyan => TC::Cyan, style::Color::Magenta => TC::Magenta,
        style::Color::Yellow => TC::Yellow, style::Color::White => TC::White,
        style::Color::Ansi256(n) => TC::Ansi256(n), style::Color::Rgb(r, g, bl) => TC::Rgb(r, g, bl),
    };
    let mut s = termcolor::ColorSpec::new();
    s.set_fg(fg.map(cv));
    s.set_bg(bg.map(cv));
    s.set_bold(bold);
    let _ = termcolor::WriteColor::set_color(b, &s);
}

/// Relies on `Buffer::reset`: on a color-capable buffer it appends the reset
/// escape `ESC [ 0 m`; on a plain buffer it does nothing.
#[verifier::external_body]
pub(crate) fn buffer_reset(b: &mut termcolor::Buffer)
    ensures
        buffer_colored(*final(b)) == buffer_colored(*old(b)),
        buffer_colored(*old(b)) ==> buffer_bytes(*final(b)) == buffer_bytes(*old(b)) + reset_escape(),
        !buffer_colored(*old(b)) ==> buffer_bytes(*final(b)) == buffer_bytes(*old(b)),
{
    let _ = termcolor::WriteColor::reset(b);
}

/// Relies on `Buffer::clear`: the bytes are dropped, the color capability is
/// kept.
#[verifier::external_body]
pub(crate) fn buffer_clear(b: &mut termcolor::Buffer)
    ensures
        buffer_bytes(*final(b)) == Seq::<u8>::empty(),
        buffer_colored(*final(b)) == buffer_colored(*old(b)),
{
    b.clear();
}

/// Relies on `Buffer::as_slice`: the raw bytes accumulated so far.
#[verifier::external_body]
pub(crate) fn buffer_contents(b: &termcolor::Buffer) -> (r: Vec<u8>)
    ensures
        r@ == buffer_bytes(*b),
{
    b.as_slice().to_vec()
}

/// Relies on `BufferWriter::print`: the buffer's bytes go to the real stream
/// in one atomic call; the buffer itself is left untouched.
#[verifier::external_body]
pub(crate) fn writer_print(w: &termcolor::BufferWriter, b: &termcolor::Buffer) -> Result<
    (),
    PrintError,
> {
    match w.print(b) {
        Ok(()) => Ok(()),
        Err(e) => Err(PrintError { raw_os_error: e.raw_os_error() }),
    }
}

} // verus!
