//! The per-record formatter: one byte buffer per log record, shared by every
//! style minted from it.

use vstd::prelude::*;

use crate::style::{ColorSpec, Style};
use crate::term;
use crate::term::PrintError;
use crate::timestamp::Timestamp;
use crate::writer::{Writer, WriteStyle};

verus! {

/// A formatter to write one log record into.
///
/// It accumulates the record's bytes — plain writes and styled spans alike —
/// in a single buffer, in the order the writes were issued, and hands the
/// finished bytes to a [`Writer`] in one print call.
pub struct Formatter {
    pub(crate) buf: termcolor::Buffer,
    pub(crate) write_style: WriteStyle,
}

impl View for Formatter {
    type V = Seq<u8>;

    /// The bytes accumulated for the current record.
    closed spec fn view(&self) -> Seq<u8> {
        term::buffer_bytes(self.buf)
    }
}

impl Formatter {
    /// Whether styled spans written through this formatter carry escape
    /// sequences.
    pub closed spec fn colored(&self) -> bool {
        term::buffer_colored(self.buf)
    }

    /// The policy the owning writer was built with.
    pub closed spec fn spec_write_style(&self) -> WriteStyle {
        self.write_style
    }

    /// A fresh formatter for one record: an empty buffer, colored exactly as
    /// the writer's policy resolved.
    pub fn new(writer: &Writer) -> (r: Formatter)
        ensures
            r@ == Seq::<u8>::empty(),
            r.colored() == writer.colored(),
            r.spec_write_style() == writer.spec_write_style(),
    {
        Formatter {
            buf: writer.fresh_buffer(),
            write_style: writer.write_style(),
        }
    }

    /// The policy the owning writer was built with.
    pub fn write_style(&self) -> (r: WriteStyle)
        ensures
            r == self.spec_write_style(),
    {
        self.write_style
    }

    /// Append plain bytes to the record; they follow everything written so
    /// far.
    pub fn write(&mut self, buf: &[u8])
        ensures
            final(self)@ == old(self)@ + buf@,
            final(self).colored() == old(self).colored(),
            final(self).spec_write_style() == old(self).spec_write_style(),
    {
        term::buffer_write(&mut self.buf, buf);
    }

    /// Begin a new [`Style`], with nothing set; its styled values write into
    /// this formatter's buffer.
    pub fn style(&self) -> (r: Style)
        ensures
            r@ == ColorSpec::spec_empty(),
    {
        Style::plain()
    }

    /// Apply a style descriptor to the buffer's terminal-color state; on a
    /// color-capable buffer this appends the descriptor's escape bytes.
    pub(crate) fn apply_style(&mut self, cs: ColorSpec)
        ensures
            final(self).colored() == old(self).colored(),
            final(self).spec_write_style() == old(self).spec_write_style(),
            old(self).colored() ==> final(self)@ == old(self)@ + term::style_escape(
                cs.fg,
                cs.bg,
                cs.bold,
            ),
            !old(self).colored() ==> final(self)@ == old(self)@,
    {
        term::buffer_set_color(&mut self.buf, cs.fg, cs.bg, cs.bold);
    }

    /// Return the buffer's terminal-color state to the default; on a
    /// color-capable buffer this appends the reset escape.
    pub(crate) fn reset_style(&mut self)
        ensures
            final(self).colored() == old(self).colored(),
            final(self).spec_write_style() == old(self).spec_write_style(),
            old(self).colored() ==> final(self)@ == old(self)@ + term::reset_escape(),
            !old(self).colored() ==> final(self)@ == old(self)@,
    {
        term::buffer_reset(&mut self.buf);
    }

    /// Capture the current UTC date and time; nothing is written.
    pub fn timestamp(&self) -> (r: Timestamp)
        ensures
            r.well_formed(),
    {
        Timestamp::now()
    }

    /// Flush the accumulated record to the writer's real stream in one
    /// atomic call; the buffer keeps its contents until [`Self::clear`].
    pub fn print(&self, writer: &Writer) -> Result<(), PrintError> {
        term::writer_print(&writer.inner, &self.buf)
    }

    /// Truncate the buffer for the next record; no residual bytes survive.
    pub fn clear(&mut self)
        ensures
            final(self)@ == Seq::<u8>::empty(),
            final(self).colored() == old(self).colored(),
            final(self).spec_write_style() == old(self).spec_write_style(),
    {
        term::buffer_clear(&mut self.buf);
    }

    /// The bytes accumulated so far.
    pub fn contents(&self) -> (r: Vec<u8>)
        ensures
            r@ == self@,
    {
        term::buffer_contents(&self.buf)
    }
}

} // verus!
