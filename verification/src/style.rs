//! Color and weight descriptors, styles, and the wrap-render-reset protocol
//! for styled values.

use vstd::prelude::*;

use crate::formatter::Formatter;
use crate::term;

verus! {

/// The colors a style can ask the terminal for: the eight ANSI base colors,
/// a 256-palette index, or a true-color triple.
#[derive(Clone, Copy, Debug, Eq, Hash, PartialEq, Structural)]
pub enum Color {
    Black,
    Blue,
    Green,
    Red,
    Cyan,
    Magenta,
    Yellow,
    White,
    Ansi256(u8),
    Rgb(u8, u8, u8),
}

/// A descriptor of foreground color, background color, and bold weight.
/// An absent color means the terminal's default is inherited.
#[derive(Clone, Copy, Debug, Eq, Hash, PartialEq, Structural)]
pub struct ColorSpec {
    /// Foreground color, if any.
    pub fg: Option<Color>,
    /// Background color, if any.
    pub bg: Option<Color>,
    /// Whether text is written in bold weight.
    pub bold: bool,
}

impl ColorSpec {
    /// A descriptor that asks for nothing: no colors, default weight.
    pub fn new() -> (r: ColorSpec)
        ensures
            r == ColorSpec::spec_empty(),
    {
        ColorSpec { fg: None, bg: None, bold: false }
    }

    /// The empty descriptor.
    pub open spec fn spec_empty() -> ColorSpec {
        ColorSpec { fg: None, bg: None, bold: false }
    }
}

/// A failure while rendering a value's textual form; escape-sequence state is
/// reset all the same, and no byte of the value reaches the buffer.
#[derive(Clone, Copy, Debug, Eq, PartialEq, Structural)]
pub struct RenderError;

/// A textual-rendering strategy: anything with a byte rendering can be
/// wrapped in a [`Style`] and written as one styled span.
pub trait Render {
    /// The bytes the value renders to when rendering succeeds.
    spec fn text(&self) -> Seq<u8>;

    /// Whether rendering is promised to succeed; every rendering the crate
    /// itself provides is.
    spec fn infallible(&self) -> bool;

    /// Render the value; on success the bytes are exactly `text()`, and an
    /// infallible value always succeeds.
    fn try_render(&self) -> (r: Result<Vec<u8>, RenderError>)
        ensures
            r matches Ok(v) ==> v@ == self.text(),
            self.infallible() ==> r is Ok,
    ;
}

impl Render for Vec<u8> {
    /// Raw bytes render as themselves.
    open spec fn text(&self) -> Seq<u8> {
        self@
    }

    open spec fn infallible(&self) -> bool {
        true
    }

    fn try_render(&self) -> (r: Result<Vec<u8>, RenderError>)
        ensures
            r matches Ok(v) ==> v@ == self.text(),
            self.infallible() ==> r is Ok,
    {
        Ok(self.clone())
    }
}

/// The decimal digit bytes of `n`, most significant first; empty when `n`
/// has no digits left.
pub open spec fn dec_digits(n: int) -> Seq<u8>
    decreases n,
{
    if n <= 0 {
        Seq::empty()
    } else {
        dec_digits(n / 10).push((48 + n % 10) as u8)
    }
}

/// The bytes an unsigned number renders to: its decimal digits, `0` for zero.
pub open spec fn u64_text(n: u64) -> Seq<u8> {
    if n == 0 {
        seq![48u8]
    } else {
        dec_digits(n as int)
    }
}

/// Render an unsigned number as decimal digit bytes.
pub fn render_decimal(n: u64) -> (r: Vec<u8>)
    ensures
        r@ == u64_text(n),
{
    if n == 0 {
        let mut out: Vec<u8> = Vec::new();
        out.push(48u8);
        proof {
            assert(out@ =~= u64_text(0));
        }
        return out;
    }
    let mut rev: Vec<u8> = Vec::new();
    let mut m = n;
    while m > 0
        invariant
            dec_digits(n as int) == dec_digits(m as int) + rev@.reverse(),
        decreases m,
    {
        let ghost prev = rev@;
        let ghost prev_m = m as int;
        rev.push(48u8 + (m % 10) as u8);
        m = m / 10;
        proof {
            assert(rev@.reverse() =~= seq![(48 + prev_m % 10) as u8] + prev.reverse());
            assert(dec_digits(m as int) + rev@.reverse() =~= dec_digits(prev_m)
                + prev.reverse());
        }
    }
    proof {
        assert(dec_digits(n as int) =~= rev@.reverse());
    }
    let mut out: Vec<u8> = Vec::new();
    let mut i = rev.len();
    while i > 0
        invariant
            i <= rev.len(),
            out@ == rev@.reverse().take(rev@.len() - i),
        decreases i,
    {
        i = i - 1;
        out.push(rev[i]);
        proof {
            assert(out@ =~= rev@.reverse().take(rev@.len() - i));
        }
    }
    proof {
        assert(out@ =~= u64_text(n));
    }
    out
}

impl Render for u64 {
    /// A number renders as its decimal digits.
    open spec fn text(&self) -> Seq<u8> {
        u64_text(*self)
    }

    open spec fn infallible(&self) -> bool {
        true
    }

    fn try_render(&self) -> (r: Result<Vec<u8>, RenderError>)
        ensures
            r matches Ok(v) ==> v@ == self.text(),
            self.infallible() ==> r is Ok,
    {
        Ok(render_decimal(*self))
    }
}

impl Render for String {
    /// A string renders as its UTF-8 bytes.
    open spec fn text(&self) -> Seq<u8> {
        vstd::utf8::encode_utf8(self@)
    }

    open spec fn infallible(&self) -> bool {
        true
    }

    fn try_render(&self) -> (r: Result<Vec<u8>, RenderError>)
        ensures
            r matches Ok(v) ==> v@ == self.text(),
            self.infallible() ==> r is Ok,
    {
        Ok(vstd::slice::slice_to_vec(self.as_str().as_bytes()))
    }
}

impl<'s> Render for &'s str {
    /// A string slice renders as its UTF-8 bytes.
    open spec fn text(&self) -> Seq<u8> {
        vstd::utf8::encode_utf8((*self)@)
    }

    open spec fn infallible(&self) -> bool {
        true
    }

    fn try_render(&self) -> (r: Result<Vec<u8>, RenderError>)
        ensures
            r matches Ok(v) ==> v@ == self.text(),
            self.infallible() ==> r is Ok,
    {
        Ok(vstd::slice::slice_to_vec(self.as_bytes()))
    }
}

/// A set of styles to apply to the terminal output.
///
/// Minted by `Formatter::style`; wrap a value with [`Style::value`] to write
/// it as one styled span. Cloning a style duplicates the descriptor; the
/// clone's values still land in the one buffer of the formatter they are
/// rendered through.
#[derive(Clone, Copy, Debug)]
pub struct Style {
    pub(crate) color_spec: ColorSpec,
}

impl View for Style {
    type V = ColorSpec;

    /// The descriptor accumulated so far.
    closed spec fn view(&self) -> ColorSpec {
        self.color_spec
    }
}

impl Style {
    /// A style with nothing set.
    pub(crate) fn plain() -> (r: Style)
        ensures
            r@ == ColorSpec::spec_empty(),
    {
        Style { color_spec: ColorSpec::new() }
    }

    /// Set the text color.
    pub fn set_color(&mut self, color: Color) -> (r: &mut Style)
        ensures
            r@ == (ColorSpec { fg: Some(color), ..old(self)@ }),
            *final(self) == *final(r),
    {
        self.color_spec.fg = Some(color);
        self
    }

    /// Set the text weight: bold if `yes`, the default weight otherwise.
    pub fn set_bold(&mut self, yes: bool) -> (r: &mut Style)
        ensures
            r@ == (ColorSpec { bold: yes, ..old(self)@ }),
            *final(self) == *final(r),
    {
        self.color_spec.bold = yes;
        self
    }

    /// Set the background color.
    pub fn set_bg(&mut self, color: Color) -> (r: &mut Style)
        ensures
            r@ == (ColorSpec { bg: Some(color), ..old(self)@ }),
            *final(self) == *final(r),
    {
        self.color_spec.bg = Some(color);
        self
    }

    /// Wrap a value in the style. The same style can wrap many values, one
    /// span each.
    pub fn value<T: Render>(&self, value: T) -> (r: StyledValue<'_, T>)
        ensures
            r.style@ == self@,
            r.value == value,
    {
        StyledValue { style: self, value }
    }
}

/// A value wrapped in a style, rendered as one span: style applied, bytes
/// written, style reset.
pub struct StyledValue<'a, T> {
    /// The style the span is written in.
    pub style: &'a Style,
    /// The wrapped value.
    pub value: T,
}

/// The bytes one styled span adds to a buffer: on a color-capable buffer the
/// style's escape bytes, the text, and the reset escape; on a plain buffer
/// the text alone.
pub open spec fn styled_bytes(colored: bool, cs: ColorSpec, text: Seq<u8>) -> Seq<u8> {
    if colored {
        term::style_escape(cs.fg, cs.bg, cs.bold) + text + term::reset_escape()
    } else {
        text
    }
}

impl<'a, T: Render> StyledValue<'a, T> {
    /// Write the wrapped value into the formatter as one styled span: apply
    /// the style, write the value's bytes, then unconditionally reset the
    /// style — whether or not the value's rendering succeeded.
    pub fn render(&self, f: &mut Formatter) -> (r: Result<(), RenderError>)
        ensures
            final(f).colored() == old(f).colored(),
            final(f).spec_write_style() == old(f).spec_write_style(),
            self.value.infallible() ==> r is Ok,
            r matches Ok(_) ==> final(f)@ == old(f)@ + styled_bytes(
                old(f).colored(),
                self.style@,
                self.value.text(),
            ),
            r matches Err(_) ==> final(f)@ == old(f)@ + styled_bytes(
                old(f).colored(),
                self.style@,
                Seq::<u8>::empty(),
            ),
    {
        let cs = self.style.color_spec;
        f.apply_style(cs);
        match self.value.try_render() {
            Ok(v) => {
                f.write(v.as_slice());
                f.reset_style();
                proof {
                    assert(final(f)@ =~= old(f)@ + styled_bytes(
                        old(f).colored(),
                        self.style@,
                        self.value.text(),
                    ));
                }
                Ok(())
            },
            Err(e) => {
                f.reset_style();
                proof {
                    assert(final(f)@ =~= old(f)@ + styled_bytes(
                        old(f).colored(),
                        self.style@,
                        Seq::<u8>::empty(),
                    ));
                }
                Err(e)
            },
        }
    }
}

/// Law: a styled render always leaves the buffer's terminal-color state at
/// "reset": whatever one span appended to a color-capable buffer — the full
/// span on success, the bare escapes on a failed value — it ends in the reset
/// escape.
pub proof fn lemma_styled_render_resets(cs: ColorSpec, text: Seq<u8>)
    ensures
        exists|prefix: Seq<u8>|
            styled_bytes(true, cs, text) == prefix + term::reset_escape(),
{
    let prefix = term::style_escape(cs.fg, cs.bg, cs.bold) + text;
    assert(styled_bytes(true, cs, text) == prefix + term::reset_escape());
}

/// Law: two styled spans rendered one after the other through the same
/// formatter land in one linear byte sequence, in the order the render calls
/// were issued — the buffer is never split.
pub proof fn lemma_renders_share_buffer(
    b0: Seq<u8>,
    colored: bool,
    cs1: ColorSpec,
    t1: Seq<u8>,
    cs2: ColorSpec,
    t2: Seq<u8>,
)
    ensures
        (b0 + styled_bytes(colored, cs1, t1)) + styled_bytes(colored, cs2, t2) == b0 + (
        styled_bytes(colored, cs1, t1) + styled_bytes(colored, cs2, t2)),
{
    assert((b0 + styled_bytes(colored, cs1, t1)) + styled_bytes(colored, cs2, t2) =~= b0 + (
    styled_bytes(colored, cs1, t1) + styled_bytes(colored, cs2, t2)));
}

/// Law: with styling on, a styled span wraps exactly the value's own bytes —
/// the style's escape bytes immediately before them, the reset escape
/// immediately after them, and nothing else.
pub proof fn lemma_colored_render_wraps(cs: ColorSpec, text: Seq<u8>)
    ensures
        styled_bytes(true, cs, text) == term::style_escape(cs.fg, cs.bg, cs.bold) + text
            + term::reset_escape(),
{
}

/// Law: with styling off, a styled span adds exactly the value's own bytes —
/// no escape sequence anywhere.
pub proof fn lemma_uncolored_render_plain(cs: ColorSpec, text: Seq<u8>)
    ensures
        styled_bytes(false, cs, text) == text,
{
}

} // verus!
