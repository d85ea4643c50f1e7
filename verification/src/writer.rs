//! Target streams, style policies, and the writer that owns the real stream.

use vstd::prelude::*;

use crate::term;

verus! {

/// Log target, either standard output or standard error.
#[derive(Clone, Copy, Debug, Eq, Hash, PartialEq, Structural)]
pub enum Target {
    /// Logs will be sent to standard output.
    Stdout,
    /// Logs will be sent to standard error.
    Stderr,
}

impl Default for Target {
    fn default() -> (r: Self)
        ensures
            r == Target::Stderr,
    {
        Target::Stderr
    }
}

/// Whether or not to print styles to the target.
#[derive(Clone, Copy, Debug, Eq, Hash, PartialEq, Structural)]
pub enum WriteStyle {
    /// Try to print styles, but don't force the issue.
    Auto,
    /// Try very hard to print styles.
    Always,
    /// Never print styles.
    Never,
}

impl Default for WriteStyle {
    fn default() -> (r: Self)
        ensures
            r == WriteStyle::Auto,
    {
        WriteStyle::Auto
    }
}

/// The policy a style-choice string stands for: the three recognized strings
/// name their policy, and every other string falls back to `Auto`.
pub open spec fn spec_parse_write_style(s: Seq<char>) -> WriteStyle {
    if s == "auto"@ {
        WriteStyle::Auto
    } else if s == "always"@ {
        WriteStyle::Always
    } else if s == "never"@ {
        WriteStyle::Never
    } else {
        WriteStyle::Auto
    }
}

/// Relies on str's `PartialEq`: two string slices are equal exactly when
/// their character sequences are.
#[verifier::external_body]
fn str_eq(a: &str, b: &str) -> (r: bool)
    ensures
        r == (a@ == b@),
{
    a == b
}

/// Parses a style-choice string; anything but the three recognized strings
/// (the empty string included) falls back to `Auto` rather than failing.
pub fn parse_write_style(spec: &str) -> (r: WriteStyle)
    ensures
        r == spec_parse_write_style(spec@),
{
    proof {
        lemma_policy_strings_differ();
    }
    if str_eq(spec, "auto") {
        WriteStyle::Auto
    } else if str_eq(spec, "always") {
        WriteStyle::Always
    } else if str_eq(spec, "never") {
        WriteStyle::Never
    } else {
        WriteStyle::Auto
    }
}

/// Law: each of the three recognized policy strings parses to the matching
/// policy, and every other string parses to `Auto`.
pub proof fn lemma_parse_write_style(s: Seq<char>)
    ensures
        s == "auto"@ ==> spec_parse_write_style(s) == WriteStyle::Auto,
        s == "always"@ ==> spec_parse_write_style(s) == WriteStyle::Always,
        s == "never"@ ==> spec_parse_write_style(s) == WriteStyle::Never,
        s != "auto"@ && s != "always"@ && s != "never"@ ==> spec_parse_write_style(s)
            == WriteStyle::Auto,
{
    lemma_policy_strings_differ();
}

/// A terminal target with color awareness: the handle on the real stream,
/// and the policy it was built with.
pub struct Writer {
    pub(crate) inner: termcolor::BufferWriter,
    pub(crate) write_style: WriteStyle,
}

impl Writer {
    /// A writer's color capability is pinned when it is built, and every
    /// buffer it hands out shares it.
    #[verifier::type_invariant]
    spec fn type_inv(self) -> bool {
        &&& term::writer_resolved(self.inner)
        &&& self.well_formed()
    }

    /// The policy this writer was built with.
    pub closed spec fn spec_write_style(&self) -> WriteStyle {
        self.write_style
    }

    /// Whether the buffers this writer hands out carry escape sequences.
    pub closed spec fn colored(&self) -> bool {
        term::writer_colored(self.inner)
    }

    /// Whether this writer holds standard output (else standard error).
    pub closed spec fn is_stdout(&self) -> bool {
        term::writer_is_stdout(self.inner)
    }

    /// A built writer honors its policy: `Always` colors, `Never` does not,
    /// and `Auto` went by the stream's own capability, probed when the
    /// writer was built.
    pub open spec fn well_formed(&self) -> bool {
        &&& self.spec_write_style() == WriteStyle::Always ==> self.colored()
        &&& self.spec_write_style() == WriteStyle::Never ==> !self.colored()
    }

    /// The policy this writer was built with.
    pub fn write_style(&self) -> (r: WriteStyle)
        ensures
            r == self.spec_write_style(),
    {
        self.write_style
    }

    /// A fresh, empty buffer, color-capable exactly as this writer resolved.
    pub(crate) fn fresh_buffer(&self) -> (b: termcolor::Buffer)
        ensures
            term::buffer_bytes(b) == Seq::<u8>::empty(),
            term::buffer_colored(b) == self.colored(),
    {
        proof {
            use_type_invariant(self);
        }
        term::writer_buffer(&self.inner)
    }
}

/// A builder for a terminal writer: the target and the style policy can be
/// configured before building.
#[derive(Debug)]
pub struct Builder {
    target: Target,
    write_style: WriteStyle,
}

impl Builder {
    /// The target configured so far.
    pub closed spec fn spec_target(&self) -> Target {
        self.target
    }

    /// The policy configured so far.
    pub closed spec fn spec_write_style(&self) -> WriteStyle {
        self.write_style
    }

    /// Initialize the writer builder with defaults: standard error, and
    /// styling left to the stream's capability.
    pub fn new() -> (r: Self)
        ensures
            r.spec_target() == Target::Stderr,
            r.spec_write_style() == WriteStyle::Auto,
    {
        Builder { target: Target::default(), write_style: WriteStyle::default() }
    }

    /// Set the target to write to.
    pub fn target(&mut self, target: Target) -> (r: &mut Self)
        ensures
            r.spec_target() == target,
            r.spec_write_style() == old(self).spec_write_style(),
            *final(self) == *final(r),
    {
        self.target = target;
        self
    }

    /// Whether or not to print style characters when writing.
    pub fn write_style(&mut self, write_style: WriteStyle) -> (r: &mut Self)
        ensures
            r.spec_target() == old(self).spec_target(),
            r.spec_write_style() == write_style,
            *final(self) == *final(r),
    {
        self.write_style = write_style;
        self
    }

    /// Parses a style-choice string and configures the policy it stands for;
    /// an unrecognized string falls back to `Auto`.
    pub fn parse(&mut self, write_style: &str) -> (r: &mut Self)
        ensures
            r.spec_target() == old(self).spec_target(),
            r.spec_write_style() == spec_parse_write_style(write_style@),
            *final(self) == *final(r),
    {
        let parsed = parse_write_style(write_style);
        self.write_style(parsed)
    }

    /// A writer on the configured stream with the given color choice.
    fn stream_writer(&self, style: WriteStyle) -> (r: termcolor::BufferWriter)
        ensures
            term::writer_is_stdout(r) == (self.spec_target() == Target::Stdout),
            style == WriteStyle::Always ==> term::writer_resolved(r) && term::writer_colored(r),
            style == WriteStyle::Never ==> term::writer_resolved(r) && !term::writer_colored(r),
    {
        match self.target {
            Target::Stderr => term::buffer_writer_stderr(style),
            Target::Stdout => term::buffer_writer_stdout(style),
        }
    }

    /// Build a terminal writer for the configured target. The writer honors
    /// the configured policy; under `Auto` the stream's color capability is
    /// probed once, here, and pinned for every record the writer prints.
    pub fn build(&mut self) -> (r: Writer)
        ensures
            r.spec_write_style() == old(self).spec_write_style(),
            r.is_stdout() == (old(self).spec_target() == Target::Stdout),
            r.well_formed(),
            *final(self) == *old(self),
    {
        let colored = match self.write_style {
            WriteStyle::Always => true,
            WriteStyle::Never => false,
            WriteStyle::Auto => {
                let probe = self.stream_writer(WriteStyle::Auto);
                let buffer = term::writer_buffer(&probe);
                term::buffer_supports_color(&buffer)
            },
        };
        let choice = if colored {
            WriteStyle::Always
        } else {
            WriteStyle::Never
        };
        let inner = self.stream_writer(choice);
        Writer { inner, write_style: self.write_style }
    }
}

impl Default for Builder {
    fn default() -> (r: Self)
        ensures
            r.spec_target() == Target::Stderr,
            r.spec_write_style() == WriteStyle::Auto,
    {
        Builder::new()
    }
}

/// The three recognized policy strings are pairwise distinct.
proof fn lemma_policy_strings_differ()
    ensures
        "auto"@ != "always"@,
        "auto"@ != "never"@,
        "always"@ != "never"@,
{
    reveal_strlit("auto");
    reveal_strlit("always");
    reveal_strlit("never");
    assert("auto"@.len() == 4);
    assert("always"@.len() == 6);
    assert("never"@.len() == 5);
}

} // verus!
