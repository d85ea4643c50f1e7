use logfmt::{parse_write_style, Builder, Color, Formatter, Target, Timestamp, WriteStyle};

#[test]
fn parse_write_style_valid() {
    let inputs = vec![
        ("auto", WriteStyle::Auto),
        ("always", WriteStyle::Always),
        ("never", WriteStyle::Never),
    ];

    for (input, expected) in inputs {
        assert_eq!(expected, parse_write_style(input));
    }
}

#[test]
fn parse_write_style_invalid() {
    let inputs = vec!["", "true", "false", "NEVER!!"];

    for input in inputs {
        assert_eq!(WriteStyle::Auto, parse_write_style(input));
    }
}

#[test]
fn defaults_are_stderr_and_auto() {
    assert_eq!(Target::Stderr, Target::default());
    assert_eq!(WriteStyle::Auto, WriteStyle::default());
    let mut builder = Builder::default();
    let writer = builder.build();
    assert_eq!(WriteStyle::Auto, writer.write_style());
}

#[test]
fn builder_chains_and_parse_falls_back() {
    let mut builder = Builder::new();
    let writer = builder
        .target(Target::Stdout)
        .parse("definitely-not-a-policy")
        .build();
    assert_eq!(WriteStyle::Auto, writer.write_style());

    let mut builder = Builder::new();
    let writer = builder.parse("never").build();
    assert_eq!(WriteStyle::Never, writer.write_style());
}

#[test]
fn timestamp_render_is_stable_and_laid_out() {
    let t = Timestamp { year: 2021, month: 7, day: 4, hour: 5, minute: 6, second: 47 };
    let first = t.render();
    let second = t.render();
    assert_eq!(first, second);
    assert_eq!(b"2021-07-04T05:06:47Z".to_vec(), first);
}

#[test]
fn timestamp_now_has_fixed_layout() {
    let mut builder = Builder::new();
    builder.write_style(WriteStyle::Never);
    let writer = builder.build();
    let formatter = Formatter::new(&writer);
    let rendered = formatter.timestamp().render();
    assert_eq!(20, rendered.len());
    assert_eq!(b'-', rendered[4]);
    assert_eq!(b'-', rendered[7]);
    assert_eq!(b'T', rendered[10]);
    assert_eq!(b':', rendered[13]);
    assert_eq!(b':', rendered[16]);
    assert_eq!(b'Z', rendered[19]);
    for (i, byte) in rendered.iter().enumerate() {
        if ![4, 7, 10, 13, 16, 19].contains(&i) {
            assert!(byte.is_ascii_digit());
        }
    }
}

#[test]
fn clear_leaves_no_residual_bytes() {
    let mut builder = Builder::new();
    builder.target(Target::Stdout).write_style(WriteStyle::Never);
    let writer = builder.build();
    let mut formatter = Formatter::new(&writer);
    formatter.write(b"first record");
    formatter.print(&writer).unwrap();
    formatter.clear();
    assert!(formatter.contents().is_empty());
    formatter.write(b"second");
    assert_eq!(b"second".to_vec(), formatter.contents());
}

#[test]
fn always_policy_wraps_the_styled_span_only() {
    let mut builder = Builder::new();
    builder.target(Target::Stdout).write_style(WriteStyle::Always);
    let writer = builder.build();
    let mut formatter = Formatter::new(&writer);

    let mut style = formatter.style();
    style.set_color(Color::Red).set_bold(true);
    let styled = style.value(b"ERROR".to_vec());
    styled.render(&mut formatter).unwrap();
    formatter.write(b": boom");

    let out = formatter.contents();
    assert_eq!(b"\x1b[0m\x1b[1m\x1b[31mERROR\x1b[0m: boom".to_vec(), out);
    formatter.print(&writer).unwrap();
}

#[test]
fn never_policy_emits_plain_bytes() {
    let mut builder = Builder::new();
    builder.target(Target::Stdout).write_style(WriteStyle::Never);
    let writer = builder.build();
    let mut formatter = Formatter::new(&writer);

    let mut style = formatter.style();
    style.set_color(Color::Red).set_bold(true);
    let styled = style.value(b"ERROR".to_vec());
    styled.render(&mut formatter).unwrap();
    formatter.write(b": boom");

    let out = formatter.contents();
    assert_eq!(b"ERROR: boom".to_vec(), out);
    assert!(!out.contains(&0x1b));
    formatter.print(&writer).unwrap();
}

#[test]
fn string_values_render_as_their_utf8_bytes() {
    let mut builder = Builder::new();
    builder.write_style(WriteStyle::Never);
    let writer = builder.build();
    let mut formatter = Formatter::new(&writer);

    let style = formatter.style();
    let styled = style.value(String::from("warn"));
    styled.render(&mut formatter).unwrap();
    style.value("!").render(&mut formatter).unwrap();
    assert_eq!(b"warn!".to_vec(), formatter.contents());
}

#[test]
fn styles_share_one_buffer_in_render_order() {
    let mut builder = Builder::new();
    builder.target(Target::Stdout).write_style(WriteStyle::Never);
    let writer = builder.build();
    let mut formatter = Formatter::new(&writer);

    let mut bold = formatter.style();
    bold.set_bold(true);
    let mut red = formatter.style();
    red.set_color(Color::Red);

    bold.value(b"a".to_vec()).render(&mut formatter).unwrap();
    red.value(b"b".to_vec()).render(&mut formatter).unwrap();
    bold.value(b"c".to_vec()).render(&mut formatter).unwrap();

    assert_eq!(b"abc".to_vec(), formatter.contents());
}

#[test]
fn palette_and_true_color_escapes() {
    let mut builder = Builder::new();
    builder.target(Target::Stdout).write_style(WriteStyle::Always);
    let writer = builder.build();
    let mut formatter = Formatter::new(&writer);

    let mut palette = formatter.style();
    palette.set_color(Color::Ansi256(5));
    palette.value(b"x".to_vec()).render(&mut formatter).unwrap();
    assert_eq!(b"\x1b[0m\x1b[38;5;5mx\x1b[0m".to_vec(), formatter.contents());

    formatter.clear();
    let mut truecolor = formatter.style();
    truecolor.set_bg(Color::Rgb(1, 22, 255));
    truecolor.value(b"y".to_vec()).render(&mut formatter).unwrap();
    assert_eq!(b"\x1b[0m\x1b[48;2;1;22;255my\x1b[0m".to_vec(), formatter.contents());
}

#[test]
fn numbers_render_as_decimal_digits() {
    let mut builder = Builder::new();
    builder.write_style(WriteStyle::Never);
    let writer = builder.build();
    let mut formatter = Formatter::new(&writer);

    let style = formatter.style();
    style.value(0u64).render(&mut formatter).unwrap();
    style.value(2047u64).render(&mut formatter).unwrap();
    style.value(u64::MAX).render(&mut formatter).unwrap();
    assert_eq!(b"0204718446744073709551615".to_vec(), formatter.contents());
}

struct Failing;

impl logfmt::Render for Failing {
    // The ghost `text` and `infallible` are never evaluated at run time.
    fn text(&self) -> vstd::seq::Seq<u8> {
        panic!()
    }

    fn infallible(&self) -> bool {
        panic!()
    }

    fn try_render(&self) -> Result<Vec<u8>, logfmt::RenderError> {
        Err(logfmt::RenderError)
    }
}

#[test]
fn failed_value_render_still_resets_style() {
    let mut builder = Builder::new();
    builder.target(Target::Stdout).write_style(WriteStyle::Always);
    let writer = builder.build();
    let mut formatter = Formatter::new(&writer);

    let mut style = formatter.style();
    style.set_color(Color::Red);
    let result = style.value(Failing).render(&mut formatter);
    assert!(result.is_err());

    let out = formatter.contents();
    assert_eq!(b"\x1b[0m\x1b[31m\x1b[0m".to_vec(), out);
    assert!(out.ends_with(b"\x1b[0m"));
}

#[test]
fn styled_timestamp_renders_through_a_style() {
    let mut builder = Builder::new();
    builder.write_style(WriteStyle::Never);
    let writer = builder.build();
    let mut formatter = Formatter::new(&writer);

    let t = Timestamp { year: 1999, month: 12, day: 31, hour: 23, minute: 59, second: 59 };
    let style = formatter.style();
    style.value(t).render(&mut formatter).unwrap();
    assert_eq!(b"1999-12-31T23:59:59Z".to_vec(), formatter.contents());
}
