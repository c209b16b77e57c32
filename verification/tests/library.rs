use std::io::Write;

use termcolor::escape::{color_escape_bytes, color_spec_escape_bytes};
use termcolor::{
    Ansi, Buffer, BufferWriter, Color, ColorChoice, ColorEnv, ColorSpec, HyperlinkSpec, NoColor,
    ParseColorErrorKind, StandardTarget, WriteColor,
};

fn env(no_color: Option<&str>, force: Option<&str>, clicolor: Option<&str>, term: Option<&str>, windows: bool) -> ColorEnv {
    ColorEnv {
        no_color: no_color.map(|v| v.as_bytes().to_vec()),
        clicolor_force: force.map(|v| v.as_bytes().to_vec()),
        clicolor: clicolor.map(|v| v.as_bytes().to_vec()),
        term: term.map(|v| v.as_bytes().to_vec()),
        windows,
    }
}

fn xterm() -> ColorEnv {
    env(None, None, None, Some("xterm-256color"), false)
}

// ----- parsing colors ------------------------------------------------------

#[test]
fn names_are_matched_ignoring_case() {
    assert_eq!("GREEN".parse::<Color>(), Ok(Color::Green));
    assert_eq!("Blue".parse::<Color>(), Ok(Color::Blue));
    assert_eq!(Color::from_str("MaGeNtA"), Ok(Color::Magenta));
    assert_eq!(Color::from_str("black"), Ok(Color::Black));
    assert_eq!(Color::from_str("red"), Ok(Color::Red));
    assert_eq!(Color::from_str("cyan"), Ok(Color::Cyan));
    assert_eq!(Color::from_str("yellow"), Ok(Color::Yellow));
    assert_eq!(Color::from_str("WHITE"), Ok(Color::White));
}

#[test]
fn names_are_looked_up_in_the_lowercased_form() {
    assert_eq!(Color::from_lowercased("XYZ", "red"), Ok(Color::Red));
    let err = Color::from_lowercased("RED", "xyz").unwrap_err();
    assert_eq!(err.kind(), ParseColorErrorKind::InvalidName);
    assert_eq!(err.invalid(), "RED");
}

#[test]
fn numbers_follow_the_integer_syntax() {
    assert_eq!("+5".parse::<Color>(), Ok(Color::Ansi256(5)));
    assert_eq!("007".parse::<Color>(), Ok(Color::Ansi256(7)));
    assert_eq!("0xff".parse::<Color>(), Ok(Color::Ansi256(255)));
    assert_eq!("0x+a".parse::<Color>(), Ok(Color::Ansi256(10)));
    assert_eq!("1,0x2,+3".parse::<Color>(), Ok(Color::Rgb(1, 2, 3)));
}

#[test]
fn each_error_kind_has_its_inputs() {
    let err = "".parse::<Color>().unwrap_err();
    assert_eq!(err.kind(), ParseColorErrorKind::InvalidAnsi256);
    assert_eq!(err.invalid(), "");

    let err = "ff".parse::<Color>().unwrap_err();
    assert_eq!(err.kind(), ParseColorErrorKind::InvalidAnsi256);

    let err = "0x100".parse::<Color>().unwrap_err();
    assert_eq!(err.kind(), ParseColorErrorKind::InvalidName);

    let err = "-1".parse::<Color>().unwrap_err();
    assert_eq!(err.kind(), ParseColorErrorKind::InvalidName);

    let err = "1,2,3,4".parse::<Color>().unwrap_err();
    assert_eq!(err.kind(), ParseColorErrorKind::InvalidRgb);
    assert_eq!(err.invalid(), "1,2,3,4");

    let err = "1,x,3".parse::<Color>().unwrap_err();
    assert_eq!(err.kind(), ParseColorErrorKind::InvalidRgb);

    let err = ",,".parse::<Color>().unwrap_err();
    assert_eq!(err.kind(), ParseColorErrorKind::InvalidRgb);
}

#[test]
fn error_messages() {
    let err = "nope".parse::<Color>().unwrap_err();
    assert_eq!(err.description(), "unrecognized color name");
    assert_eq!(
        err.to_string(),
        "unrecognized color name 'nope'. Choose from: black, blue, green, red, cyan, magenta, yellow, white"
    );
    let err = "300".parse::<Color>().unwrap_err();
    assert_eq!(err.description(), "invalid ansi256 color number");
    assert_eq!(
        err.to_string(),
        "unrecognized ansi256 color number, should be '[0-255]' (or a hex number), but is '300'"
    );
    let err = "1,2".parse::<Color>().unwrap_err();
    assert_eq!(err.description(), "invalid RGB color triple");
    assert_eq!(
        err.to_string(),
        "unrecognized RGB color triple, should be '[0-255],[0-255],[0-255]' (or a hex triple), but is '1,2'"
    );
}

#[test]
fn every_u8_reads_back_in_decimal_and_hex() {
    for n in 0..=255u8 {
        assert_eq!(format!("{}", n).parse::<Color>(), Ok(Color::Ansi256(n)));
        assert_eq!(format!("0x{:x}", n).parse::<Color>(), Ok(Color::Ansi256(n)));
        assert_eq!(
            format!("{},{},{}", n, 255 - n, n / 2).parse::<Color>(),
            Ok(Color::Rgb(n, 255 - n, n / 2))
        );
    }
}

#[test]
fn written_numbers_read_back() {
    for n in 0..=255u8 {
        let escape = color_escape_bytes(true, Color::Ansi256(n), false);
        let digits = std::str::from_utf8(&escape[7..escape.len() - 1]).unwrap();
        assert_eq!(digits.parse::<Color>(), Ok(Color::Ansi256(n)));
    }
    let escape = color_escape_bytes(false, Color::Rgb(9, 80, 255), false);
    let params = std::str::from_utf8(&escape[7..escape.len() - 1]).unwrap();
    assert_eq!(params.replace(';', ","), "9,80,255");
    assert_eq!(params.replace(';', ",").parse::<Color>(), Ok(Color::Rgb(9, 80, 255)));
}

// ----- color choices -------------------------------------------------------

#[test]
fn color_choice_parsing() {
    assert_eq!("always".parse::<ColorChoice>().unwrap(), ColorChoice::Always);
    assert_eq!("never".parse::<ColorChoice>().unwrap(), ColorChoice::Never);
    assert_eq!(ColorChoice::from_str("auto").unwrap(), ColorChoice::Auto);
    assert_eq!(ColorChoice::default(), ColorChoice::Auto);
    for other in ["NEVER", "Auto", "Always", "always-ansi", "", "sometimes"] {
        let err = other.parse::<ColorChoice>().unwrap_err();
        assert_eq!(err.unknown_choice(), other.to_lowercase());
    }
    let err = "Sometimes".parse::<ColorChoice>().unwrap_err();
    assert_eq!(err.unknown_choice(), "sometimes");
    assert_eq!(
        err.to_string(),
        "unrecognized color choice 'sometimes': valid choices are: always, always-ansi, never, auto"
    );
}

#[test]
fn no_color_over_any_writer_writes_nothing() {
    let mut w = NoColor::new(String::from("kept"));
    assert!(!w.supports_color() && !w.supports_hyperlinks() && !w.is_synchronous());
    w.set_color(ColorSpec::new().set_fg(Some(Color::Blue))).unwrap();
    w.set_hyperlink(&HyperlinkSpec::open(b"u")).unwrap();
    w.reset().unwrap();
    assert_eq!(w.get_ref(), "kept");
}

#[test]
fn environment_decides_auto() {
    assert!(xterm().allows_color());
    assert!(!env(Some("1"), None, None, Some("xterm"), false).allows_color());
    assert!(!env(Some(""), None, None, Some("xterm"), false).allows_color());
    assert!(!env(None, None, None, Some("dumb"), false).allows_color());
    assert!(!env(None, Some("1"), None, Some("dumb"), false).allows_color());
    assert!(!env(None, None, None, None, false).allows_color());
    assert!(env(None, None, None, None, true).allows_color());
    assert!(env(None, Some("1"), None, None, false).allows_color());
    assert!(!env(None, Some("0"), None, None, false).allows_color());
    assert!(!env(Some("1"), Some("1"), None, None, false).allows_color());
    assert!(!env(None, None, Some("0"), Some("xterm"), false).allows_color());
    assert!(env(None, None, Some("1"), Some("xterm"), false).allows_color());
    assert!(env(None, Some("1"), Some("0"), Some("xterm"), false).allows_color());
    assert!(!env(None, Some("0"), Some("0"), Some("xterm"), false).allows_color());
    assert!(!env(None, Some(""), Some("0"), Some("xterm"), false).allows_color());

    let off = env(Some("1"), None, None, None, false);
    assert!(ColorChoice::Always.should_attempt_color(&off));
    assert!(!ColorChoice::Never.should_attempt_color(&xterm()));
    assert!(!ColorChoice::Auto.should_attempt_color(&off));
    assert!(ColorChoice::Auto.should_attempt_color(&xterm()));
}

// ----- color specifications ------------------------------------------------

#[test]
fn color_spec_getters_and_setters() {
    let mut spec = ColorSpec::new();
    assert!(spec.is_none());
    assert!(spec.reset());
    assert_eq!(spec.fg(), None);
    spec.set_fg(Some(Color::Green)).set_bold(true).set_bg(Some(Color::Ansi256(3)));
    assert_eq!(spec.fg(), Some(&Color::Green));
    assert_eq!(spec.bg(), Some(&Color::Ansi256(3)));
    assert!(spec.bold());
    assert!(!spec.is_none());
    spec.set_dimmed(true).set_italic(true).set_underline(true);
    spec.set_strikethrough(true).set_intense(true).set_reset(false);
    assert!(spec.dimmed() && spec.italic() && spec.underline());
    assert!(spec.strikethrough() && spec.intense() && !spec.reset());
    spec.clear();
    assert!(spec.is_none());
    assert!(!spec.reset());
    assert_eq!(spec, {
        let mut s = ColorSpec::default();
        s.set_reset(false);
        s
    });
}

// ----- escape sequences ----------------------------------------------------

#[test]
fn named_color_escapes() {
    assert_eq!(color_escape_bytes(true, Color::Red, false), b"\x1B[31m".to_vec());
    assert_eq!(color_escape_bytes(false, Color::Blue, false), b"\x1B[44m".to_vec());
    assert_eq!(color_escape_bytes(true, Color::Black, true), b"\x1B[38;5;8m".to_vec());
    assert_eq!(color_escape_bytes(false, Color::White, true), b"\x1B[48;5;15m".to_vec());
    assert_eq!(color_escape_bytes(true, Color::Yellow, true), b"\x1B[38;5;11m".to_vec());
    assert_eq!(color_escape_bytes(true, Color::Ansi256(0), true), b"\x1B[38;5;0m".to_vec());
    assert_eq!(color_escape_bytes(true, Color::Ansi256(100), false), b"\x1B[38;5;100m".to_vec());
    assert_eq!(color_escape_bytes(true, Color::Rgb(10, 0, 200), true), b"\x1B[38;2;10;0;200m".to_vec());
}

#[test]
fn color_spec_escape_order() {
    let mut spec = ColorSpec::new();
    spec.set_bold(true)
        .set_dimmed(true)
        .set_italic(true)
        .set_underline(true)
        .set_strikethrough(true)
        .set_fg(Some(Color::Cyan))
        .set_bg(Some(Color::Magenta));
    assert_eq!(
        color_spec_escape_bytes(&spec),
        b"\x1B[0m\x1B[1m\x1B[2m\x1B[3m\x1B[4m\x1B[9m\x1B[36m\x1B[45m".to_vec()
    );
    spec.set_reset(false).set_intense(true);
    let mut ansi = Ansi::new(Vec::new());
    ansi.set_color(&spec).unwrap();
    assert_eq!(
        ansi.into_inner(),
        b"\x1B[1m\x1B[2m\x1B[3m\x1B[4m\x1B[9m\x1B[38;5;14m\x1B[48;5;13m".to_vec()
    );
}

#[test]
fn ansi_writer_passes_text_and_resets() {
    let mut ansi = Ansi::new(Vec::new());
    assert!(ansi.supports_color() && ansi.supports_hyperlinks() && !ansi.is_synchronous());
    ansi.write_all(b"hi").unwrap();
    assert_eq!(ansi.write(b"!").unwrap(), 1);
    ansi.flush().unwrap();
    ansi.reset().unwrap();
    assert_eq!(ansi.get_ref(), &b"hi!\x1B[0m".to_vec());
    ansi.get_mut().clear();
    assert!(ansi.get_ref().is_empty());
}

#[test]
fn no_color_writer_drops_colors() {
    let mut w = NoColor::new(Vec::new());
    assert!(!w.supports_color() && !w.supports_hyperlinks() && !w.is_synchronous());
    w.write_all(b"a").unwrap();
    w.set_color(ColorSpec::new().set_fg(Some(Color::Red))).unwrap();
    w.set_hyperlink(&HyperlinkSpec::open(b"x")).unwrap();
    w.reset().unwrap();
    w.write_all(b"b").unwrap();
    w.get_mut().push(b'c');
    assert_eq!(w.get_ref(), &b"abc".to_vec());
    assert_eq!(w.into_inner(), b"abc".to_vec());

    let mut sink = std::io::sink();
    assert!(!sink.supports_color());
    assert!(sink.set_color(&ColorSpec::new()).is_ok());
}

#[test]
fn hyperlink_spec_uri() {
    assert_eq!(HyperlinkSpec::open(b"https://a").uri(), Some(&b"https://a"[..]));
    assert_eq!(HyperlinkSpec::close().uri(), None);
}

// ----- buffers -------------------------------------------------------------

#[test]
fn ansi_buffer_collects_text_and_escapes() {
    let mut buf = Buffer::ansi();
    assert!(buf.is_empty());
    assert!(buf.supports_color());
    buf.set_color(ColorSpec::new().set_fg(Some(Color::Green))).unwrap();
    buf.write_all(b"green").unwrap();
    buf.set_hyperlink(&HyperlinkSpec::open(b"u")).unwrap();
    buf.reset().unwrap();
    assert_eq!(buf.as_slice(), b"\x1B[0m\x1B[32mgreen\x1B]8;;u\x1B\\\x1B[0m");
    assert_eq!(buf.len(), 26);
    buf.as_mut_slice()[9] = b'G';
    assert_eq!(buf.clone().into_inner(), b"\x1B[0m\x1B[32mGreen\x1B]8;;u\x1B\\\x1B[0m".to_vec());
    buf.clear();
    assert!(buf.is_empty());
    assert!(buf.supports_hyperlinks());
}

#[test]
fn no_color_buffer_ignores_colors() {
    let mut buf = Buffer::no_color();
    assert!(!buf.supports_color());
    buf.set_color(ColorSpec::new().set_bold(true)).unwrap();
    buf.write_all(b"plain").unwrap();
    buf.set_hyperlink(&HyperlinkSpec::open(b"u")).unwrap();
    buf.reset().unwrap();
    buf.flush().unwrap();
    assert_eq!(buf.into_inner(), b"plain".to_vec());
}

#[test]
fn buffer_follows_the_choice() {
    assert!(Buffer::new(ColorChoice::Always, &env(Some("1"), None, None, None, false)).supports_color());
    assert!(!Buffer::new(ColorChoice::Never, &xterm()).supports_color());
    assert!(Buffer::new(ColorChoice::Auto, &xterm()).supports_color());
    assert!(!Buffer::new(ColorChoice::Auto, &env(None, None, None, Some("dumb"), false)).supports_color());
}

#[test]
fn buffer_writer_separates_printed_buffers() {
    let mut w = BufferWriter::stderr(ColorChoice::Never);
    assert_eq!(w.stream(), StandardTarget::Stderr);
    w.separator(Some(b"--".to_vec()));
    let mut out = Vec::new();
    for text in ["a", "", "b", "c"] {
        let mut buf = w.buffer(&xterm());
        assert!(!buf.supports_color());
        buf.write_all(text.as_bytes()).unwrap();
        let bytes = w.print(&buf);
        if !bytes.is_empty() {
            out.extend_from_slice(&bytes);
            w.mark_printed();
        }
    }
    assert_eq!(out, b"a--\nb--\nc".to_vec());
}

#[test]
fn buffer_writer_without_separator_concatenates() {
    let mut w = BufferWriter::stdout(ColorChoice::Always);
    assert_eq!(w.stream(), StandardTarget::Stdout);
    let mut out = Vec::new();
    for text in ["x", "y"] {
        let mut buf = w.buffer(&xterm());
        assert!(buf.supports_color());
        buf.write_all(text.as_bytes()).unwrap();
        out.extend_from_slice(&w.print(&buf));
        w.mark_printed();
    }
    assert_eq!(out, b"xy".to_vec());
    assert!(w.print(&Buffer::ansi()).is_empty());
}

#[test]
fn boxed_and_borrowed_writers_forward() {
    let mut boxed: Box<Buffer> = Box::new(Buffer::ansi());
    assert!(boxed.supports_color() && boxed.supports_hyperlinks() && !boxed.is_synchronous());
    boxed.set_color(ColorSpec::new().set_bold(true)).unwrap();
    boxed.set_hyperlink(&HyperlinkSpec::close()).unwrap();
    boxed.reset().unwrap();
    assert_eq!(boxed.as_slice(), b"\x1B[0m\x1B[1m\x1B]8;;\x1B\\\x1B[0m");

    let mut plain = Buffer::no_color();
    {
        let mut borrowed: &mut Buffer = &mut plain;
        assert!(!WriteColor::supports_color(&borrowed));
        WriteColor::set_color(&mut borrowed, &ColorSpec::new()).unwrap();
        WriteColor::reset(&mut borrowed).unwrap();
        borrowed.write_all(b"x").unwrap();
    }
    assert_eq!(plain.into_inner(), b"x".to_vec());
}
