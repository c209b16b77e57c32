use termcolor::{Ansi, Color, ColorSpec, HyperlinkSpec, ParseColorErrorKind, WriteColor};

#[test]
fn test_simple_parse_ok() {
    let color = "green".parse::<Color>();
    assert_eq!(color, Ok(Color::Green));
}

#[test]
fn test_256_parse_ok() {
    let color = "7".parse::<Color>();
    assert_eq!(color, Ok(Color::Ansi256(7)));

    let color = "32".parse::<Color>();
    assert_eq!(color, Ok(Color::Ansi256(32)));

    let color = "0xFF".parse::<Color>();
    assert_eq!(color, Ok(Color::Ansi256(0xFF)));
}

#[test]
fn test_256_parse_err_out_of_range() {
    let color = "256".parse::<Color>();
    let err = color.unwrap_err();
    assert_eq!(err.kind(), ParseColorErrorKind::InvalidAnsi256);
    assert_eq!(err.invalid(), "256");
}

#[test]
fn test_rgb_parse_ok() {
    let color = "0,0,0".parse::<Color>();
    assert_eq!(color, Ok(Color::Rgb(0, 0, 0)));

    let color = "0,128,255".parse::<Color>();
    assert_eq!(color, Ok(Color::Rgb(0, 128, 255)));

    let color = "0x0,0x0,0x0".parse::<Color>();
    assert_eq!(color, Ok(Color::Rgb(0, 0, 0)));

    let color = "0x33,0x66,0xFF".parse::<Color>();
    assert_eq!(color, Ok(Color::Rgb(0x33, 0x66, 0xFF)));
}

#[test]
fn test_rgb_parse_err_out_of_range() {
    let color = "0,0,256".parse::<Color>();
    let err = color.unwrap_err();
    assert_eq!(err.kind(), ParseColorErrorKind::InvalidRgb);
    assert_eq!(err.invalid(), "0,0,256");
}

#[test]
fn test_rgb_parse_err_bad_format() {
    let color = "0,0".parse::<Color>();
    let err = color.unwrap_err();
    assert_eq!(err.kind(), ParseColorErrorKind::InvalidRgb);
    assert_eq!(err.invalid(), "0,0");

    let color = "not_a_color".parse::<Color>();
    let err = color.unwrap_err();
    assert_eq!(err.kind(), ParseColorErrorKind::InvalidName);
    assert_eq!(err.invalid(), "not_a_color");
}

#[test]
fn test_var_ansi_write_rgb() {
    let mut buf = Ansi::new(Vec::new());
    let _ = buf.write_color(true, Color::Rgb(254, 253, 255), false);
    assert_eq!(buf.into_inner(), b"\x1B[38;2;254;253;255m".to_vec());
}

#[test]
fn test_reset() {
    let spec = ColorSpec::new();
    let mut buf = Ansi::new(Vec::new());
    buf.set_color(&spec).unwrap();
    assert_eq!(buf.into_inner(), b"\x1B[0m".to_vec());
}

#[test]
fn test_no_reset() {
    let mut spec = ColorSpec::new();
    spec.set_reset(false);

    let mut buf = Ansi::new(Vec::new());
    buf.set_color(&spec).unwrap();
    assert_eq!(buf.into_inner(), b"".to_vec());
}

#[test]
fn test_var_ansi_write_256() {
    let mut buf = Ansi::new(Vec::new());
    let _ = buf.write_color(false, Color::Ansi256(7), false);
    assert_eq!(buf.into_inner(), b"\x1B[48;5;7m".to_vec());

    let mut buf = Ansi::new(Vec::new());
    let _ = buf.write_color(false, Color::Ansi256(208), false);
    assert_eq!(buf.into_inner(), b"\x1B[48;5;208m".to_vec());
}

fn all_attributes() -> Vec<ColorSpec> {
    let mut result = Vec::new();
    for fg in [None, Some(Color::Red)] {
        for bg in [None, Some(Color::Red)] {
            for bold in [false, true] {
                for underline in [false, true] {
                    for intense in [false, true] {
                        for italic in [false, true] {
                            for strikethrough in [false, true] {
                                for dimmed in [false, true] {
                                    let mut color = ColorSpec::new();
                                    color.set_fg(fg);
                                    color.set_bg(bg);
                                    color.set_bold(bold);
                                    color.set_underline(underline);
                                    color.set_intense(intense);
                                    color.set_italic(italic);
                                    color.set_dimmed(dimmed);
                                    color.set_strikethrough(strikethrough);
                                    result.push(color);
                                }
                            }
                        }
                    }
                }
            }
        }
    }
    result
}

#[test]
fn test_is_none() {
    for (i, color) in all_attributes().iter().enumerate() {
        assert_eq!(
            i == 0,
            color.is_none(),
            "{:?} => {}",
            color,
            color.is_none()
        );
    }
}

#[test]
fn test_clear() {
    for color in all_attributes() {
        let mut color1 = color.clone();
        color1.clear();
        assert!(color1.is_none(), "{color:?} => {color1:?}");
    }
}

#[test]
fn test_ansi_hyperlink() {
    let mut buf = Ansi::new(Vec::new());
    buf.set_hyperlink(&HyperlinkSpec::open(b"https://example.com"))
        .unwrap();
    buf.write_str("label").unwrap();
    buf.set_hyperlink(&HyperlinkSpec::close()).unwrap();

    assert_eq!(
        buf.into_inner(),
        b"\x1B]8;;https://example.com\x1B\\label\x1B]8;;\x1B\\".to_vec()
    );
}
