use moonlight::color::{color_text, convert_hex_rgb, paint_text, rgb_of, Rgb};
use moonlight::text::{chars_of, join_lines, push_decimal, split_lines, string_of};

#[test]
fn hex_colours_are_read() {
    assert_eq!(convert_hex_rgb("#DDDADA").ok(), Some(Rgb { r: 0xDD, g: 0xDA, b: 0xDA }));
    assert_eq!(convert_hex_rgb("#847A85").ok(), Some(Rgb { r: 0x84, g: 0x7A, b: 0x85 }));
    assert_eq!(convert_hex_rgb("#000").ok(), Some(Rgb { r: 0, g: 0, b: 0 }));
    assert_eq!(convert_hex_rgb("red").ok(), Some(Rgb { r: 255, g: 0, b: 0 }));
    assert_eq!(convert_hex_rgb("#ff000080").ok(), Some(Rgb { r: 255, g: 0, b: 0 }));
}

#[test]
fn what_is_no_colour_is_an_error() {
    let error = convert_hex_rgb("#12345").err().unwrap();
    assert_eq!(error.cause, csscolorparser::ParseColorError::InvalidHex);
    assert!(convert_hex_rgb("no colour at all").is_err());
    assert!(convert_hex_rgb("").is_err());
}

#[test]
fn rgb_of_keeps_channels_and_cause() {
    assert_eq!(rgb_of(Ok((1, 2, 3))).ok(), Some(Rgb { r: 1, g: 2, b: 3 }));
    let error = rgb_of(Err(csscolorparser::ParseColorError::InvalidRgb)).err().unwrap();
    assert_eq!(error.cause, csscolorparser::ParseColorError::InvalidRgb);
}

#[test]
fn colour_goes_behind_the_text() {
    assert_eq!(paint_text("dot", "\x1b[38;2;1;2;3m"), "dot\x1b[38;2;1;2;3m");
    let colored = color_text("dot", "#010203");
    assert!(colored == "dot\x1b[38;2;1;2;3m" || colored == "dot");
    let colored = color_text("", "#ff0a64");
    assert!(colored == "\x1b[38;2;255;10;100m" || colored.is_empty());
    let colored = color_text("x", "#000000");
    assert!(colored == "x\x1b[38;2;0;0;0m" || colored == "x");
    assert_eq!(color_text("dot", "nothing"), "dot");
}

#[test]
fn texts_in_and_out() {
    let chars = chars_of("h\u{e9}llo");
    assert_eq!(chars, vec!['h', '\u{e9}', 'l', 'l', 'o']);
    assert_eq!(string_of(&chars, 1, 3), "\u{e9}l");
    assert_eq!(string_of(&chars, 2, 2), "");
    assert_eq!(split_lines("a\nb\r\n\nc"), vec!["a", "b", "", "c"]);
    assert_eq!(split_lines("\r\r\n"), vec!["\r", ""]);
    assert_eq!(join_lines(&vec![String::from("a"), String::new(), String::from("b")]), "a\n\nb");
    assert_eq!(join_lines(&vec![]), "");
}

#[test]
fn decimal_numbers() {
    for n in [0, 7, 10, 42, 1900, i32::MAX, -1, -10, i32::MIN] {
        let mut text = String::from("n=");
        push_decimal(&mut text, n);
        assert_eq!(text, format!("n={n}"));
    }
}
