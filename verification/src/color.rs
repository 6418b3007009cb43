//! Colours: CSS colour texts read into red, green and blue, and the
//! terminal's sequence for a foreground colour.

use vstd::prelude::*;
use crate::text::decimal_digits;

verus! {

/// `csscolorparser::ParseColorError`: why a text is no colour. It is carried
/// as it is.
#[verifier::external_type_specification]
#[verifier::external_body]
pub struct ExParseColorError(csscolorparser::ParseColorError);

/// A colour of the terminal: red, green, blue.
#[derive(Debug, Copy, Clone, PartialEq, Eq, Hash)]
pub struct Rgb {
    pub r: u8,
    pub g: u8,
    pub b: u8,
}

/// A text that is no CSS colour, with what the parser said of it.
pub struct ColorError {
    pub cause: csscolorparser::ParseColorError,
}

/// What the CSS colour parser reads from a text: red, green and blue, each
/// from 0 to 255, or nothing where the text is no colour.
pub uninterp spec fn css_rgb(text: Seq<char>) -> Option<(u8, u8, u8)>;

/// `csscolorparser::parse`, the colour then taken as bytes with
/// `Color::to_rgba8` and its alpha dropped. The parser reads the text alone,
/// so the same text always gives the same colour; which texts are colours,
/// and which colour each is, is the parser's to say.
#[verifier::external_body]
fn parse_css(text: &str) -> (parsed: Result<(u8, u8, u8), csscolorparser::ParseColorError>)
    ensures
        parsed is Ok <==> css_rgb(text@) is Some,
        parsed is Ok ==> Some(parsed->Ok_0) == css_rgb(text@),
{
    match csscolorparser::parse(text) {
        Ok(color) => {
            let rgba = color.to_rgba8();
            Ok((rgba[0], rgba[1], rgba[2]))
        },
        Err(e) => Err(e),
    }
}

/// The terminal's sequence for a foreground colour: `ESC [ 38 ; 2 ;`, then
/// red, green and blue in decimal with `;` between them, then `m`.
pub open spec fn foreground_sequence(r: u8, g: u8, b: u8) -> Seq<char> {
    seq!['\x1b', '[', '3', '8', ';', '2', ';'] + decimal_digits(r as nat) + seq![';']
        + decimal_digits(g as nat) + seq![';'] + decimal_digits(b as nat) + seq!['m']
}

/// `termion::color::Fg` of `termion::color::Rgb`, formatted. The crate
/// writes the sequence that sets the foreground colour, the three numbers in
/// decimal without leading zeros; where the environment switches colours
/// off, it writes nothing. Which of the two it is, the environment decides.
#[verifier::external_body]
fn termion_fg(r: u8, g: u8, b: u8) -> (paint: String)
    ensures
        paint@ == Seq::<char>::empty() || paint@ == foreground_sequence(r, g, b),
{
    format!("{}", termion::color::Fg(termion::color::Rgb(r, g, b)))
}

/// The colour that the parser read, or the error with its cause.
pub fn rgb_of(parsed: Result<(u8, u8, u8), csscolorparser::ParseColorError>) -> (color: Result<
    Rgb,
    ColorError,
>)
    ensures
        match parsed {
            Ok(channels) => color == Ok::<Rgb, ColorError>(
                Rgb { r: channels.0, g: channels.1, b: channels.2 },
            ),
            Err(cause) => color == Err::<Rgb, ColorError>(ColorError { cause }),
        },
{
    match parsed {
        Ok(channels) => Ok(Rgb { r: channels.0, g: channels.1, b: channels.2 }),
        Err(cause) => Err(ColorError { cause }),
    }
}

/// Reads a CSS colour, such as `#DDDADA`, into red, green and blue. Alpha is
/// dropped.
pub fn convert_hex_rgb(color: &str) -> (rgb: Result<Rgb, ColorError>)
    ensures
        rgb is Ok <==> css_rgb(color@) is Some,
        rgb is Ok ==> css_rgb(color@) == Some((rgb->Ok_0.r, rgb->Ok_0.g, rgb->Ok_0.b)),
{
    rgb_of(parse_css(color))
}

/// What `text` looks like painted in `color`: the text, and behind it the
/// sequence `paint`.
pub open spec fn painted_with(text: Seq<char>, paint: Seq<char>) -> Seq<char> {
    text + paint
}

/// Puts the colour sequence `paint` behind `text`.
pub fn paint_text(text: &str, paint: &str) -> (out: String)
    ensures
        out@ == painted_with(text@, paint@),
{
    let mut out = String::from_str(text);
    out.append(paint);
    out
}

/// What `text` can look like in the CSS colour `color`: the text with the
/// foreground sequence of the colour behind it, or the text alone where the
/// environment switches colours off; the text alone where `color` is no
/// colour.
pub open spec fn colored(text: Seq<char>, color: Seq<char>, out: Seq<char>) -> bool {
    match css_rgb(color) {
        None => out == text,
        Some(rgb) => out == text || out == painted_with(
            text,
            foreground_sequence(rgb.0, rgb.1, rgb.2),
        ),
    }
}

/// `text` with the terminal's sequence for the foreground colour `color`, a
/// CSS colour, behind it; the text alone where the environment switches
/// colours off or `color` is no colour.
pub fn color_text(text: &str, color: &str) -> (out: String)
    ensures
        colored(text@, color@, out@),
{
    match convert_hex_rgb(color) {
        Ok(rgb) => {
            let paint = termion_fg(rgb.r, rgb.g, rgb.b);
            let out = paint_text(text, paint.as_str());
            assert(text@ + Seq::<char>::empty() =~= text@);
            out
        },
        Err(_) => String::from_str(text),
    }
}

} // verus!
