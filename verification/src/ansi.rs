//! Escape sequences and palette lookups that outside crates compute.
//!
//! Nothing in this file is proved: each function states what the crate it
//! calls is taken to do.

use crate::cell::Color;
use termcolor::WriteColor;
use vstd::prelude::*;

verus! {

/// The decimal digits of a number, without leading zeros.
pub open spec fn decimal(n: u8) -> Seq<u8> {
    if n >= 100 {
        seq![(0x30 + n / 100) as u8, (0x30 + (n / 10) % 10) as u8, (0x30 + n % 10) as u8]
    } else if n >= 10 {
        seq![(0x30 + n / 10) as u8, (0x30 + n % 10) as u8]
    } else {
        seq![(0x30 + n) as u8]
    }
}

/// The sequence that resets colors and styles: `ESC [ 0 m`.
pub open spec fn reset_bytes() -> Seq<u8> {
    seq![0x1bu8, 0x5bu8, 0x30u8, 0x6du8]
}

/// The sequence that sets one color, as foreground or as background:
/// `ESC [ 38 ; 2 ; r ; g ; b m` for a 24-bit color and `ESC [ 38 ; 5 ; n m`
/// for a palette index, with `48` in place of `38` for the background and
/// the numbers in decimal.
pub open spec fn color_code(foreground: bool, color: Color) -> Seq<u8> {
    let layer = if foreground {
        0x33u8
    } else {
        0x34u8
    };
    match color {
        Color::Rgb(r, g, b) => seq![0x1bu8, 0x5bu8, layer, 0x38u8, 0x3bu8, 0x32u8, 0x3bu8]
            + decimal(r) + seq![0x3bu8] + decimal(g) + seq![0x3bu8] + decimal(b) + seq![0x6du8],
        Color::Ansi256(index) => seq![0x1bu8, 0x5bu8, layer, 0x38u8, 0x3bu8, 0x35u8, 0x3bu8]
            + decimal(index) + seq![0x6du8],
    }
}

/// The sequence that sets a color if there is one, and nothing if not.
pub open spec fn optional_color_code(foreground: bool, color: Option<Color>) -> Seq<u8> {
    match color {
        Some(c) => color_code(foreground, c),
        None => Seq::empty(),
    }
}

/// The bytes with which `termcolor`'s ANSI writer sets a fresh color
/// specification that has the given foreground and background: a reset,
/// then the foreground if there is one, then the background if there is
/// one.
pub open spec fn color_bytes(foreground: Option<Color>, background: Option<Color>) -> Seq<u8> {
    reset_bytes() + optional_color_code(true, foreground) + optional_color_code(false, background)
}

/// The index in the 256-color palette that `ansi_colours` picks for an sRGB
/// color.
pub uninterp spec fn palette_index(r: u8, g: u8, b: u8) -> u8;

/// Calls `termcolor::Ansi::set_color` on an in-memory writer, with a
/// `ColorSpec` made by `ColorSpec::new` and given the two colors, and
/// returns what was written. A fresh specification asks for a reset and for
/// no style, so that the writer puts out the reset sequence and then one
/// sequence for each color that is set.
#[verifier::external_body]
pub(crate) fn color_sequence(foreground: Option<Color>, background: Option<Color>) -> (bytes: Vec<u8>)
    ensures
        bytes@ == color_bytes(foreground, background),
{
    let mut spec = termcolor::ColorSpec::new();
    spec.set_fg(match foreground {
        Some(Color::Rgb(r, g, b)) => Some(termcolor::Color::Rgb(r, g, b)),
        Some(Color::Ansi256(index)) => Some(termcolor::Color::Ansi256(index)),
        None => None,
    });
    spec.set_bg(match background {
        Some(Color::Rgb(r, g, b)) => Some(termcolor::Color::Rgb(r, g, b)),
        Some(Color::Ansi256(index)) => Some(termcolor::Color::Ansi256(index)),
        None => None,
    });
    let mut writer = termcolor::Ansi::new(Vec::new());
    let _ = writer.set_color(&spec);
    writer.into_inner()
}

/// Calls `ansi_colours::ansi256_from_rgb` on the triple `(r, g, b)`. The
/// index depends on the three components alone; the contract gives it a name.
#[verifier::external_body]
pub(crate) fn ansi256_from_rgb(r: u8, g: u8, b: u8) -> (index: u8)
    ensures
        index == palette_index(r, g, b),
{
    ansi_colours::ansi256_from_rgb((r, g, b))
}

} // verus!
