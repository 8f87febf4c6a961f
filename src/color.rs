use vstd::prelude::*;

use crossterm::style::Color as NativeColor;

verus! {

/// crossterm's colour: a plain enum whose variants carry bytes only.
#[verifier::external_type_specification]
pub struct ExNativeColor(NativeColor);

/// A text colour: one of sixteen named colours, an index into the 256-colour
/// palette, or a 24-bit RGB triple.
#[derive(Clone, Copy, Debug, PartialEq, Eq, Structural)]
pub enum Color {
    Black,
    DarkGray,
    Red,
    DarkRed,
    Green,
    DarkGreen,
    Yellow,
    DarkYellow,
    Blue,
    DarkBlue,
    Magenta,
    DarkMagenta,
    Cyan,
    DarkCyan,
    White,
    Gray,
    Rgb { r: u8, g: u8, b: u8 },
    Byte(u8),
}

/// The backend colour that stands for `c`.
pub open spec fn native_color(c: Color) -> NativeColor {
    match c {
        Color::Black => NativeColor::Black,
        Color::DarkGray => NativeColor::DarkGrey,
        Color::Red => NativeColor::Red,
        Color::DarkRed => NativeColor::DarkRed,
        Color::Green => NativeColor::Green,
        Color::DarkGreen => NativeColor::DarkGreen,
        Color::Yellow => NativeColor::Yellow,
        Color::DarkYellow => NativeColor::DarkYellow,
        Color::Blue => NativeColor::Blue,
        Color::DarkBlue => NativeColor::DarkBlue,
        Color::Magenta => NativeColor::Magenta,
        Color::DarkMagenta => NativeColor::DarkMagenta,
        Color::Cyan => NativeColor::Cyan,
        Color::DarkCyan => NativeColor::DarkCyan,
        Color::White => NativeColor::White,
        Color::Gray => NativeColor::Grey,
        Color::Rgb { r, g, b } => NativeColor::Rgb { r, g, b },
        Color::Byte(v) => NativeColor::AnsiValue(v),
    }
}

/// The conversion to the backend's palette loses nothing: distinct colours map
/// to distinct backend colours, and none maps to the backend's "reset" value.
pub proof fn lemma_native_color_lossless(a: Color, b: Color)
    ensures
        native_color(a) == native_color(b) ==> a == b,
        native_color(a) != NativeColor::Reset,
{
}

} // verus!
