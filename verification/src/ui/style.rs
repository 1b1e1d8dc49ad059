//! Colours and text attributes as the drawing surface knows them.

use crate::terminal_emulator::ansi;
use crate::terminal_emulator::ansi::NamedColor;
use crate::terminal_emulator::term::cell;
use vstd::prelude::*;

verus! {

/// A colour of the drawing surface.
#[derive(Clone, Copy, Debug, PartialEq, Eq, Structural)]
pub enum Color {
    Reset,
    Black,
    Red,
    Green,
    Yellow,
    Blue,
    Magenta,
    Cyan,
    Gray,
    DarkGray,
    LightRed,
    LightGreen,
    LightYellow,
    LightBlue,
    LightMagenta,
    LightCyan,
    White,
    Rgb(u8, u8, u8),
    Indexed(u8),
}

pub const BOLD: u16 = 0b0000_0000_0001;

pub const DIM: u16 = 0b0000_0000_0010;

pub const ITALIC: u16 = 0b0000_0000_0100;

pub const UNDERLINED: u16 = 0b0000_0000_1000;

pub const SLOW_BLINK: u16 = 0b0000_0001_0000;

pub const RAPID_BLINK: u16 = 0b0000_0010_0000;

pub const REVERSED: u16 = 0b0000_0100_0000;

pub const HIDDEN: u16 = 0b0000_1000_0000;

pub const CROSSED_OUT: u16 = 0b0001_0000_0000;

/// Text attributes of the drawing surface, one bit each.
#[derive(Clone, Copy, Debug, PartialEq, Eq, Structural)]
pub struct Modifier {
    pub bits: u16,
}

/// How a piece of text is drawn.
#[derive(Clone, Copy, Debug, PartialEq, Eq, Structural)]
pub struct Style {
    pub fg: Color,
    pub bg: Color,
    pub modifier: Modifier,
}

impl Style {
    /// The style that changes nothing.
    pub open spec fn plain() -> Style {
        Style { fg: Color::Reset, bg: Color::Reset, modifier: Modifier { bits: 0 } }
    }

    pub fn fg(self, color: Color) -> (style: Style)
        ensures
            style == (Style { fg: color, ..self }),
    {
        Style { fg: color, bg: self.bg, modifier: self.modifier }
    }

    pub fn bg(self, color: Color) -> (style: Style)
        ensures
            style == (Style { bg: color, ..self }),
    {
        Style { fg: self.fg, bg: color, modifier: self.modifier }
    }

    pub fn modifier(self, bits: u16) -> (style: Style)
        ensures
            style == (Style { modifier: Modifier { bits }, ..self }),
    {
        Style { fg: self.fg, bg: self.bg, modifier: Modifier { bits } }
    }
}

impl Default for Style {
    fn default() -> (style: Style)
        ensures
            style == Style::plain(),
    {
        Style { fg: Color::Reset, bg: Color::Reset, modifier: Modifier { bits: 0 } }
    }
}

/// The colour of the drawing surface that stands for a colour of the terminal. The
/// default colours and their variants are left to the surface; the dim colours are
/// drawn as the normal ones.
pub open spec fn surface_color(color: ansi::Color) -> Color {
    match color {
        ansi::Color::Named(named) => match named {
            NamedColor::Black => Color::Black,
            NamedColor::Red => Color::Red,
            NamedColor::Green => Color::Green,
            NamedColor::Yellow => Color::Yellow,
            NamedColor::Blue => Color::Blue,
            NamedColor::Magenta => Color::Magenta,
            NamedColor::Cyan => Color::Cyan,
            NamedColor::White => Color::White,
            NamedColor::BrightBlack => Color::DarkGray,
            NamedColor::BrightRed => Color::LightRed,
            NamedColor::BrightGreen => Color::LightGreen,
            NamedColor::BrightYellow => Color::LightYellow,
            NamedColor::BrightBlue => Color::LightBlue,
            NamedColor::BrightMagenta => Color::LightMagenta,
            NamedColor::BrightCyan => Color::LightCyan,
            NamedColor::BrightWhite => Color::Gray,
            NamedColor::Foreground => Color::Reset,
            NamedColor::Background => Color::Reset,
            NamedColor::CursorText => Color::Black,
            NamedColor::Cursor => Color::Gray,
            NamedColor::DimBlack => Color::Black,
            NamedColor::DimRed => Color::Red,
            NamedColor::DimGreen => Color::Green,
            NamedColor::DimYellow => Color::Yellow,
            NamedColor::DimBlue => Color::Blue,
            NamedColor::DimMagenta => Color::Magenta,
            NamedColor::DimCyan => Color::Cyan,
            NamedColor::DimWhite => Color::White,
            NamedColor::BrightForeground => Color::Reset,
            NamedColor::DimForeground => Color::Reset,
        },
        ansi::Color::Spec(rgb) => Color::Rgb(rgb.r, rgb.g, rgb.b),
        ansi::Color::Indexed(i) => Color::Indexed(i),
    }
}

pub fn convert_color(color: ansi::Color) -> (converted: Color)
    ensures
        converted == surface_color(color),
{
    match color {
        ansi::Color::Named(named) => match named {
            NamedColor::Black => Color::Black,
            NamedColor::Red => Color::Red,
            NamedColor::Green => Color::Green,
            NamedColor::Yellow => Color::Yellow,
            NamedColor::Blue => Color::Blue,
            NamedColor::Magenta => Color::Magenta,
            NamedColor::Cyan => Color::Cyan,
            NamedColor::White => Color::White,
            NamedColor::BrightBlack => Color::DarkGray,
            NamedColor::BrightRed => Color::LightRed,
            NamedColor::BrightGreen => Color::LightGreen,
            NamedColor::BrightYellow => Color::LightYellow,
            NamedColor::BrightBlue => Color::LightBlue,
            NamedColor::BrightMagenta => Color::LightMagenta,
            NamedColor::BrightCyan => Color::LightCyan,
            NamedColor::BrightWhite => Color::Gray,
            NamedColor::Foreground => Color::Reset,
            NamedColor::Background => Color::Reset,
            NamedColor::CursorText => Color::Black,
            NamedColor::Cursor => Color::Gray,
            NamedColor::DimBlack => Color::Black,
            NamedColor::DimRed => Color::Red,
            NamedColor::DimGreen => Color::Green,
            NamedColor::DimYellow => Color::Yellow,
            NamedColor::DimBlue => Color::Blue,
            NamedColor::DimMagenta => Color::Magenta,
            NamedColor::DimCyan => Color::Cyan,
            NamedColor::DimWhite => Color::White,
            NamedColor::BrightForeground => Color::Reset,
            NamedColor::DimForeground => Color::Reset,
        },
        ansi::Color::Spec(rgb) => Color::Rgb(rgb.r, rgb.g, rgb.b),
        ansi::Color::Indexed(i) => Color::Indexed(i),
    }
}

/// The text attributes that stand for the flags of a cell: one for each of inverse,
/// bold, italic, underline, dim, hidden and strike-out, and none for the others.
pub open spec fn surface_modifier(flags: cell::Flags) -> u16 {
    let m0 = if flags.spec_contains(cell::INVERSE) {
        0u16 | REVERSED
    } else {
        0u16
    };
    let m1 = if flags.spec_contains(cell::BOLD) {
        m0 | BOLD
    } else {
        m0
    };
    let m2 = if flags.spec_contains(cell::ITALIC) {
        m1 | ITALIC
    } else {
        m1
    };
    let m3 = if flags.spec_contains(cell::UNDERLINE) {
        m2 | UNDERLINED
    } else {
        m2
    };
    let m4 = if flags.spec_contains(cell::DIM) {
        m3 | DIM
    } else {
        m3
    };
    let m5 = if flags.spec_contains(cell::HIDDEN) {
        m4 | HIDDEN
    } else {
        m4
    };
    let m6 = if flags.spec_contains(cell::STRIKEOUT) {
        m5 | CROSSED_OUT
    } else {
        m5
    };
    m6
}

pub fn convert_flags(flags: cell::Flags) -> (modifier: Modifier)
    ensures
        modifier.bits == surface_modifier(flags),
{
    let mut result: u16 = 0;
    if flags.contains(cell::INVERSE) {
        result = result | REVERSED;
    }
    if flags.contains(cell::BOLD) {
        result = result | BOLD;
    }
    if flags.contains(cell::ITALIC) {
        result = result | ITALIC;
    }
    if flags.contains(cell::UNDERLINE) {
        result = result | UNDERLINED;
    }
    if flags.contains(cell::DIM) {
        result = result | DIM;
    }
    if flags.contains(cell::HIDDEN) {
        result = result | HIDDEN;
    }
    if flags.contains(cell::STRIKEOUT) {
        result = result | CROSSED_OUT;
    }
    Modifier { bits: result }
}

} // verus!
