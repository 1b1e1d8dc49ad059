//! The colours that the terminal is configured with.

use crate::terminal_emulator::term::color::Rgb;
use vstd::prelude::*;

verus! {

pub struct Config {
    colors: Colors,
}

#[derive(Debug, PartialEq, Eq)]
pub struct Colors {
    pub primary: PrimaryColors,
    pub cursor: CursorColors,
    pub normal: AnsiColors,
    pub bright: AnsiColors,
    pub dim: Option<AnsiColors>,
    pub indexed_colors: Vec<IndexedColor>,
}

#[derive(Clone, Copy, Debug, PartialEq, Eq, Structural)]
pub struct PrimaryColors {
    pub background: Rgb,
    pub foreground: Rgb,
    pub bright_foreground: Option<Rgb>,
    pub dim_foreground: Option<Rgb>,
}

#[derive(Clone, Copy, Debug, PartialEq, Eq, Structural)]
pub struct CursorColors {
    pub text: Option<Rgb>,
    pub cursor: Option<Rgb>,
}

/// The eight colours of one brightness.
#[derive(Clone, Copy, Debug, PartialEq, Eq, Structural)]
pub struct AnsiColors {
    pub black: Rgb,
    pub red: Rgb,
    pub green: Rgb,
    pub yellow: Rgb,
    pub blue: Rgb,
    pub magenta: Rgb,
    pub cyan: Rgb,
    pub white: Rgb,
}

#[derive(Clone, Copy, Debug, PartialEq, Eq, Structural)]
pub struct IndexedColor {
    pub index: u8,
    pub color: Rgb,
}

/// The normal colours of the default palette.
pub open spec fn normal_palette() -> AnsiColors {
    AnsiColors {
        black: Rgb { r: 0x00, g: 0x00, b: 0x00 },
        red: Rgb { r: 0xd5, g: 0x4e, b: 0x53 },
        green: Rgb { r: 0xb9, g: 0xca, b: 0x4a },
        yellow: Rgb { r: 0xe6, g: 0xc5, b: 0x47 },
        blue: Rgb { r: 0x7a, g: 0xa6, b: 0xda },
        magenta: Rgb { r: 0xc3, g: 0x97, b: 0xd8 },
        cyan: Rgb { r: 0x70, g: 0xc0, b: 0xba },
        white: Rgb { r: 0xea, g: 0xea, b: 0xea },
    }
}

/// The bright colours of the default palette.
pub open spec fn bright_palette() -> AnsiColors {
    AnsiColors {
        black: Rgb { r: 0x66, g: 0x66, b: 0x66 },
        red: Rgb { r: 0xff, g: 0x33, b: 0x34 },
        green: Rgb { r: 0x9e, g: 0xc4, b: 0x00 },
        yellow: Rgb { r: 0xe7, g: 0xc5, b: 0x47 },
        blue: Rgb { r: 0x7a, g: 0xa6, b: 0xda },
        magenta: Rgb { r: 0xb7, g: 0x7e, b: 0xe0 },
        cyan: Rgb { r: 0x54, g: 0xce, b: 0xd6 },
        white: Rgb { r: 0xff, g: 0xff, b: 0xff },
    }
}

/// The primary colours of the default palette: light grey on black.
pub open spec fn primary_palette() -> PrimaryColors {
    PrimaryColors {
        background: Rgb { r: 0, g: 0, b: 0 },
        foreground: Rgb { r: 0xea, g: 0xea, b: 0xea },
        bright_foreground: None,
        dim_foreground: None,
    }
}

pub fn default_normal_colors() -> (colors: AnsiColors)
    ensures
        colors == normal_palette(),
{
    AnsiColors {
        black: Rgb { r: 0x00, g: 0x00, b: 0x00 },
        red: Rgb { r: 0xd5, g: 0x4e, b: 0x53 },
        green: Rgb { r: 0xb9, g: 0xca, b: 0x4a },
        yellow: Rgb { r: 0xe6, g: 0xc5, b: 0x47 },
        blue: Rgb { r: 0x7a, g: 0xa6, b: 0xda },
        magenta: Rgb { r: 0xc3, g: 0x97, b: 0xd8 },
        cyan: Rgb { r: 0x70, g: 0xc0, b: 0xba },
        white: Rgb { r: 0xea, g: 0xea, b: 0xea },
    }
}

pub fn default_bright_colors() -> (colors: AnsiColors)
    ensures
        colors == bright_palette(),
{
    AnsiColors {
        black: Rgb { r: 0x66, g: 0x66, b: 0x66 },
        red: Rgb { r: 0xff, g: 0x33, b: 0x34 },
        green: Rgb { r: 0x9e, g: 0xc4, b: 0x00 },
        yellow: Rgb { r: 0xe7, g: 0xc5, b: 0x47 },
        blue: Rgb { r: 0x7a, g: 0xa6, b: 0xda },
        magenta: Rgb { r: 0xb7, g: 0x7e, b: 0xe0 },
        cyan: Rgb { r: 0x54, g: 0xce, b: 0xd6 },
        white: Rgb { r: 0xff, g: 0xff, b: 0xff },
    }
}

pub fn default_background() -> (color: Rgb)
    ensures
        color == (Rgb { r: 0, g: 0, b: 0 }),
{
    Rgb { r: 0, g: 0, b: 0 }
}

pub fn default_foreground() -> (color: Rgb)
    ensures
        color == (Rgb { r: 0xea, g: 0xea, b: 0xea }),
{
    Rgb { r: 0xea, g: 0xea, b: 0xea }
}

impl Default for PrimaryColors {
    fn default() -> (colors: PrimaryColors)
        ensures
            colors == primary_palette(),
    {
        PrimaryColors {
            background: default_background(),
            foreground: default_foreground(),
            bright_foreground: None,
            dim_foreground: None,
        }
    }
}

impl Default for CursorColors {
    fn default() -> (colors: CursorColors)
        ensures
            colors == (CursorColors { text: None, cursor: None }),
    {
        CursorColors { text: None, cursor: None }
    }
}

impl Default for Colors {
    /// The default palette, with no dim colours and no indexed ones.
    fn default() -> (colors: Colors)
        ensures
            colors.primary == primary_palette(),
            colors.cursor == (CursorColors { text: None, cursor: None }),
            colors.normal == normal_palette(),
            colors.bright == bright_palette(),
            colors.dim is None,
            colors.indexed_colors@.len() == 0,
    {
        Colors {
            primary: PrimaryColors::default(),
            cursor: CursorColors::default(),
            normal: default_normal_colors(),
            bright: default_bright_colors(),
            dim: None,
            indexed_colors: Vec::new(),
        }
    }
}

impl Config {
    pub closed spec fn spec_colors(&self) -> Colors {
        self.colors
    }

    pub fn colors(&self) -> (colors: &Colors)
        ensures
            *colors == self.spec_colors(),
    {
        &self.colors
    }
}

impl Default for Config {
    fn default() -> (config: Config)
        ensures
            config.spec_colors().primary == primary_palette(),
            config.spec_colors().normal == normal_palette(),
            config.spec_colors().bright == bright_palette(),
            config.spec_colors().cursor == (CursorColors { text: None, cursor: None }),
            config.spec_colors().dim is None,
            config.spec_colors().indexed_colors@.len() == 0,
    {
        Config { colors: Colors::default() }
    }
}

} // verus!
