//! The color palette the host supplies with each mode change: semantic
//! roles mapped to terminal colors, each an RGB triple or an 8-bit
//! color index.

use vstd::prelude::*;

verus! {

#[derive(Clone, Copy, PartialEq, Eq, Structural, Debug)]
pub enum PaletteColor {
    Rgb(u8, u8, u8),
    EightBit(u8),
}

#[derive(Clone, Copy, PartialEq, Eq, Structural, Debug)]
pub struct Palette {
    pub fg: PaletteColor,
    pub bg: PaletteColor,
    pub black: PaletteColor,
    pub green: PaletteColor,
    pub orange: PaletteColor,
    pub cyan: PaletteColor,
}

/// The palette used until the host supplies one: the standard 8-bit
/// terminal colors for each role.
pub open spec fn spec_default_palette() -> Palette {
    Palette {
        fg: PaletteColor::EightBit(15),
        bg: PaletteColor::EightBit(0),
        black: PaletteColor::EightBit(0),
        green: PaletteColor::EightBit(2),
        orange: PaletteColor::EightBit(3),
        cyan: PaletteColor::EightBit(6),
    }
}

impl Default for Palette {
    fn default() -> (p: Palette)
        ensures
            p == spec_default_palette(),
    {
        Palette {
            fg: PaletteColor::EightBit(15),
            bg: PaletteColor::EightBit(0),
            black: PaletteColor::EightBit(0),
            green: PaletteColor::EightBit(2),
            orange: PaletteColor::EightBit(3),
            cyan: PaletteColor::EightBit(6),
        }
    }
}

} // verus!
