//! The closed set of colors an entity can carry.
//!
//! Each color has a fixed numeric code in the external protocol; the
//! default color is `Grey`.

use vstd::prelude::*;

verus! {

/// A color choice for a project, label or filter icon.
#[derive(Clone, Copy, Debug, PartialEq, Eq, Structural)]
pub enum Colors {
    BerryRed,
    Red,
    Orange,
    Yellow,
    OliveGreen,
    LimeGreen,
    Green,
    MintGreen,
    Teal,
    SkyBlue,
    LightBlue,
    Blue,
    Grape,
    Violet,
    Lavender,
    Magenta,
    Salmon,
    Charcoal,
    Grey,
    Taupe,
}

impl Colors {
    /// The numeric code this color carries in the external protocol.
    pub open spec fn spec_code(self) -> u8 {
        match self {
            Colors::BerryRed => 30,
            Colors::Red => 31,
            Colors::Orange => 32,
            Colors::Yellow => 33,
            Colors::OliveGreen => 34,
            Colors::LimeGreen => 35,
            Colors::Green => 36,
            Colors::MintGreen => 37,
            Colors::Teal => 38,
            Colors::SkyBlue => 39,
            Colors::LightBlue => 40,
            Colors::Blue => 41,
            Colors::Grape => 42,
            Colors::Violet => 43,
            Colors::Lavender => 44,
            Colors::Magenta => 45,
            Colors::Salmon => 46,
            Colors::Charcoal => 47,
            Colors::Grey => 48,
            Colors::Taupe => 49,
        }
    }

    /// Returns the fixed numeric protocol code of this color.
    pub fn code(&self) -> (r: u8)
        ensures
            r == self.spec_code(),
    {
        match self {
            Colors::BerryRed => 30,
            Colors::Red => 31,
            Colors::Orange => 32,
            Colors::Yellow => 33,
            Colors::OliveGreen => 34,
            Colors::LimeGreen => 35,
            Colors::Green => 36,
            Colors::MintGreen => 37,
            Colors::Teal => 38,
            Colors::SkyBlue => 39,
            Colors::LightBlue => 40,
            Colors::Blue => 41,
            Colors::Grape => 42,
            Colors::Violet => 43,
            Colors::Lavender => 44,
            Colors::Magenta => 45,
            Colors::Salmon => 46,
            Colors::Charcoal => 47,
            Colors::Grey => 48,
            Colors::Taupe => 49,
        }
    }

    /// Returns the color with the given protocol code, or `None` if the
    /// code names no color.
    pub fn from_code(code: u8) -> (r: Option<Colors>)
        ensures
            match r {
                Some(c) => c.spec_code() == code,
                None => forall|c: Colors| c.spec_code() != code,
            },
    {
        match code {
            30 => Some(Colors::BerryRed),
            31 => Some(Colors::Red),
            32 => Some(Colors::Orange),
            33 => Some(Colors::Yellow),
            34 => Some(Colors::OliveGreen),
            35 => Some(Colors::LimeGreen),
            36 => Some(Colors::Green),
            37 => Some(Colors::MintGreen),
            38 => Some(Colors::Teal),
            39 => Some(Colors::SkyBlue),
            40 => Some(Colors::LightBlue),
            41 => Some(Colors::Blue),
            42 => Some(Colors::Grape),
            43 => Some(Colors::Violet),
            44 => Some(Colors::Lavender),
            45 => Some(Colors::Magenta),
            46 => Some(Colors::Salmon),
            47 => Some(Colors::Charcoal),
            48 => Some(Colors::Grey),
            49 => Some(Colors::Taupe),
            _ => None,
        }
    }
}

impl Default for Colors {
    /// The default color is `Grey`.
    fn default() -> (r: Self)
        ensures
            r == Colors::Grey,
    {
        Colors::Grey
    }
}

} // verus!
