//! Resolve an Omarchy desktop theme: the full palette (with Omarchy's own
//! alias/derivation cascade), shell style tokens, colors, and the decisions
//! behind change detection — as verified functions over plain values.

pub mod abi;
pub mod cascade_laws;
pub mod color;
pub mod decimal;
pub mod error;
pub mod export;
pub mod font;
pub mod palette;
pub mod style;
pub mod table;
pub mod text;
pub mod theme;
pub mod watch;

use vstd::prelude::*;

pub use color::Rgba;
pub use error::{Error, Result};
pub use font::Font;
pub use palette::Palette;
pub use style::StyleTokens;
pub use theme::Signature;

verus! {

/// Light or dark, as decided by the palette's mode cascade.
#[derive(Clone, Copy, Debug, PartialEq, Eq, Hash, Structural)]
pub enum Mode {
    Dark,
    Light,
}

impl Default for Mode {
    /// Dark.
    fn default() -> (m: Mode)
        ensures
            m == Mode::Dark,
    {
        Mode::Dark
    }
}

/// The word for a mode: "dark" or "light".
pub open spec fn mode_name(m: Mode) -> Seq<char> {
    match m {
        Mode::Dark => seq!['d', 'a', 'r', 'k'],
        Mode::Light => seq!['l', 'i', 'g', 'h', 't'],
    }
}

impl Mode {
    pub fn as_str(self) -> (s: &'static str)
        ensures
            s@ == mode_name(self),
    {
        match self {
            Mode::Dark => {
                proof {
                    reveal_strlit("dark");
                }
                "dark"
            },
            Mode::Light => {
                proof {
                    reveal_strlit("light");
                }
                "light"
            },
        }
    }

    pub fn is_light(self) -> (r: bool)
        ensures
            r == (self == Mode::Light),
    {
        match self {
            Mode::Dark => false,
            Mode::Light => true,
        }
    }
}

/// The ABI version of the C interface.
pub const ABI_VERSION: u32 = 1;

} // verus!
