//! The color model: named ANSI colors, 24-bit RGB values, and the traits
//! through which compile-time and runtime color choices converge on the one
//! runtime representation [`DynColors`].

use vstd::prelude::*;

verus! {

/// The named ANSI colors: the eight standard colors, their bright variants,
/// and the terminal's own default color.
#[derive(Debug, Copy, Clone, PartialEq, Eq)]
pub enum AnsiColors {
    Black,
    Red,
    Green,
    Yellow,
    Blue,
    Magenta,
    Cyan,
    White,
    Default,
    BrightBlack,
    BrightRed,
    BrightGreen,
    BrightYellow,
    BrightBlue,
    BrightMagenta,
    BrightCyan,
    BrightWhite,
}

/// A runtime color: either a named ANSI color or a true-color value of three
/// independent 8-bit channels (red, green, blue).
#[derive(Debug, Copy, Clone, PartialEq, Eq)]
pub enum DynColors {
    Ansi(AnsiColors),
    Rgb(u8, u8, u8),
}

/// A color chosen at compile time through a marker type. Converting it yields
/// the runtime color it stands for, so that compile-time and runtime choices
/// share one rendering path.
pub trait Color {
    /// The runtime color this marker stands for.
    spec fn color_spec() -> DynColors;

    /// Convert the marker into its runtime color.
    fn into_dyncolors() -> (r: DynColors)
        ensures
            r == Self::color_spec(),
    ;
}

/// A value that picks a runtime color, usable for the foreground or the
/// background slot alike.
pub trait DynColor {
    /// The runtime color this value denotes.
    spec fn dyncolors_spec(&self) -> DynColors;

    /// The runtime color to put in the foreground slot.
    fn get_dyncolors_fg(&self) -> (r: DynColors)
        ensures
            r == self.dyncolors_spec(),
    ;

    /// The runtime color to put in the background slot.
    fn get_dyncolors_bg(&self) -> (r: DynColors)
        ensures
            r == self.dyncolors_spec(),
    ;
}

impl DynColor for AnsiColors {
    open spec fn dyncolors_spec(&self) -> DynColors {
        DynColors::Ansi(*self)
    }

    fn get_dyncolors_fg(&self) -> DynColors {
        DynColors::Ansi(*self)
    }

    fn get_dyncolors_bg(&self) -> DynColors {
        DynColors::Ansi(*self)
    }
}

impl DynColor for DynColors {
    open spec fn dyncolors_spec(&self) -> DynColors {
        *self
    }

    fn get_dyncolors_fg(&self) -> DynColors {
        *self
    }

    fn get_dyncolors_bg(&self) -> DynColors {
        *self
    }
}

/// Marker for the color black.
pub struct Black;

impl Color for Black {
    open spec fn color_spec() -> DynColors {
        DynColors::Ansi(AnsiColors::Black)
    }

    fn into_dyncolors() -> DynColors {
        DynColors::Ansi(AnsiColors::Black)
    }
}

/// Marker for the color red.
pub struct Red;

impl Color for Red {
    open spec fn color_spec() -> DynColors {
        DynColors::Ansi(AnsiColors::Red)
    }

    fn into_dyncolors() -> DynColors {
        DynColors::Ansi(AnsiColors::Red)
    }
}

/// Marker for the color green.
pub struct Green;

impl Color for Green {
    open spec fn color_spec() -> DynColors {
        DynColors::Ansi(AnsiColors::Green)
    }

    fn into_dyncolors() -> DynColors {
        DynColors::Ansi(AnsiColors::Green)
    }
}

/// Marker for the color yellow.
pub struct Yellow;

impl Color for Yellow {
    open spec fn color_spec() -> DynColors {
        DynColors::Ansi(AnsiColors::Yellow)
    }

    fn into_dyncolors() -> DynColors {
        DynColors::Ansi(AnsiColors::Yellow)
    }
}

/// Marker for the color blue.
pub struct Blue;

impl Color for Blue {
    open spec fn color_spec() -> DynColors {
        DynColors::Ansi(AnsiColors::Blue)
    }

    fn into_dyncolors() -> DynColors {
        DynColors::Ansi(AnsiColors::Blue)
    }
}

/// Marker for the color magenta.
pub struct Magenta;

impl Color for Magenta {
    open spec fn color_spec() -> DynColors {
        DynColors::Ansi(AnsiColors::Magenta)
    }

    fn into_dyncolors() -> DynColors {
        DynColors::Ansi(AnsiColors::Magenta)
    }
}

/// Marker for the color cyan.
pub struct Cyan;

impl Color for Cyan {
    open spec fn color_spec() -> DynColors {
        DynColors::Ansi(AnsiColors::Cyan)
    }

    fn into_dyncolors() -> DynColors {
        DynColors::Ansi(AnsiColors::Cyan)
    }
}

/// Marker for the color white.
pub struct White;

impl Color for White {
    open spec fn color_spec() -> DynColors {
        DynColors::Ansi(AnsiColors::White)
    }

    fn into_dyncolors() -> DynColors {
        DynColors::Ansi(AnsiColors::White)
    }
}

/// Marker for the terminal's default color.
pub struct DefaultColor;

impl Color for DefaultColor {
    open spec fn color_spec() -> DynColors {
        DynColors::Ansi(AnsiColors::Default)
    }

    fn into_dyncolors() -> DynColors {
        DynColors::Ansi(AnsiColors::Default)
    }
}

/// Marker for the color bright black.
pub struct BrightBlack;

impl Color for BrightBlack {
    open spec fn color_spec() -> DynColors {
        DynColors::Ansi(AnsiColors::BrightBlack)
    }

    fn into_dyncolors() -> DynColors {
        DynColors::Ansi(AnsiColors::BrightBlack)
    }
}

/// Marker for the color bright red.
pub struct BrightRed;

impl Color for BrightRed {
    open spec fn color_spec() -> DynColors {
        DynColors::Ansi(AnsiColors::BrightRed)
    }

    fn into_dyncolors() -> DynColors {
        DynColors::Ansi(AnsiColors::BrightRed)
    }
}

/// Marker for the color bright green.
pub struct BrightGreen;

impl Color for BrightGreen {
    open spec fn color_spec() -> DynColors {
        DynColors::Ansi(AnsiColors::BrightGreen)
    }

    fn into_dyncolors() -> DynColors {
        DynColors::Ansi(AnsiColors::BrightGreen)
    }
}

/// Marker for the color bright yellow.
pub struct BrightYellow;

impl Color for BrightYellow {
    open spec fn color_spec() -> DynColors {
        DynColors::Ansi(AnsiColors::BrightYellow)
    }

    fn into_dyncolors() -> DynColors {
        DynColors::Ansi(AnsiColors::BrightYellow)
    }
}

/// Marker for the color bright blue.
pub struct BrightBlue;

impl Color for BrightBlue {
    open spec fn color_spec() -> DynColors {
        DynColors::Ansi(AnsiColors::BrightBlue)
    }

    fn into_dyncolors() -> DynColors {
        DynColors::Ansi(AnsiColors::BrightBlue)
    }
}

/// Marker for the color bright magenta.
pub struct BrightMagenta;

impl Color for BrightMagenta {
    open spec fn color_spec() -> DynColors {
        DynColors::Ansi(AnsiColors::BrightMagenta)
    }

    fn into_dyncolors() -> DynColors {
        DynColors::Ansi(AnsiColors::BrightMagenta)
    }
}

/// Marker for the color bright cyan.
pub struct BrightCyan;

impl Color for BrightCyan {
    open spec fn color_spec() -> DynColors {
        DynColors::Ansi(AnsiColors::BrightCyan)
    }

    fn into_dyncolors() -> DynColors {
        DynColors::Ansi(AnsiColors::BrightCyan)
    }
}

/// Marker for the color bright white.
pub struct BrightWhite;

impl Color for BrightWhite {
    open spec fn color_spec() -> DynColors {
        DynColors::Ansi(AnsiColors::BrightWhite)
    }

    fn into_dyncolors() -> DynColors {
        DynColors::Ansi(AnsiColors::BrightWhite)
    }
}

/// Marker for a true color chosen at compile time, one 8-bit channel each for
/// red, green and blue.
pub struct CustomColor<const R: u8, const G: u8, const B: u8>;

impl<const R: u8, const G: u8, const B: u8> Color for CustomColor<R, G, B> {
    open spec fn color_spec() -> DynColors {
        DynColors::Rgb(R, G, B)
    }

    fn into_dyncolors() -> DynColors {
        DynColors::Rgb(R, G, B)
    }
}

} // verus!
