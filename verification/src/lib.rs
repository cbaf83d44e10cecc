//! Runtime-configurable ANSI text styling.
//!
//! A [`Style`] is a plain value recording an optional foreground color, an
//! optional background color and nine independent boolean text effects, built
//! through chained mutators. Applying a style to a displayable value yields a
//! [`Styled`] wrapper; rendering it produces the value's own text wrapped in
//! the ANSI SGR escape sequence that encodes the active attributes, followed
//! by a full reset sequence whenever any attribute was active.

pub mod color;
pub mod render;
pub mod style;

pub use color::{AnsiColors, Color, DynColor, DynColors};
pub use style::style;
pub use style::{Effect, OwoColorize, Style, Styled};
