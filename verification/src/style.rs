//! The style model: an optional foreground color, an optional background
//! color, and nine independent boolean text effects, composed through a
//! fluent, order-independent builder of pure value transforms.

use vstd::prelude::*;

use crate::color::{AnsiColors, Color, DynColor, DynColors};

verus! {

/// A runtime-configurable text effect for use with [`Style`].
#[derive(Debug, Copy, Clone, PartialEq, Eq)]
pub enum Effect {
    Bold,
    Dimmed,
    Italic,
    Underline,
    Blink,
    BlinkFast,
    Reversed,
    Hidden,
    Strikethrough,
}

/// A wrapper pairing a [`Style`] with one displayable value. It exists only to
/// be rendered: rendering emits the value's own text wrapped in the escape
/// sequences that the style calls for.
pub struct Styled<T> {
    /// The wrapped value.
    pub target: T,
    /// The style to apply when rendering.
    pub style: Style,
}

/// A pre-computed style. Chain mutators on the `Style`, then apply it to a
/// value with [`Style::style`] and render the result.
///
/// A `Style` is pure data: every mutator takes the style by value and returns
/// the updated style, so two styles built independently never share state.
#[derive(Debug, Copy, Clone, PartialEq)]
pub struct Style {
    /// The foreground color; `None` leaves the terminal's current color alone.
    pub fg: Option<DynColors>,
    /// The background color; `None` leaves the terminal's current color alone.
    pub bg: Option<DynColors>,
    /// Bold text.
    pub bold: bool,
    /// Dim text.
    pub dimmed: bool,
    /// Italic text.
    pub italic: bool,
    /// Underlined text.
    pub underline: bool,
    /// Blinking text.
    pub blink: bool,
    /// Fast blinking text.
    pub blink_fast: bool,
    /// Foreground and background swapped.
    pub reversed: bool,
    /// Hidden text.
    pub hidden: bool,
    /// Crossed-out text.
    pub strikethrough: bool,
}

/// The style `s` with its foreground slot set to `c`, all else unchanged.
pub open spec fn with_fg(s: Style, c: Option<DynColors>) -> Style {
    Style { fg: c, ..s }
}

/// The style `s` with its background slot set to `c`, all else unchanged.
pub open spec fn with_bg(s: Style, c: Option<DynColors>) -> Style {
    Style { bg: c, ..s }
}

/// Whether the flag of effect `e` is set in `s`.
pub open spec fn effect_flag(s: Style, e: Effect) -> bool {
    match e {
        Effect::Bold => s.bold,
        Effect::Dimmed => s.dimmed,
        Effect::Italic => s.italic,
        Effect::Underline => s.underline,
        Effect::Blink => s.blink,
        Effect::BlinkFast => s.blink_fast,
        Effect::Reversed => s.reversed,
        Effect::Hidden => s.hidden,
        Effect::Strikethrough => s.strikethrough,
    }
}

/// The style `s` with the flag of effect `e` set to `to`, all else unchanged.
pub open spec fn set_effect_spec(s: Style, e: Effect, to: bool) -> Style {
    match e {
        Effect::Bold => Style { bold: to, ..s },
        Effect::Dimmed => Style { dimmed: to, ..s },
        Effect::Italic => Style { italic: to, ..s },
        Effect::Underline => Style { underline: to, ..s },
        Effect::Blink => Style { blink: to, ..s },
        Effect::BlinkFast => Style { blink_fast: to, ..s },
        Effect::Reversed => Style { reversed: to, ..s },
        Effect::Hidden => Style { hidden: to, ..s },
        Effect::Strikethrough => Style { strikethrough: to, ..s },
    }
}

/// The style `s` with the flag of each effect in `effs` set to `to`, applied
/// left to right, all else unchanged.
pub open spec fn set_effects_spec(s: Style, effs: Seq<Effect>, to: bool) -> Style
    decreases effs.len(),
{
    if effs.len() == 0 {
        s
    } else {
        set_effect_spec(set_effects_spec(s, effs.drop_last(), to), effs.last(), to)
    }
}

impl Style {
    /// The default style: no foreground, no background, every effect off.
    pub open spec fn spec_default() -> Style {
        Style {
            fg: None,
            bg: None,
            bold: false,
            dimmed: false,
            italic: false,
            underline: false,
            blink: false,
            blink_fast: false,
            reversed: false,
            hidden: false,
            strikethrough: false,
        }
    }

    /// Create a new style to be applied later. It renders as a no-op until a
    /// mutator sets an attribute.
    #[must_use]
    pub fn new() -> (r: Self)
        ensures
            r == Style::spec_default(),
    {
        Style {
            fg: None,
            bg: None,
            bold: false,
            dimmed: false,
            italic: false,
            underline: false,
            blink: false,
            blink_fast: false,
            reversed: false,
            hidden: false,
            strikethrough: false,
        }
    }

    /// Apply the style, by copy, to a given value to output.
    pub fn style<T>(&self, target: T) -> (r: Styled<T>)
        ensures
            r.style == *self,
            r.target == target,
    {
        Styled { target, style: *self }
    }

    /// Set the foreground color generically, from a compile-time marker.
    #[must_use]
    pub fn fg<C: Color>(self) -> (r: Self)
        ensures
            r == with_fg(self, Some(C::color_spec())),
    {
        Style { fg: Some(C::into_dyncolors()), ..self }
    }

    /// Set the background color generically, from a compile-time marker.
    #[must_use]
    pub fn bg<C: Color>(self) -> (r: Self)
        ensures
            r == with_bg(self, Some(C::color_spec())),
    {
        Style { bg: Some(C::into_dyncolors()), ..self }
    }

    /// Remove the foreground color from the style. This does not apply the
    /// default color: it stands for not changing the terminal's current
    /// color, and rendering emits no foreground code at all. To actively
    /// reset the terminal color, see [`Style::default_color`].
    #[must_use]
    pub fn remove_fg(self) -> (r: Self)
        ensures
            r == with_fg(self, None),
    {
        Style { fg: None, ..self }
    }

    /// Remove the background color from the style. This does not apply the
    /// default color: it stands for not changing the terminal's current
    /// color, and rendering emits no background code at all. To actively
    /// reset the terminal color, see [`Style::on_default_color`].
    #[must_use]
    pub fn remove_bg(self) -> (r: Self)
        ensures
            r == with_bg(self, None),
    {
        Style { bg: None, ..self }
    }

    /// Change the foreground color to black.
    #[must_use]
    pub fn black(self) -> (r: Self)
        ensures
            r == with_fg(self, Some(DynColors::Ansi(AnsiColors::Black))),
    {
        Style { fg: Some(DynColors::Ansi(AnsiColors::Black)), ..self }
    }

    /// Change the background color to black.
    #[must_use]
    pub fn on_black(self) -> (r: Self)
        ensures
            r == with_bg(self, Some(DynColors::Ansi(AnsiColors::Black))),
    {
        Style { bg: Some(DynColors::Ansi(AnsiColors::Black)), ..self }
    }

    /// Change the foreground color to red.
    #[must_use]
    pub fn red(self) -> (r: Self)
        ensures
            r == with_fg(self, Some(DynColors::Ansi(AnsiColors::Red))),
    {
        Style { fg: Some(DynColors::Ansi(AnsiColors::Red)), ..self }
    }

    /// Change the background color to red.
    #[must_use]
    pub fn on_red(self) -> (r: Self)
        ensures
            r == with_bg(self, Some(DynColors::Ansi(AnsiColors::Red))),
    {
        Style { bg: Some(DynColors::Ansi(AnsiColors::Red)), ..self }
    }

    /// Change the foreground color to green.
    #[must_use]
    pub fn green(self) -> (r: Self)
        ensures
            r == with_fg(self, Some(DynColors::Ansi(AnsiColors::Green))),
    {
        Style { fg: Some(DynColors::Ansi(AnsiColors::Green)), ..self }
    }

    /// Change the background color to green.
    #[must_use]
    pub fn on_green(self) -> (r: Self)
        ensures
            r == with_bg(self, Some(DynColors::Ansi(AnsiColors::Green))),
    {
        Style { bg: Some(DynColors::Ansi(AnsiColors::Green)), ..self }
    }

    /// Change the foreground color to yellow.
    #[must_use]
    pub fn yellow(self) -> (r: Self)
        ensures
            r == with_fg(self, Some(DynColors::Ansi(AnsiColors::Yellow))),
    {
        Style { fg: Some(DynColors::Ansi(AnsiColors::Yellow)), ..self }
    }

    /// Change the background color to yellow.
    #[must_use]
    pub fn on_yellow(self) -> (r: Self)
        ensures
            r == with_bg(self, Some(DynColors::Ansi(AnsiColors::Yellow))),
    {
        Style { bg: Some(DynColors::Ansi(AnsiColors::Yellow)), ..self }
    }

    /// Change the foreground color to blue.
    #[must_use]
    pub fn blue(self) -> (r: Self)
        ensures
            r == with_fg(self, Some(DynColors::Ansi(AnsiColors::Blue))),
    {
        Style { fg: Some(DynColors::Ansi(AnsiColors::Blue)), ..self }
    }

    /// Change the background color to blue.
    #[must_use]
    pub fn on_blue(self) -> (r: Self)
        ensures
            r == with_bg(self, Some(DynColors::Ansi(AnsiColors::Blue))),
    {
        Style { bg: Some(DynColors::Ansi(AnsiColors::Blue)), ..self }
    }

    /// Change the foreground color to magenta.
    #[must_use]
    pub fn magenta(self) -> (r: Self)
        ensures
            r == with_fg(self, Some(DynColors::Ansi(AnsiColors::Magenta))),
    {
        Style { fg: Some(DynColors::Ansi(AnsiColors::Magenta)), ..self }
    }

    /// Change the background color to magenta.
    #[must_use]
    pub fn on_magenta(self) -> (r: Self)
        ensures
            r == with_bg(self, Some(DynColors::Ansi(AnsiColors::Magenta))),
    {
        Style { bg: Some(DynColors::Ansi(AnsiColors::Magenta)), ..self }
    }

    /// Change the foreground color to purple.
    #[must_use]
    pub fn purple(self) -> (r: Self)
        ensures
            r == with_fg(self, Some(DynColors::Ansi(AnsiColors::Magenta))),
    {
        Style { fg: Some(DynColors::Ansi(AnsiColors::Magenta)), ..self }
    }

    /// Change the background color to purple.
    #[must_use]
    pub fn on_purple(self) -> (r: Self)
        ensures
            r == with_bg(self, Some(DynColors::Ansi(AnsiColors::Magenta))),
    {
        Style { bg: Some(DynColors::Ansi(AnsiColors::Magenta)), ..self }
    }

    /// Change the foreground color to cyan.
    #[must_use]
    pub fn cyan(self) -> (r: Self)
        ensures
            r == with_fg(self, Some(DynColors::Ansi(AnsiColors::Cyan))),
    {
        Style { fg: Some(DynColors::Ansi(AnsiColors::Cyan)), ..self }
    }

    /// Change the background color to cyan.
    #[must_use]
    pub fn on_cyan(self) -> (r: Self)
        ensures
            r == with_bg(self, Some(DynColors::Ansi(AnsiColors::Cyan))),
    {
        Style { bg: Some(DynColors::Ansi(AnsiColors::Cyan)), ..self }
    }

    /// Change the foreground color to white.
    #[must_use]
    pub fn white(self) -> (r: Self)
        ensures
            r == with_fg(self, Some(DynColors::Ansi(AnsiColors::White))),
    {
        Style { fg: Some(DynColors::Ansi(AnsiColors::White)), ..self }
    }

    /// Change the background color to white.
    #[must_use]
    pub fn on_white(self) -> (r: Self)
        ensures
            r == with_bg(self, Some(DynColors::Ansi(AnsiColors::White))),
    {
        Style { bg: Some(DynColors::Ansi(AnsiColors::White)), ..self }
    }

    /// Change the foreground color to the terminal default.
    #[must_use]
    pub fn default_color(self) -> (r: Self)
        ensures
            r == with_fg(self, Some(DynColors::Ansi(AnsiColors::Default))),
    {
        Style { fg: Some(DynColors::Ansi(AnsiColors::Default)), ..self }
    }

    /// Change the background color to the terminal default.
    #[must_use]
    pub fn on_default_color(self) -> (r: Self)
        ensures
            r == with_bg(self, Some(DynColors::Ansi(AnsiColors::Default))),
    {
        Style { bg: Some(DynColors::Ansi(AnsiColors::Default)), ..self }
    }

    /// Change the foreground color to bright black.
    #[must_use]
    pub fn bright_black(self) -> (r: Self)
        ensures
            r == with_fg(self, Some(DynColors::Ansi(AnsiColors::BrightBlack))),
    {
        Style { fg: Some(DynColors::Ansi(AnsiColors::BrightBlack)), ..self }
    }

    /// Change the background color to bright black.
    #[must_use]
    pub fn on_bright_black(self) -> (r: Self)
        ensures
            r == with_bg(self, Some(DynColors::Ansi(AnsiColors::BrightBlack))),
    {
        Style { bg: Some(DynColors::Ansi(AnsiColors::BrightBlack)), ..self }
    }

    /// Change the foreground color to bright red.
    #[must_use]
    pub fn bright_red(self) -> (r: Self)
        ensures
            r == with_fg(self, Some(DynColors::Ansi(AnsiColors::BrightRed))),
    {
        Style { fg: Some(DynColors::Ansi(AnsiColors::BrightRed)), ..self }
    }

    /// Change the background color to bright red.
    #[must_use]
    pub fn on_bright_red(self) -> (r: Self)
        ensures
            r == with_bg(self, Some(DynColors::Ansi(AnsiColors::BrightRed))),
    {
        Style { bg: Some(DynColors::Ansi(AnsiColors::BrightRed)), ..self }
    }

    /// Change the foreground color to bright green.
    #[must_use]
    pub fn bright_green(self) -> (r: Self)
        ensures
            r == with_fg(self, Some(DynColors::Ansi(AnsiColors::BrightGreen))),
    {
        Style { fg: Some(DynColors::Ansi(AnsiColors::BrightGreen)), ..self }
    }

    /// Change the background color to bright green.
    #[must_use]
    pub fn on_bright_green(self) -> (r: Self)
        ensures
            r == with_bg(self, Some(DynColors::Ansi(AnsiColors::BrightGreen))),
    {
        Style { bg: Some(DynColors::Ansi(AnsiColors::BrightGreen)), ..self }
    }

    /// Change the foreground color to bright yellow.
    #[must_use]
    pub fn bright_yellow(self) -> (r: Self)
        ensures
            r == with_fg(self, Some(DynColors::Ansi(AnsiColors::BrightYellow))),
    {
        Style { fg: Some(DynColors::Ansi(AnsiColors::BrightYellow)), ..self }
    }

    /// Change the background color to bright yellow.
    #[must_use]
    pub fn on_bright_yellow(self) -> (r: Self)
        ensures
            r == with_bg(self, Some(DynColors::Ansi(AnsiColors::BrightYellow))),
    {
        Style { bg: Some(DynColors::Ansi(AnsiColors::BrightYellow)), ..self }
    }

    /// Change the foreground color to bright blue.
    #[must_use]
    pub fn bright_blue(self) -> (r: Self)
        ensures
            r == with_fg(self, Some(DynColors::Ansi(AnsiColors::BrightBlue))),
    {
        Style { fg: Some(DynColors::Ansi(AnsiColors::BrightBlue)), ..self }
    }

    /// Change the background color to bright blue.
    #[must_use]
    pub fn on_bright_blue(self) -> (r: Self)
        ensures
            r == with_bg(self, Some(DynColors::Ansi(AnsiColors::BrightBlue))),
    {
        Style { bg: Some(DynColors::Ansi(AnsiColors::BrightBlue)), ..self }
    }

    /// Change the foreground color to bright magenta.
    #[must_use]
    pub fn bright_magenta(self) -> (r: Self)
        ensures
            r == with_fg(self, Some(DynColors::Ansi(AnsiColors::BrightMagenta))),
    {
        Style { fg: Some(DynColors::Ansi(AnsiColors::BrightMagenta)), ..self }
    }

    /// Change the background color to bright magenta.
    #[must_use]
    pub fn on_bright_magenta(self) -> (r: Self)
        ensures
            r == with_bg(self, Some(DynColors::Ansi(AnsiColors::BrightMagenta))),
    {
        Style { bg: Some(DynColors::Ansi(AnsiColors::BrightMagenta)), ..self }
    }

    /// Change the foreground color to bright purple.
    #[must_use]
    pub fn bright_purple(self) -> (r: Self)
        ensures
            r == with_fg(self, Some(DynColors::Ansi(AnsiColors::BrightMagenta))),
    {
        Style { fg: Some(DynColors::Ansi(AnsiColors::BrightMagenta)), ..self }
    }

    /// Change the background color to bright purple.
    #[must_use]
    pub fn on_bright_purple(self) -> (r: Self)
        ensures
            r == with_bg(self, Some(DynColors::Ansi(AnsiColors::BrightMagenta))),
    {
        Style { bg: Some(DynColors::Ansi(AnsiColors::BrightMagenta)), ..self }
    }

    /// Change the foreground color to bright cyan.
    #[must_use]
    pub fn bright_cyan(self) -> (r: Self)
        ensures
            r == with_fg(self, Some(DynColors::Ansi(AnsiColors::BrightCyan))),
    {
        Style { fg: Some(DynColors::Ansi(AnsiColors::BrightCyan)), ..self }
    }

    /// Change the background color to bright cyan.
    #[must_use]
    pub fn on_bright_cyan(self) -> (r: Self)
        ensures
            r == with_bg(self, Some(DynColors::Ansi(AnsiColors::BrightCyan))),
    {
        Style { bg: Some(DynColors::Ansi(AnsiColors::BrightCyan)), ..self }
    }

    /// Change the foreground color to bright white.
    #[must_use]
    pub fn bright_white(self) -> (r: Self)
        ensures
            r == with_fg(self, Some(DynColors::Ansi(AnsiColors::BrightWhite))),
    {
        Style { fg: Some(DynColors::Ansi(AnsiColors::BrightWhite)), ..self }
    }

    /// Change the background color to bright white.
    #[must_use]
    pub fn on_bright_white(self) -> (r: Self)
        ensures
            r == with_bg(self, Some(DynColors::Ansi(AnsiColors::BrightWhite))),
    {
        Style { bg: Some(DynColors::Ansi(AnsiColors::BrightWhite)), ..self }
    }

    /// Make the text bold.
    #[must_use]
    pub fn bold(self) -> (r: Self)
        ensures
            r == (Style { bold: true, ..self }),
    {
        Style { bold: true, ..self }
    }

    /// Make the text dim.
    #[must_use]
    pub fn dimmed(self) -> (r: Self)
        ensures
            r == (Style { dimmed: true, ..self }),
    {
        Style { dimmed: true, ..self }
    }

    /// Make the text italicized.
    #[must_use]
    pub fn italic(self) -> (r: Self)
        ensures
            r == (Style { italic: true, ..self }),
    {
        Style { italic: true, ..self }
    }

    /// Underline the text.
    #[must_use]
    pub fn underline(self) -> (r: Self)
        ensures
            r == (Style { underline: true, ..self }),
    {
        Style { underline: true, ..self }
    }

    /// Make the text blink.
    #[must_use]
    pub fn blink(self) -> (r: Self)
        ensures
            r == (Style { blink: true, ..self }),
    {
        Style { blink: true, ..self }
    }

    /// Make the text blink quickly.
    #[must_use]
    pub fn blink_fast(self) -> (r: Self)
        ensures
            r == (Style { blink_fast: true, ..self }),
    {
        Style { blink_fast: true, ..self }
    }

    /// Swap the foreground and background colors.
    #[must_use]
    pub fn reversed(self) -> (r: Self)
        ensures
            r == (Style { reversed: true, ..self }),
    {
        Style { reversed: true, ..self }
    }

    /// Hide the text.
    #[must_use]
    pub fn hidden(self) -> (r: Self)
        ensures
            r == (Style { hidden: true, ..self }),
    {
        Style { hidden: true, ..self }
    }

    /// Cross out the text.
    #[must_use]
    pub fn strikethrough(self) -> (r: Self)
        ensures
            r == (Style { strikethrough: true, ..self }),
    {
        Style { strikethrough: true, ..self }
    }


    /// Set the foreground color at runtime.
    #[must_use]
    pub fn color<C: DynColor>(self, color: C) -> (r: Self)
        ensures
            r == with_fg(self, Some(color.dyncolors_spec())),
    {
        let c = color.get_dyncolors_fg();
        Style { fg: Some(c), ..self }
    }

    /// Set the background color at runtime.
    #[must_use]
    pub fn on_color<C: DynColor>(self, color: C) -> (r: Self)
        ensures
            r == with_bg(self, Some(color.dyncolors_spec())),
    {
        let c = color.get_dyncolors_bg();
        Style { bg: Some(c), ..self }
    }

    /// Set the foreground color to an RGB value given at compile time.
    #[must_use]
    pub fn fg_rgb<const R: u8, const G: u8, const B: u8>(self) -> (r: Self)
        ensures
            r == with_fg(self, Some(DynColors::Rgb(R, G, B))),
    {
        Style { fg: Some(DynColors::Rgb(R, G, B)), ..self }
    }

    /// Set the background color to an RGB value given at compile time.
    #[must_use]
    pub fn bg_rgb<const R: u8, const G: u8, const B: u8>(self) -> (r: Self)
        ensures
            r == with_bg(self, Some(DynColors::Rgb(R, G, B))),
    {
        Style { bg: Some(DynColors::Rgb(R, G, B)), ..self }
    }

    /// Set the foreground color to an RGB value.
    #[must_use]
    pub fn truecolor(self, r: u8, g: u8, b: u8) -> (res: Self)
        ensures
            res == with_fg(self, Some(DynColors::Rgb(r, g, b))),
    {
        Style { fg: Some(DynColors::Rgb(r, g, b)), ..self }
    }

    /// Set the background color to an RGB value.
    #[must_use]
    pub fn on_truecolor(self, r: u8, g: u8, b: u8) -> (res: Self)
        ensures
            res == with_bg(self, Some(DynColors::Rgb(r, g, b))),
    {
        Style { bg: Some(DynColors::Rgb(r, g, b)), ..self }
    }

    /// Set the flag of one effect to `to`, leaving every other attribute as
    /// it was.
    fn set_effect(self, effect: Effect, to: bool) -> (r: Self)
        ensures
            r == set_effect_spec(self, effect, to),
    {
        match effect {
            Effect::Bold => Style { bold: to, ..self },
            Effect::Dimmed => Style { dimmed: to, ..self },
            Effect::Italic => Style { italic: to, ..self },
            Effect::Underline => Style { underline: to, ..self },
            Effect::Blink => Style { blink: to, ..self },
            Effect::BlinkFast => Style { blink_fast: to, ..self },
            Effect::Reversed => Style { reversed: to, ..self },
            Effect::Hidden => Style { hidden: to, ..self },
            Effect::Strikethrough => Style { strikethrough: to, ..self },
        }
    }

    /// Set the flag of each listed effect to `to`, leaving every other
    /// attribute as it was.
    fn set_effects(self, effects: &[Effect], to: bool) -> (r: Self)
        ensures
            r == set_effects_spec(self, effects@, to),
    {
        let mut cur = self;
        let mut i: usize = 0;
        proof {
            assert(effects@.subrange(0, 0) =~= Seq::<Effect>::empty());
        }
        while i < effects.len()
            invariant
                i <= effects@.len(),
                cur == set_effects_spec(self, effects@.subrange(0, i as int), to),
            decreases effects@.len() - i,
        {
            cur = cur.set_effect(effects[i], to);
            proof {
                let done = effects@.subrange(0, i + 1);
                assert(done.drop_last() =~= effects@.subrange(0, i as int));
                assert(done.last() == effects@[i as int]);
            }
            i = i + 1;
        }
        proof {
            assert(effects@.subrange(0, effects@.len() as int) =~= effects@);
        }
        cur
    }

    /// Apply a given effect to the style.
    #[must_use]
    pub fn effect(self, effect: Effect) -> (r: Self)
        ensures
            r == set_effect_spec(self, effect, true),
    {
        self.set_effect(effect, true)
    }

    /// Remove a given effect from the style.
    #[must_use]
    pub fn remove_effect(self, effect: Effect) -> (r: Self)
        ensures
            r == set_effect_spec(self, effect, false),
    {
        self.set_effect(effect, false)
    }

    /// Apply a given set of effects to the style. Application is additive:
    /// effects already active stay active.
    #[must_use]
    pub fn effects(self, effects: &[Effect]) -> (r: Self)
        ensures
            r == set_effects_spec(self, effects@, true),
    {
        self.set_effects(effects, true)
    }

    /// Remove a given set of effects from the style.
    #[must_use]
    pub fn remove_effects(self, effects: &[Effect]) -> (r: Self)
        ensures
            r == set_effects_spec(self, effects@, false),
    {
        self.set_effects(effects, false)
    }

    /// Disable all nine effects, whatever their prior state. The color slots
    /// are left as they were.
    #[must_use]
    pub fn remove_all_effects(self) -> (r: Self)
        ensures
            r == (Style { fg: self.fg, bg: self.bg, ..Style::spec_default() }),
            forall|e: Effect| !effect_flag(r, e),
    {
        Style {
            bold: false,
            dimmed: false,
            italic: false,
            underline: false,
            blink: false,
            blink_fast: false,
            reversed: false,
            hidden: false,
            strikethrough: false,
            ..self
        }
    }
}

impl Default for Style {
    /// The default style, identical to [`Style::new`].
    fn default() -> (r: Self)
        ensures
            r == Style::spec_default(),
    {
        Style::new()
    }
}

/// Helper to create [`Style`]s more ergonomically.
pub fn style() -> (r: Style)
    ensures
        r == Style::spec_default(),
{
    Style::new()
}

/// Applying a style to a value: the counterpart of [`Style::style`] chained on
/// the value instead of the style.
pub trait OwoColorize: Sized {
    /// Bind `style`, by copy, to this value for one rendering.
    fn style(self, style: Style) -> (r: Styled<Self>)
        ensures
            r.style == style,
            r.target == self,
    ;
}

impl<'a> OwoColorize for &'a str {
    fn style(self, style: Style) -> (r: Styled<&'a str>) {
        Styled { target: self, style }
    }
}

/// Law: setting the same color slot twice leaves only the second value in
/// effect, for the foreground and the background slot alike. The style, and
/// with it the rendered code, is as if the first call had never happened.
pub proof fn lemma_overwrite(s: Style, c1: Option<DynColors>, c2: Option<DynColors>)
    ensures
        with_fg(with_fg(s, c1), c2) == with_fg(s, c2),
        with_bg(with_bg(s, c1), c2) == with_bg(s, c2),
{
}

/// Law: the color slots are independent. Setting the foreground never alters
/// the background and vice versa, neither touches any effect flag, and the
/// order of setting the two slots does not matter.
pub proof fn lemma_slot_independence(s: Style, c1: Option<DynColors>, c2: Option<DynColors>)
    ensures
        with_fg(s, c1).bg == s.bg,
        with_bg(s, c2).fg == s.fg,
        with_fg(with_bg(s, c2), c1) == with_bg(with_fg(s, c1), c2),
        forall|e: Effect| effect_flag(with_fg(s, c1), e) == effect_flag(s, e),
        forall|e: Effect| effect_flag(with_bg(s, c2), e) == effect_flag(s, e),
{
}

/// Setting one effect flag changes exactly that flag: `e` ends at `to`, every
/// other effect keeps its prior value, and the color slots are untouched.
pub proof fn lemma_set_effect(s: Style, x: Effect, to: bool, e: Effect)
    ensures
        effect_flag(set_effect_spec(s, x, to), e) == (if x == e {
            to
        } else {
            effect_flag(s, e)
        }),
        set_effect_spec(s, x, to).fg == s.fg,
        set_effect_spec(s, x, to).bg == s.bg,
{
}

/// Law: applying a list of effects sets exactly the listed effects to `to`
/// and leaves every other effect at its prior value; the color slots are
/// untouched. With `to == true` this is the additive accumulation of
/// [`Style::effects`].
pub proof fn lemma_effects_accumulate(s: Style, effs: Seq<Effect>, to: bool, e: Effect)
    ensures
        effect_flag(set_effects_spec(s, effs, to), e) == (if effs.contains(e) {
            to
        } else {
            effect_flag(s, e)
        }),
        set_effects_spec(s, effs, to).fg == s.fg,
        set_effects_spec(s, effs, to).bg == s.bg,
    decreases effs.len(),
{
    if effs.len() == 0 {
        assert(!effs.contains(e));
    } else {
        let head = effs.drop_last();
        lemma_effects_accumulate(s, head, to, e);
        lemma_set_effect(set_effects_spec(s, head, to), effs.last(), to, e);
        assert(effs.contains(e) <==> (head.contains(e) || effs.last() == e)) by {
            if effs.contains(e) {
                let i = choose|i: int| 0 <= i < effs.len() && effs[i] == e;
                if i < effs.len() - 1 {
                    assert(head[i] == e);
                }
            }
            if head.contains(e) {
                let i = choose|i: int| 0 <= i < head.len() && head[i] == e;
                assert(effs[i] == e);
            }
            if effs.last() == e {
                assert(effs[effs.len() - 1] == e);
            }
        }
    }
}

} // verus!
