//! The renderer: serializing a style and a piece of text into one ANSI SGR
//! escape sequence, the text itself, and a full reset sequence.
//!
//! The exact output is pinned down by [`rendered`]: nothing at all for a
//! default style, and otherwise `ESC [ <params> m`, the text unchanged, and
//! `ESC [ 0 m`, where `<params>` joins with semicolons one token per active
//! attribute — the foreground code first, then the background code, then the
//! single-digit effect codes in their fixed canonical order.

use vstd::prelude::*;
use vstd::string::*;

use crate::color::{AnsiColors, DynColors};
use crate::style::{with_fg, Style, Styled};

verus! {

/// The decimal digit character for `d` in `0 .. 10`.
pub open spec fn dec_digit(d: int) -> char {
    if d == 0 {
        '0'
    } else if d == 1 {
        '1'
    } else if d == 2 {
        '2'
    } else if d == 3 {
        '3'
    } else if d == 4 {
        '4'
    } else if d == 5 {
        '5'
    } else if d == 6 {
        '6'
    } else if d == 7 {
        '7'
    } else if d == 8 {
        '8'
    } else {
        '9'
    }
}

/// The decimal representation of `n`: most significant digit first, no
/// leading zeros, a single `'0'` for zero.
pub open spec fn dec_rep(n: nat) -> Seq<char>
    decreases n,
{
    if n < 10 {
        seq![dec_digit(n as int)]
    } else {
        dec_rep(n / 10).push(dec_digit((n % 10) as int))
    }
}

/// The SGR parameter that selects a named foreground color.
pub open spec fn fg_code(c: AnsiColors) -> Seq<char> {
    match c {
        AnsiColors::Black => "30"@,
        AnsiColors::Red => "31"@,
        AnsiColors::Green => "32"@,
        AnsiColors::Yellow => "33"@,
        AnsiColors::Blue => "34"@,
        AnsiColors::Magenta => "35"@,
        AnsiColors::Cyan => "36"@,
        AnsiColors::White => "37"@,
        AnsiColors::Default => "39"@,
        AnsiColors::BrightBlack => "90"@,
        AnsiColors::BrightRed => "91"@,
        AnsiColors::BrightGreen => "92"@,
        AnsiColors::BrightYellow => "93"@,
        AnsiColors::BrightBlue => "94"@,
        AnsiColors::BrightMagenta => "95"@,
        AnsiColors::BrightCyan => "96"@,
        AnsiColors::BrightWhite => "97"@,
    }
}

/// The SGR parameter that selects a named background color.
pub open spec fn bg_code(c: AnsiColors) -> Seq<char> {
    match c {
        AnsiColors::Black => "40"@,
        AnsiColors::Red => "41"@,
        AnsiColors::Green => "42"@,
        AnsiColors::Yellow => "43"@,
        AnsiColors::Blue => "44"@,
        AnsiColors::Magenta => "45"@,
        AnsiColors::Cyan => "46"@,
        AnsiColors::White => "47"@,
        AnsiColors::Default => "49"@,
        AnsiColors::BrightBlack => "100"@,
        AnsiColors::BrightRed => "101"@,
        AnsiColors::BrightGreen => "102"@,
        AnsiColors::BrightYellow => "103"@,
        AnsiColors::BrightBlue => "104"@,
        AnsiColors::BrightMagenta => "105"@,
        AnsiColors::BrightCyan => "106"@,
        AnsiColors::BrightWhite => "107"@,
    }
}

/// The whole foreground token: a named color's single parameter, or the
/// extended true-color form `38;2;R;G;B` with each channel in decimal.
pub open spec fn fg_token(c: DynColors) -> Seq<char> {
    match c {
        DynColors::Ansi(a) => fg_code(a),
        DynColors::Rgb(r, g, b) => "38;2;"@ + dec_rep(r as nat) + ";"@ + dec_rep(g as nat) + ";"@
            + dec_rep(b as nat),
    }
}

/// The whole background token, analogous to [`fg_token`] with the background
/// introducer code in place of the foreground one.
pub open spec fn bg_token(c: DynColors) -> Seq<char> {
    match c {
        DynColors::Ansi(a) => bg_code(a),
        DynColors::Rgb(r, g, b) => "48;2;"@ + dec_rep(r as nat) + ";"@ + dec_rep(g as nat) + ";"@
            + dec_rep(b as nat),
    }
}

/// Whether any of the nine effect flags is set.
pub open spec fn format_effect(s: Style) -> bool {
    s.bold || s.dimmed || s.italic || s.underline || s.blink || s.blink_fast || s.reversed
        || s.hidden || s.strikethrough
}

/// Whether either color slot is set.
pub open spec fn format_color(s: Style) -> bool {
    s.fg is Some || s.bg is Some
}

/// Whether any attribute at all is active; when false, rendering is the
/// identity on the content.
pub open spec fn format_any(s: Style) -> bool {
    format_color(s) || format_effect(s)
}

/// The SGR parameter tokens of `s`, in emission order: the foreground token
/// if the slot is set, then the background token if that slot is set, then
/// one single-digit token per active effect in the fixed canonical order
/// bold, dimmed, italic, underline, blink, blink-fast, reversed, hidden,
/// strikethrough (codes 1 through 9).
pub open spec fn sgr_tokens(s: Style) -> Seq<Seq<char>> {
    let t = Seq::<Seq<char>>::empty();
    let t = (match s.fg {
        Some(c) => t.push(fg_token(c)),
        None => t,
    });
    let t = (match s.bg {
        Some(c) => t.push(bg_token(c)),
        None => t,
    });
    let t = if s.bold {
        t.push("1"@)
    } else {
        t
    };
    let t = if s.dimmed {
        t.push("2"@)
    } else {
        t
    };
    let t = if s.italic {
        t.push("3"@)
    } else {
        t
    };
    let t = if s.underline {
        t.push("4"@)
    } else {
        t
    };
    let t = if s.blink {
        t.push("5"@)
    } else {
        t
    };
    let t = if s.blink_fast {
        t.push("6"@)
    } else {
        t
    };
    let t = if s.reversed {
        t.push("7"@)
    } else {
        t
    };
    let t = if s.hidden {
        t.push("8"@)
    } else {
        t
    };
    let t = if s.strikethrough {
        t.push("9"@)
    } else {
        t
    };
    t
}

/// The tokens joined with a single semicolon between neighbours.
pub open spec fn join_semi(ts: Seq<Seq<char>>) -> Seq<char>
    decreases ts.len(),
{
    if ts.len() == 0 {
        Seq::empty()
    } else if ts.len() == 1 {
        ts[0]
    } else {
        join_semi(ts.drop_last()) + ";"@ + ts.last()
    }
}

/// Everything emitted before the content: empty when no attribute is active,
/// else the escape introducer, the joined parameters, and the terminator.
pub open spec fn prefix_spec(s: Style) -> Seq<char> {
    if format_any(s) {
        "\x1b["@ + join_semi(sgr_tokens(s)) + "m"@
    } else {
        Seq::empty()
    }
}

/// Everything emitted after the content: the full reset sequence when any
/// attribute is active — resetting all attributes, not only those this style
/// set — and nothing otherwise.
pub open spec fn suffix_spec(s: Style) -> Seq<char> {
    if format_any(s) {
        "\x1b[0m"@
    } else {
        Seq::empty()
    }
}

/// The complete output for style `s` over `content`: prefix, the content
/// unchanged, suffix.
pub open spec fn rendered(s: Style, content: Seq<char>) -> Seq<char> {
    prefix_spec(s) + content + suffix_spec(s)
}

/// Joining after appending one token: the first token joins bare, every later
/// token joins behind a semicolon.
proof fn lemma_join_push(ts: Seq<Seq<char>>, t: Seq<char>)
    ensures
        join_semi(ts.push(t)) == (if ts.len() == 0 {
            t
        } else {
            join_semi(ts) + ";"@ + t
        }),
{
    let p = ts.push(t);
    if ts.len() == 0 {
        assert(p[0] == t);
    } else {
        assert(p.drop_last() =~= ts);
        assert(p.last() == t);
    }
}

/// The literal SGR parameter for a named foreground color.
fn fg_code_str(c: AnsiColors) -> (r: &'static str)
    ensures
        r@ == fg_code(c),
{
    match c {
        AnsiColors::Black => "30",
        AnsiColors::Red => "31",
        AnsiColors::Green => "32",
        AnsiColors::Yellow => "33",
        AnsiColors::Blue => "34",
        AnsiColors::Magenta => "35",
        AnsiColors::Cyan => "36",
        AnsiColors::White => "37",
        AnsiColors::Default => "39",
        AnsiColors::BrightBlack => "90",
        AnsiColors::BrightRed => "91",
        AnsiColors::BrightGreen => "92",
        AnsiColors::BrightYellow => "93",
        AnsiColors::BrightBlue => "94",
        AnsiColors::BrightMagenta => "95",
        AnsiColors::BrightCyan => "96",
        AnsiColors::BrightWhite => "97",
    }
}

/// The literal SGR parameter for a named background color.
fn bg_code_str(c: AnsiColors) -> (r: &'static str)
    ensures
        r@ == bg_code(c),
{
    match c {
        AnsiColors::Black => "40",
        AnsiColors::Red => "41",
        AnsiColors::Green => "42",
        AnsiColors::Yellow => "43",
        AnsiColors::Blue => "44",
        AnsiColors::Magenta => "45",
        AnsiColors::Cyan => "46",
        AnsiColors::White => "47",
        AnsiColors::Default => "49",
        AnsiColors::BrightBlack => "100",
        AnsiColors::BrightRed => "101",
        AnsiColors::BrightGreen => "102",
        AnsiColors::BrightYellow => "103",
        AnsiColors::BrightBlue => "104",
        AnsiColors::BrightMagenta => "105",
        AnsiColors::BrightCyan => "106",
        AnsiColors::BrightWhite => "107",
    }
}

/// The literal for one decimal digit.
fn digit_str(d: u8) -> (r: &'static str)
    requires
        d < 10,
    ensures
        r@ == seq![dec_digit(d as int)],
{
    proof {
        reveal_strlit("0");
        reveal_strlit("1");
        reveal_strlit("2");
        reveal_strlit("3");
        reveal_strlit("4");
        reveal_strlit("5");
        reveal_strlit("6");
        reveal_strlit("7");
        reveal_strlit("8");
        reveal_strlit("9");
    }
    let r: &'static str = match d {
        0 => "0",
        1 => "1",
        2 => "2",
        3 => "3",
        4 => "4",
        5 => "5",
        6 => "6",
        7 => "7",
        8 => "8",
        _ => "9",
    };
    proof {
        assert(r@ =~= seq![dec_digit(d as int)]);
    }
    r
}

/// The decimal representation of a two-digit number, digit by digit.
proof fn lemma_dec_rep2(n: nat)
    requires
        10 <= n < 100,
    ensures
        dec_rep(n) =~= seq![dec_digit((n / 10) as int), dec_digit((n % 10) as int)],
{
    assert(n / 10 < 10);
    assert(dec_rep(n / 10) == seq![dec_digit((n / 10) as int)]);
    assert(dec_rep(n) == dec_rep(n / 10).push(dec_digit((n % 10) as int)));
}

/// The decimal representation of a three-digit number, digit by digit.
proof fn lemma_dec_rep3(n: nat)
    requires
        100 <= n < 1000,
    ensures
        dec_rep(n) =~= seq![
            dec_digit((n / 100) as int),
            dec_digit((n / 10 % 10) as int),
            dec_digit((n % 10) as int),
        ],
{
    vstd::arithmetic::div_mod::lemma_div_denominator(n as int, 10, 10);
    assert(n / 10 / 10 == n / 100);
    assert(10 <= n / 10 < 100);
    lemma_dec_rep2(n / 10);
    assert(dec_rep(n) == dec_rep(n / 10).push(dec_digit((n % 10) as int)));
}

/// Append the decimal representation of `v`, without leading zeros.
fn push_dec_u8(out: &mut String, v: u8)
    ensures
        final(out)@ == old(out)@ + dec_rep(v as nat),
{
    if v >= 100 {
        out.append(digit_str(v / 100));
        out.append(digit_str((v / 10) % 10));
        out.append(digit_str(v % 10));
        proof {
            lemma_dec_rep3(v as nat);
            assert(final(out)@ =~= old(out)@ + dec_rep(v as nat));
        }
    } else if v >= 10 {
        out.append(digit_str(v / 10));
        out.append(digit_str(v % 10));
        proof {
            lemma_dec_rep2(v as nat);
            assert(final(out)@ =~= old(out)@ + dec_rep(v as nat));
        }
    } else {
        out.append(digit_str(v));
        proof {
            assert(final(out)@ =~= old(out)@ + dec_rep(v as nat));
        }
    }
}

/// Append the whole foreground token for `c`.
fn push_fg_token(out: &mut String, c: DynColors)
    ensures
        final(out)@ == old(out)@ + fg_token(c),
{
    match c {
        DynColors::Ansi(a) => {
            out.append(fg_code_str(a));
        },
        DynColors::Rgb(r, g, b) => {
            out.append("38;2;");
            push_dec_u8(out, r);
            out.append(";");
            push_dec_u8(out, g);
            out.append(";");
            push_dec_u8(out, b);
            proof {
                assert(final(out)@ =~= old(out)@ + fg_token(c));
            }
        },
    }
}

/// Append the whole background token for `c`.
fn push_bg_token(out: &mut String, c: DynColors)
    ensures
        final(out)@ == old(out)@ + bg_token(c),
{
    match c {
        DynColors::Ansi(a) => {
            out.append(bg_code_str(a));
        },
        DynColors::Rgb(r, g, b) => {
            out.append("48;2;");
            push_dec_u8(out, r);
            out.append(";");
            push_dec_u8(out, g);
            out.append(";");
            push_dec_u8(out, b);
            proof {
                assert(final(out)@ =~= old(out)@ + bg_token(c));
            }
        },
    }
}

/// Emit the foreground token of `c`, behind a separating semicolon when a
/// token has already been written, and account for it in the token list.
fn emit_fg(out: &mut String, wrote: bool, c: DynColors, Ghost(ts): Ghost<Seq<Seq<char>>>) -> (r: (
    bool,
    Ghost<Seq<Seq<char>>>,
))
    requires
        old(out)@ == join_semi(ts),
        wrote == (ts.len() > 0),
    ensures
        r.1@ == ts.push(fg_token(c)),
        final(out)@ == join_semi(r.1@),
        r.0 == (r.1@.len() > 0),
{
    if wrote {
        out.append(";");
    }
    push_fg_token(out, c);
    proof {
        lemma_join_push(ts, fg_token(c));
        if !wrote {
            assert(Seq::<char>::empty() + fg_token(c) =~= fg_token(c));
        }
    }
    (true, Ghost(ts.push(fg_token(c))))
}

/// Emit the background token of `c`, behind a separating semicolon when a
/// token has already been written, and account for it in the token list.
fn emit_bg(out: &mut String, wrote: bool, c: DynColors, Ghost(ts): Ghost<Seq<Seq<char>>>) -> (r: (
    bool,
    Ghost<Seq<Seq<char>>>,
))
    requires
        old(out)@ == join_semi(ts),
        wrote == (ts.len() > 0),
    ensures
        r.1@ == ts.push(bg_token(c)),
        final(out)@ == join_semi(r.1@),
        r.0 == (r.1@.len() > 0),
{
    if wrote {
        out.append(";");
    }
    push_bg_token(out, c);
    proof {
        lemma_join_push(ts, bg_token(c));
        if !wrote {
            assert(Seq::<char>::empty() + bg_token(c) =~= bg_token(c));
        }
    }
    (true, Ghost(ts.push(bg_token(c))))
}

/// When `on`, emit the effect token `tok` behind a separating semicolon if a
/// token has already been written, and account for it in the token list; when
/// off, change nothing.
fn emit_effect(out: &mut String, wrote: bool, on: bool, tok: &str, Ghost(ts): Ghost<
    Seq<Seq<char>>,
>) -> (r: (bool, Ghost<Seq<Seq<char>>>))
    requires
        old(out)@ == join_semi(ts),
        wrote == (ts.len() > 0),
    ensures
        r.1@ == (if on {
            ts.push(tok@)
        } else {
            ts
        }),
        final(out)@ == join_semi(r.1@),
        r.0 == (r.1@.len() > 0),
{
    if on {
        if wrote {
            out.append(";");
        }
        out.append(tok);
        proof {
            lemma_join_push(ts, tok@);
            if !wrote {
                assert(Seq::<char>::empty() + tok@ =~= tok@);
            }
        }
        (true, Ghost(ts.push(tok@)))
    } else {
        (wrote, Ghost(ts))
    }
}

impl Style {
    /// The semicolon-joined SGR parameter list of this style, with no
    /// introducer and no terminator.
    fn sgr_params(&self) -> (r: String)
        ensures
            r@ == join_semi(sgr_tokens(*self)),
    {
        let mut out = String::new();
        let ghost mut toks: Seq<Seq<char>> = Seq::empty();
        let mut wrote = false;
        if let Some(c) = self.fg {
            let g = emit_fg(&mut out, wrote, c, Ghost(toks));
            wrote = g.0;
            proof {
                toks = g.1@;
            }
        }
        if let Some(c) = self.bg {
            let g = emit_bg(&mut out, wrote, c, Ghost(toks));
            wrote = g.0;
            proof {
                toks = g.1@;
            }
        }
        let g = emit_effect(&mut out, wrote, self.bold, "1", Ghost(toks));
        wrote = g.0;
        proof {
            toks = g.1@;
        }
        let g = emit_effect(&mut out, wrote, self.dimmed, "2", Ghost(toks));
        wrote = g.0;
        proof {
            toks = g.1@;
        }
        let g = emit_effect(&mut out, wrote, self.italic, "3", Ghost(toks));
        wrote = g.0;
        proof {
            toks = g.1@;
        }
        let g = emit_effect(&mut out, wrote, self.underline, "4", Ghost(toks));
        wrote = g.0;
        proof {
            toks = g.1@;
        }
        let g = emit_effect(&mut out, wrote, self.blink, "5", Ghost(toks));
        wrote = g.0;
        proof {
            toks = g.1@;
        }
        let g = emit_effect(&mut out, wrote, self.blink_fast, "6", Ghost(toks));
        wrote = g.0;
        proof {
            toks = g.1@;
        }
        let g = emit_effect(&mut out, wrote, self.reversed, "7", Ghost(toks));
        wrote = g.0;
        proof {
            toks = g.1@;
        }
        let g = emit_effect(&mut out, wrote, self.hidden, "8", Ghost(toks));
        wrote = g.0;
        proof {
            toks = g.1@;
        }
        let g = emit_effect(&mut out, wrote, self.strikethrough, "9", Ghost(toks));
        wrote = g.0;
        proof {
            toks = g.1@;
        }
        proof {
            assert(toks == sgr_tokens(*self));
        }
        out
    }

    /// Everything this style emits before the content: the empty string when
    /// no attribute is active, else `ESC [`, the semicolon-joined parameter
    /// tokens, and `m`.
    pub fn escape_prefix(&self) -> (r: String)
        ensures
            r@ == prefix_spec(*self),
    {
        let format_effect = self.bold || self.dimmed || self.italic || self.underline
            || self.blink || self.blink_fast || self.reversed || self.hidden
            || self.strikethrough;
        let format_color = self.fg.is_some() || self.bg.is_some();
        let format_any = format_color || format_effect;
        if !format_any {
            let r = String::new();
            proof {
                assert(r@ =~= prefix_spec(*self));
            }
            return r;
        }
        let mut out = String::from_str("\x1b[");
        let params = self.sgr_params();
        out.append(params.as_str());
        out.append("m");
        proof {
            assert(out@ =~= prefix_spec(*self));
        }
        out
    }

    /// Everything this style emits after the content: the full reset sequence
    /// when any attribute is active, and the empty string otherwise.
    pub fn escape_suffix(&self) -> (r: String)
        ensures
            r@ == suffix_spec(*self),
    {
        let format_effect = self.bold || self.dimmed || self.italic || self.underline
            || self.blink || self.blink_fast || self.reversed || self.hidden
            || self.strikethrough;
        let format_color = self.fg.is_some() || self.bg.is_some();
        let format_any = format_color || format_effect;
        if format_any {
            String::from_str("\x1b[0m")
        } else {
            let r = String::new();
            proof {
                assert(r@ =~= suffix_spec(*self));
            }
            r
        }
    }

    /// Render `target` under this style: the prefix, the content unchanged,
    /// the suffix — byte for byte the sequence [`rendered`] describes.
    pub fn render(&self, target: &str) -> (r: String)
        ensures
            r@ == rendered(*self, target@),
    {
        let mut out = self.escape_prefix();
        out.append(target);
        let suffix = self.escape_suffix();
        out.append(suffix.as_str());
        proof {
            assert(out@ =~= rendered(*self, target@));
        }
        out
    }
}

/// A value the renderer can wrap: anything with its own textual form. The
/// escape wrapping is representation-agnostic — it always defers to this form
/// and never inspects or alters it.
pub trait AsText {
    /// The value's own textual form.
    spec fn text(&self) -> Seq<char>;

    /// Produce the value's own textual form.
    fn to_text(&self) -> (r: String)
        ensures
            r@ == self.text(),
    ;
}

impl<'a> AsText for &'a str {
    open spec fn text(&self) -> Seq<char> {
        (*self)@
    }

    fn to_text(&self) -> String {
        String::from_str(*self)
    }
}

impl AsText for String {
    open spec fn text(&self) -> Seq<char> {
        self@
    }

    fn to_text(&self) -> String {
        self.clone()
    }
}

impl<'a> AsText for &'a String {
    open spec fn text(&self) -> Seq<char> {
        (*self)@
    }

    fn to_text(&self) -> String {
        (*self).clone()
    }
}

impl<T: AsText> Styled<T> {
    /// Render the wrapped value under the attached style: its own text,
    /// escape-wrapped exactly as [`rendered`] describes.
    pub fn render(&self) -> (r: String)
        ensures
            r@ == rendered(self.style, self.target.text()),
    {
        let content = self.target.to_text();
        self.style.render(content.as_str())
    }
}

/// Law: rendering under the default style is fully transparent — the output
/// is byte-identical to the content alone, with no escape bytes added.
pub proof fn lemma_default_transparent(content: Seq<char>)
    ensures
        rendered(Style::spec_default(), content) == content,
{
    assert(rendered(Style::spec_default(), content) =~= content);
}

/// Law: an unset color slot is distinct from the terminal-default color.
/// With the foreground slot cleared the parameters hold no foreground token
/// at all — on an otherwise empty style nothing is emitted — while the
/// explicit default color emits its own SGR code.
pub proof fn lemma_unset_vs_default(content: Seq<char>)
    ensures
        rendered(with_fg(Style::spec_default(), None), content) == content,
        rendered(
            with_fg(Style::spec_default(), Some(DynColors::Ansi(AnsiColors::Default))),
            content,
        ) == "\x1b[39m"@ + content + "\x1b[0m"@,
        sgr_tokens(with_fg(Style::spec_default(), None)).len() == 0,
        sgr_tokens(
            with_fg(Style::spec_default(), Some(DynColors::Ansi(AnsiColors::Default))),
        ) =~= seq!["39"@],
{
    let unset = with_fg(Style::spec_default(), None);
    let explicit = with_fg(
        Style::spec_default(),
        Some(DynColors::Ansi(AnsiColors::Default)),
    );
    assert(rendered(unset, content) =~= content);
    assert(sgr_tokens(explicit) =~= seq!["39"@]);
    assert(join_semi(sgr_tokens(explicit)) == "39"@);
    reveal_strlit("\x1b[");
    reveal_strlit("39");
    reveal_strlit("m");
    reveal_strlit("\x1b[39m");
    assert(prefix_spec(explicit) =~= "\x1b[39m"@);
    assert(rendered(explicit, content) =~= "\x1b[39m"@ + content + "\x1b[0m"@);
}

/// Law: whenever any attribute is active, and only then, the output is more
/// than the content and ends with the full reset sequence; when none is, the
/// output is the content itself, so it holds no escape byte the content did
/// not already hold.
pub proof fn lemma_reset_guarantee(s: Style, content: Seq<char>)
    ensures
        format_any(s) ==> rendered(s, content).skip(
            rendered(s, content).len() - 4,
        ) == "\x1b[0m"@,
        format_any(s) <==> rendered(s, content).len() > content.len(),
        !format_any(s) ==> rendered(s, content) == content,
        !format_any(s) && !content.contains('\x1b') ==> !rendered(s, content).contains('\x1b'),
{
    if format_any(s) {
        reveal_strlit("\x1b[0m");
        assert(suffix_spec(s).len() == 4);
        assert(rendered(s, content).skip(rendered(s, content).len() - 4) =~= "\x1b[0m"@);
        assert(rendered(s, content).len() >= content.len() + 4);
    } else {
        assert(rendered(s, content) =~= content);
    }
}

} // verus!
