use owo_colors::color::{Black, CustomColor, Red};
use owo_colors::{style, AnsiColors, DynColors, Effect, Style};

#[test]
fn default_style_is_transparent() {
    let s = Style::new().style("TEST").render();
    assert_eq!(&s, "TEST");
    let d = Style::default().style("plain text").render();
    assert_eq!(&d, "plain text");
}

#[test]
fn style_helper_matches_new() {
    let a = style().red().style("x").render();
    let b = Style::new().red().style("x").render();
    assert_eq!(a, b);
    assert_eq!(&a, "\u{1b}[31mx\u{1b}[0m");
}

#[test]
fn overwrite_keeps_second_color() {
    let s = Style::new().red().green().style("TEST").render();
    assert_eq!(&s, "\u{1b}[32mTEST\u{1b}[0m");
    let t = Style::new().green().red().style("TEST").render();
    assert_eq!(&t, "\u{1b}[31mTEST\u{1b}[0m");
}

#[test]
fn slots_are_independent() {
    let a = Style::new().red().on_blue().style("TEST").render();
    let b = Style::new().on_blue().red().style("TEST").render();
    assert_eq!(a, b);
    assert_eq!(&a, "\u{1b}[31;44mTEST\u{1b}[0m");
}

#[test]
fn removed_slot_emits_nothing() {
    let s = Style::new().red().remove_fg().style("TEST").render();
    assert_eq!(&s, "TEST");
    let t = Style::new().on_blue().remove_bg().style("TEST").render();
    assert_eq!(&t, "TEST");
    let u = Style::new().red().on_blue().remove_fg().style("TEST").render();
    assert_eq!(&u, "\u{1b}[44mTEST\u{1b}[0m");
}

#[test]
fn default_color_emits_reset_code() {
    let s = Style::new().default_color().style("TEST").render();
    assert_eq!(&s, "\u{1b}[39mTEST\u{1b}[0m");
    let t = Style::new().on_default_color().style("TEST").render();
    assert_eq!(&t, "\u{1b}[49mTEST\u{1b}[0m");
}

#[test]
fn effects_accumulate_and_clear() {
    let st = Style::new().bold().effects(&[Effect::Italic, Effect::Hidden]);
    let s = st.style("TEST").render();
    assert_eq!(&s, "\u{1b}[1;3;8mTEST\u{1b}[0m");
    let cleared = st.remove_all_effects().style("TEST").render();
    assert_eq!(&cleared, "TEST");
}

#[test]
fn remove_effects_leaves_others() {
    let st = Style::new().bold().dimmed().underline();
    let s = st.remove_effect(Effect::Dimmed).style("TEST").render();
    assert_eq!(&s, "\u{1b}[1;4mTEST\u{1b}[0m");
    let t = st
        .remove_effects(&[Effect::Bold, Effect::Underline])
        .style("TEST")
        .render();
    assert_eq!(&t, "\u{1b}[2mTEST\u{1b}[0m");
}

#[test]
fn effect_codes_follow_canonical_order() {
    let st = Style::new().effects(&[
        Effect::Strikethrough,
        Effect::Reversed,
        Effect::BlinkFast,
        Effect::Bold,
    ]);
    let s = st.style("TEST").render();
    assert_eq!(&s, "\u{1b}[1;6;7;9mTEST\u{1b}[0m");
}

#[test]
fn background_token_separates_from_effects() {
    let s = Style::new().on_blue().bold().style("TEST").render();
    assert_eq!(&s, "\u{1b}[44;1mTEST\u{1b}[0m");
}

#[test]
fn reset_suffix_exactly_when_styled() {
    let styled = Style::new().bold().style("TEST").render();
    assert!(styled.ends_with("\u{1b}[0m"));
    let colored = Style::new().on_bright_green().style("TEST").render();
    assert!(colored.ends_with("\u{1b}[0m"));
    let plain = Style::new().style("TEST").render();
    assert!(!plain.contains('\u{1b}'));
}

#[test]
fn named_color_codes() {
    assert_eq!(&Style::new().black().style("x").render(), "\u{1b}[30mx\u{1b}[0m");
    assert_eq!(&Style::new().magenta().style("x").render(), "\u{1b}[35mx\u{1b}[0m");
    assert_eq!(&Style::new().purple().style("x").render(), "\u{1b}[35mx\u{1b}[0m");
    assert_eq!(&Style::new().on_purple().style("x").render(), "\u{1b}[45mx\u{1b}[0m");
    assert_eq!(&Style::new().bright_purple().style("x").render(), "\u{1b}[95mx\u{1b}[0m");
    assert_eq!(
        &Style::new().on_bright_purple().style("x").render(),
        "\u{1b}[105mx\u{1b}[0m"
    );
    assert_eq!(&Style::new().on_white().style("x").render(), "\u{1b}[47mx\u{1b}[0m");
    assert_eq!(&Style::new().bright_cyan().style("x").render(), "\u{1b}[96mx\u{1b}[0m");
    assert_eq!(
        &Style::new().on_bright_black().style("x").render(),
        "\u{1b}[100mx\u{1b}[0m"
    );
}

#[test]
fn truecolor_decimal_digits() {
    let s = Style::new().truecolor(0, 7, 42).style("x").render();
    assert_eq!(&s, "\u{1b}[38;2;0;7;42mx\u{1b}[0m");
    let t = Style::new().on_truecolor(100, 9, 255).style("x").render();
    assert_eq!(&t, "\u{1b}[48;2;100;9;255mx\u{1b}[0m");
}

#[test]
fn compile_time_color_markers() {
    let s = Style::new().fg::<Red>().bg::<Black>().style("x").render();
    assert_eq!(&s, "\u{1b}[31;40mx\u{1b}[0m");
    let t = Style::new().fg::<CustomColor<1, 2, 3>>().style("x").render();
    assert_eq!(&t, "\u{1b}[38;2;1;2;3mx\u{1b}[0m");
    let u = Style::new()
        .fg_rgb::<10, 20, 30>()
        .bg_rgb::<4, 5, 6>()
        .style("x")
        .render();
    assert_eq!(&u, "\u{1b}[38;2;10;20;30;48;2;4;5;6mx\u{1b}[0m");
}

#[test]
fn runtime_dyncolors_value() {
    let s = Style::new()
        .color(DynColors::Rgb(8, 80, 200))
        .on_color(AnsiColors::BrightYellow)
        .style("x")
        .render();
    assert_eq!(&s, "\u{1b}[38;2;8;80;200;103mx\u{1b}[0m");
}

#[test]
fn owned_string_target() {
    let text = String::from("TEST");
    let s = Style::new().cyan().style(text).render();
    assert_eq!(&s, "\u{1b}[36mTEST\u{1b}[0m");
}

#[test]
fn prefix_and_suffix_pieces() {
    let st = Style::new().yellow().reversed();
    assert_eq!(&st.escape_prefix(), "\u{1b}[33;7m");
    assert_eq!(&st.escape_suffix(), "\u{1b}[0m");
    let plain = Style::new();
    assert_eq!(&plain.escape_prefix(), "");
    assert_eq!(&plain.escape_suffix(), "");
    let full = st.render("TEST");
    assert_eq!(full, format!("{}TEST{}", st.escape_prefix(), st.escape_suffix()));
}
