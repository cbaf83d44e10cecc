use owo_colors::{AnsiColors, Effect, OwoColorize, Style};

#[test]
fn test_it() {
    let style = Style::new()
        .bright_white()
        .on_blue()
        .bold()
        .dimmed()
        .italic()
        .underline()
        .blink()
        .strikethrough();
    let s = style.style("TEST");
    let s2 = s.render();
    println!("{}", &s2);
    assert_eq!(&s2, "\u{1b}[97;44;1;2;3;4;5;9mTEST\u{1b}[0m");
}

#[test]
fn test_effects() {
    let style = Style::new().effects(&[Effect::Strikethrough, Effect::Underline]);

    let s = style.style("TEST");
    let s2 = s.render();
    println!("{}", &s2);
    assert_eq!(&s2, "\u{1b}[4;9mTEST\u{1b}[0m");
}

#[test]
fn test_color() {
    let style = Style::new()
        .color(AnsiColors::White)
        .on_color(AnsiColors::Black);

    let s = style.style("TEST");
    let s2 = s.render();
    println!("{}", &s2);
    assert_eq!(&s2, "\u{1b}[37;40mTEST\u{1b}[0m");
}

#[test]
fn test_truecolor() {
    let style = Style::new().truecolor(255, 255, 255).on_truecolor(0, 0, 0);

    let s = style.style("TEST");
    let s2 = s.render();
    println!("{}", &s2);
    assert_eq!(&s2, "\u{1b}[38;2;255;255;255;48;2;0;0;0mTEST\u{1b}[0m");
}

#[test]
fn test_string_reference() {
    let style = Style::new().truecolor(255, 255, 255).on_truecolor(0, 0, 0);

    let string = String::from("TEST");
    let s = style.style(&string);
    let s2 = s.render();
    println!("{}", &s2);
    assert_eq!(&s2, "\u{1b}[38;2;255;255;255;48;2;0;0;0mTEST\u{1b}[0m");
}

#[test]
fn test_owocolorize() {
    let style = Style::new().bright_white().on_blue();

    let s = "TEST".style(style);
    let s2 = s.render();
    println!("{}", &s2);
    assert_eq!(&s2, "\u{1b}[97;44mTEST\u{1b}[0m");
}
