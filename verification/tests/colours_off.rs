use json_color::paint::colorize_str;
use json_color::{Color, Colorizer};

fn off() {
    colored::control::set_override(false);
}

#[test]
fn without_colouring_the_text_comes_back_as_it_went_in() {
    off();
    for color in [
        Color::Black,
        Color::Blue,
        Color::Cyan,
        Color::Green,
        Color::Magenta,
        Color::Purple,
        Color::Red,
        Color::White,
        Color::Yellow,
        Color::Plain,
    ] {
        assert_eq!(colorize_str("text", &color), "text");
    }
}

#[test]
fn without_colouring_the_preset_gives_the_plain_text() {
    off();
    let out = Colorizer::arbitrary().colorize_json_str("{\"a\":[1,2]}").unwrap();
    assert_eq!(out, "{\n  \"a\": [\n    1,\n    2\n  ]\n}");
}
