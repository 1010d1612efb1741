use json_color::{Color, Colorizer, ColorizerBuilder};

fn all_plain(policy: &Colorizer) -> bool {
    policy.null == Color::Plain
        && policy.boolean == Color::Plain
        && policy.number == Color::Plain
        && policy.string == Color::Plain
        && policy.key == Color::Plain
}

#[test]
fn nothing_set_means_all_plain() {
    assert!(all_plain(&Colorizer::new().build()));
    assert!(all_plain(&Colorizer::default()));
    assert!(all_plain(&ColorizerBuilder::default().build()));
    assert_eq!(Color::default(), Color::Plain);
}

#[test]
fn each_setter_sets_its_own_category_only() {
    let policy = Colorizer::new().null(Color::Red).build();
    assert_eq!(policy, Colorizer { null: Color::Red, ..Colorizer::default() });
    let policy = Colorizer::new().boolean(Color::Blue).build();
    assert_eq!(policy, Colorizer { boolean: Color::Blue, ..Colorizer::default() });
    let policy = Colorizer::new().number(Color::White).build();
    assert_eq!(policy, Colorizer { number: Color::White, ..Colorizer::default() });
    let policy = Colorizer::new().string(Color::Black).build();
    assert_eq!(policy, Colorizer { string: Color::Black, ..Colorizer::default() });
    let policy = Colorizer::new().key(Color::Purple).build();
    assert_eq!(policy, Colorizer { key: Color::Purple, ..Colorizer::default() });
}

#[test]
fn setters_chain() {
    let policy = Colorizer::new()
        .null(Color::Black)
        .boolean(Color::Blue)
        .number(Color::Cyan)
        .string(Color::Green)
        .key(Color::Magenta)
        .build();
    assert_eq!(
        policy,
        Colorizer {
            null: Color::Black,
            boolean: Color::Blue,
            number: Color::Cyan,
            string: Color::Green,
            key: Color::Magenta,
        }
    );
}

#[test]
fn the_last_colour_set_counts() {
    let policy = Colorizer::new().key(Color::Red).key(Color::Yellow).key(Color::Plain).build();
    assert_eq!(policy.key, Color::Plain);
    let policy = Colorizer::new().null(Color::Red).null(Color::White).build();
    assert_eq!(policy.null, Color::White);
}

#[test]
fn a_builder_can_build_more_than_once() {
    let mut builder = Colorizer::new();
    builder.number(Color::Green);
    let first = builder.build();
    builder.string(Color::Red);
    let second = builder.build();
    assert_eq!(first, Colorizer { number: Color::Green, ..Colorizer::default() });
    assert_eq!(
        second,
        Colorizer { number: Color::Green, string: Color::Red, ..Colorizer::default() }
    );
}

#[test]
fn the_preset_is_cyan_yellow_magenta_green_blue() {
    assert_eq!(
        Colorizer::arbitrary(),
        Colorizer {
            null: Color::Cyan,
            boolean: Color::Yellow,
            number: Color::Magenta,
            string: Color::Green,
            key: Color::Blue,
        }
    );
}
