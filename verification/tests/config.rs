use nuon::config::{
    default_color_schema, default_horizontal_guidelines, default_output, default_piano_range,
    default_vertical_guidelines, ColorSchema,
};

#[test]
fn piano_range_default() {
    assert_eq!(default_piano_range(), (48, 71));
}

#[test]
fn guidelines_are_off_by_default() {
    assert!(!default_vertical_guidelines());
    assert!(!default_horizontal_guidelines());
}

#[test]
fn output_default() {
    assert_eq!(default_output(), Some(String::from("Buildin Synth")));
}

#[test]
fn palette_default() {
    let palette = default_color_schema();
    let expected = vec![
        ColorSchema { base: (210, 89, 222), dark: (125, 69, 134) },
        ColorSchema { base: (93, 188, 255), dark: (48, 124, 255) },
        ColorSchema { base: (255, 126, 51), dark: (192, 73, 0) },
        ColorSchema { base: (51, 255, 102), dark: (0, 168, 2) },
        ColorSchema { base: (255, 51, 129), dark: (48, 124, 255) },
        ColorSchema { base: (210, 89, 222), dark: (125, 69, 134) },
    ];
    assert_eq!(palette, expected);
}

#[test]
fn color_schema_default_and_clone() {
    let black = ColorSchema::default();
    assert_eq!(black.base, (0, 0, 0));
    assert_eq!(black.dark, (0, 0, 0));
    let entry = ColorSchema { base: (1, 2, 3), dark: (4, 5, 6) };
    assert_eq!(entry.clone(), entry);
}
