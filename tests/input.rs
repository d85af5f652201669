use podplayer::input::{input_layout, text_input_layout};

#[test]
fn short_text_does_not_scroll() {
    assert_eq!(input_layout(3, 20), (0, 4));
    assert_eq!(input_layout(0, 20), (0, 1));
}

#[test]
fn long_text_scrolls_and_cursor_stays_inside() {
    assert_eq!(input_layout(30, 20), (12, 18));
    assert_eq!(input_layout(18, 20), (0, 18));
    assert_eq!(input_layout(17, 20), (0, 18));
    assert_eq!(input_layout(5, 1), (5, 0));
    assert_eq!(input_layout(100_000, 2), (65535, 0));
}

#[test]
fn wide_characters_take_two_columns() {
    assert_eq!(text_input_layout("abc", 20), (0, 4));
    assert_eq!(text_input_layout("日本", 20), (0, 5));
    assert_eq!(text_input_layout("", 20), (0, 1));
}
