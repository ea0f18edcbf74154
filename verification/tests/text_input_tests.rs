use kakisute::text_input::TextInput;

#[test]
fn test_text_input() {
    let mut text_input = TextInput::new();
    assert_eq!(text_input.get(), "");
    text_input.push('a');
    assert_eq!(text_input.get(), "a");
    text_input.push('b');
    assert_eq!(text_input.get(), "ab");
    text_input.pop();
    assert_eq!(text_input.get(), "a");
    text_input.clear();
    assert_eq!(text_input.get(), "");
}

#[test]
fn pop_returns_the_last_character() {
    let mut text_input = TextInput::new();
    text_input.push('x');
    text_input.push('\u{3042}');
    assert_eq!(text_input.pop(), Some('\u{3042}'));
    assert_eq!(text_input.pop(), Some('x'));
    assert_eq!(text_input.pop(), None);
    assert_eq!(text_input.get(), "");
}

#[test]
fn control_characters_are_kept() {
    let mut text_input = TextInput::new();
    text_input.push('\n');
    text_input.push('\u{0}');
    text_input.push('\t');
    assert_eq!(text_input.get(), "\n\u{0}\t");
}

#[test]
fn clear_on_empty_keeps_it_empty() {
    let mut text_input = TextInput::new();
    text_input.clear();
    assert_eq!(text_input.get(), "");
}
