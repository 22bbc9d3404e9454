use xege::Key;

#[test]
fn letter_keys_match_both_cases() {
    assert!(Key::A == 'a');
    assert!(Key::A == 'A');
    assert!(Key::Z == 'z');
    assert!(Key::Z == 'Z');
    assert!(!(Key::A == 'b'));
}

#[test]
fn digit_keys_match_digit_and_shifted_symbol() {
    assert!(Key::Num1 == '1');
    assert!(Key::Num1 == '!');
    assert!(Key::Num0 == '0');
    assert!(Key::Num0 == ')');
    assert!(Key::Num2 == '@');
    assert!(Key::Num8 == '*');
    assert!(!(Key::Num1 == '2'));
}

#[test]
fn numpad_digits_match_digit_only() {
    assert!(Key::NumPad1 == '1');
    assert!(!(Key::NumPad1 == '!'));
}

#[test]
fn enter_matches_both_line_endings() {
    assert!(Key::Enter == '\n');
    assert!(Key::Enter == '\r');
}

#[test]
fn symbol_keys_match_plain_and_shifted() {
    assert!(Key::Comma == ',');
    assert!(Key::Comma == '<');
    assert!(Key::Quote == '\'');
    assert!(Key::Quote == '"');
    assert!(Key::Backslash == '\\');
    assert!(Key::Backslash == '|');
    assert!(Key::Backtick == '`');
    assert!(Key::Backtick == '~');
}

#[test]
fn control_characters() {
    assert!(Key::Space == ' ');
    assert!(Key::Tab == '\t');
    assert!(Key::Backspace == '\u{8}');
}

#[test]
fn matches_char_agrees_with_eq() {
    assert!(Key::E.matches_char('e'));
    assert!(!Key::E.matches_char('f'));
}

#[test]
fn vk_codes_roundtrip_for_named_keys() {
    let keys = [
        Key::A,
        Key::Z,
        Key::Num0,
        Key::Num9,
        Key::NumPad0,
        Key::NumPad9,
        Key::F1,
        Key::F12,
        Key::Shift,
        Key::Ctrl,
        Key::Alt,
        Key::Semicolon,
        Key::Slash,
        Key::Backtick,
        Key::LeftBracket,
        Key::Backslash,
        Key::RightBracket,
        Key::Equals,
        Key::Comma,
        Key::Minus,
        Key::Dot,
        Key::NumAdd,
        Key::NumSub,
        Key::NumMul,
        Key::NumDiv,
        Key::NumDot,
        Key::Backspace,
        Key::Tab,
        Key::Enter,
        Key::Space,
        Key::Esc,
        Key::CapsLock,
        Key::LeftCtrl,
        Key::LeftShift,
        Key::LeftAlt,
        Key::RightCtrl,
        Key::RightShift,
        Key::RightAlt,
        Key::ScrollLock,
        Key::NumLock,
        Key::Delete,
        Key::Insert,
        Key::Home,
        Key::End,
        Key::PageUp,
        Key::PageDown,
        Key::Clear,
        Key::LeftButton,
        Key::RightButton,
        Key::MiddleButton,
        Key::X1Button,
        Key::X2Button,
        Key::Left,
        Key::Right,
        Key::Up,
        Key::Down,
    ];
    for k in keys {
        assert_eq!(Key::from_code(k.code()), k);
    }
}

#[test]
fn specific_vk_codes() {
    assert_eq!(Key::A.code(), 0x41);
    assert_eq!(Key::Num0.code(), 0x30);
    assert_eq!(Key::F1.code(), 112);
    assert_eq!(Key::Enter.code(), 13);
    assert_eq!(Key::from_code(0x41), Key::A);
    assert_eq!(Key::from_code(13), Key::Enter);
}

#[test]
fn unknown_codes_are_kept_verbatim() {
    assert_eq!(Key::from_code(0xFE), Key::Other(0xFE));
    assert_eq!(Key::Other(0xFE).code(), 0xFE);
}

#[test]
fn quote_key_shares_code_with_semicolon() {
    assert_eq!(Key::Quote.code(), Key::Semicolon.code());
    assert_eq!(Key::from_code(Key::Quote.code()), Key::Semicolon);
}
