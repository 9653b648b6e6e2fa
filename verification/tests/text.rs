use cratouille::text::{blank, white_space};

#[test]
fn white_space_agrees_with_std_on_every_char() {
    let mut code: u32 = 0;
    while code <= 0x10FFFF {
        if let Some(c) = char::from_u32(code) {
            assert_eq!(white_space(c), c.is_whitespace(), "code point {:#x}", code);
        }
        code += 1;
    }
}

#[test]
fn white_space_on_named_characters() {
    assert!(white_space(' '));
    assert!(white_space('\t'));
    assert!(white_space('\n'));
    assert!(white_space('\r'));
    assert!(white_space('\u{00A0}'));
    assert!(white_space('\u{3000}'));
    assert!(!white_space('a'));
    assert!(!white_space('0'));
    assert!(!white_space('\u{200B}'));
    assert!(!white_space('\u{0008}'));
    assert!(!white_space('\u{000E}'));
}

#[test]
fn blank_is_what_trims_to_nothing() {
    for text in ["", " ", "   ", "\t\n", " \u{2003}\r\n", "a", " a ", "  .", "\u{200B}", "Buy milk"] {
        assert_eq!(blank(text), text.trim().is_empty(), "text {:?}", text);
    }
}

#[test]
fn blank_accepts_the_empty_text() {
    assert!(blank(""));
}

#[test]
fn blank_rejects_text_with_one_visible_character() {
    assert!(!blank("      x"));
    assert!(!blank("x      "));
    assert!(!blank("   x   "));
}
