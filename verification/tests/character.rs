use native_keyboard::character::{translated_character, translation_call};
use native_keyboard::win32::{VK_CONTROL, VK_MENU, VK_SHIFT};

#[test]
fn call_carries_key_and_snapshot() {
    for shift in [false, true] {
        for ctrl in [false, true] {
            for alt in [false, true] {
                let call = translation_call(0x41, 0x1E, shift, ctrl, alt);
                if ctrl && !alt {
                    assert!(call.is_none());
                    continue;
                }
                let call = call.unwrap();
                assert_eq!(call.vk, 0x41);
                assert_eq!(call.scancode, 0x1E);
                assert_eq!(call.flags, 0);
                let mut expected = [0u8; 256];
                if shift {
                    expected[VK_SHIFT as usize] = 0x80;
                }
                if ctrl {
                    expected[VK_CONTROL as usize] = 0x80;
                }
                if alt {
                    expected[VK_MENU as usize] = 0x80;
                }
                assert_eq!(call.state, expected);
            }
        }
    }
}

#[test]
fn no_translation_and_dead_keys_give_no_character() {
    let units = [0x5Eu16, 0x61, 0, 0, 0, 0, 0, 0];
    assert_eq!(translated_character(0, &units), None);
    assert_eq!(translated_character(-1, &units), None);
    assert_eq!(translated_character(i32::MIN, &units), None);
}

#[test]
fn only_the_counted_units_are_text() {
    let units = [0x61u16, 0x62, 0x63, 0x64, 0x65, 0x66, 0x67, 0x68];
    assert_eq!(translated_character(1, &units), Some("a".to_string()));
    assert_eq!(translated_character(2, &units), Some("ab".to_string()));
    assert_eq!(translated_character(8, &units), Some("abcdefgh".to_string()));
}

#[test]
fn keys_without_printable_representation_have_no_character() {
    // NUL, Backspace, Tab, Enter, Esc, Ctrl+Backspace, and the last of the
    // upper control characters.
    for unit in [0x00u16, 0x08, 0x09, 0x0D, 0x1B, 0x1F, 0x7F, 0x80, 0x9F] {
        assert_eq!(translated_character(1, &[unit, 0x61, 0, 0, 0, 0, 0, 0]), None);
    }
}

#[test]
fn one_control_character_spoils_the_text() {
    let units = [0x61u16, 0x1B, 0x62, 0, 0, 0, 0, 0];
    assert_eq!(translated_character(1, &units), Some("a".to_string()));
    assert_eq!(translated_character(2, &units), None);
    assert_eq!(translated_character(3, &units), None);
    let last = [0x61u16, 0x62, 0x63, 0x64, 0x65, 0x66, 0x67, 0x7F];
    assert_eq!(translated_character(7, &last), Some("abcdefg".to_string()));
    assert_eq!(translated_character(8, &last), None);
}

#[test]
fn neighbours_of_control_characters_are_text() {
    for unit in [0x20u16, 0x7E, 0xA0] {
        let expected = char::from_u32(unit as u32).unwrap().to_string();
        assert_eq!(translated_character(1, &[unit, 0, 0, 0, 0, 0, 0, 0]), Some(expected));
    }
}

#[test]
fn surrogate_pairs_become_one_character() {
    let units = [0xD834u16, 0xDD1E, 0x6D, 0, 0, 0, 0, 0];
    assert_eq!(translated_character(2, &units), Some("\u{1D11E}".to_string()));
    assert_eq!(translated_character(3, &units), Some("\u{1D11E}m".to_string()));
    let extremes = [0xD800u16, 0xDC00, 0xDBFF, 0xDFFF, 0xD7FF, 0xE000, 0xFFFF, 0];
    assert_eq!(
        translated_character(7, &extremes),
        Some("\u{10000}\u{10FFFF}\u{D7FF}\u{E000}\u{FFFF}".to_string())
    );
}

#[test]
fn every_unpaired_surrogate_is_replaced() {
    let units = [0xD834u16, 0xD834, 0xDD1E, 0xDD1E, 0x6D, 0xDFFF, 0xDC00, 0xD800];
    assert_eq!(
        translated_character(8, &units),
        Some("\u{FFFD}\u{1D11E}\u{FFFD}m\u{FFFD}\u{FFFD}\u{FFFD}".to_string())
    );
    // A pair cut in half by the count.
    assert_eq!(translated_character(1, &units), Some("\u{FFFD}".to_string()));
    // A first half whose partner is no surrogate.
    let broken = [0xD834u16, 0x6D, 0, 0, 0, 0, 0, 0];
    assert_eq!(translated_character(2, &broken), Some("\u{FFFD}m".to_string()));
}

#[test]
fn any_single_unit_gives_its_printable_text_or_none() {
    for unit in 0..=0xFFFFu32 {
        let units = [unit as u16, 0, 0, 0, 0, 0, 0, 0];
        let text = translated_character(1, &units);
        let c = char::from_u32(unit).unwrap_or('\u{FFFD}');
        let expected = if c.is_control() { None } else { Some(c.to_string()) };
        assert_eq!(text, expected);
    }
}
