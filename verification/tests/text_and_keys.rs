use ruffle4consoles::keys::{gamepad_button, key_display_name, keyboard_key, GAMEPAD_BUTTON_COUNT, KEYBOARD_KEY_COUNT};
use ruffle4consoles::text::{decimal_string, push_decimal, text_less};

#[test]
fn decimal_of_zero_and_large_numbers() {
    assert_eq!(decimal_string(0), "0");
    assert_eq!(decimal_string(7), "7");
    assert_eq!(decimal_string(10), "10");
    assert_eq!(decimal_string(1234567890), "1234567890");
    assert_eq!(decimal_string(u64::MAX), "18446744073709551615");
}

#[test]
fn push_decimal_appends() {
    let mut s = String::from("#");
    push_decimal(&mut s, 305);
    assert_eq!(s, "#305");
}

#[test]
fn text_order_is_the_string_order() {
    let words = ["", "a", "ab", "b", "B", "Zelda", "zelda", "abc", "ab c", "\u{e9}t\u{e9}", "ete"];
    for a in words.iter() {
        for b in words.iter() {
            let sa = a.to_string();
            let sb = b.to_string();
            assert_eq!(text_less(&sa, &sb), sa < sb, "{:?} < {:?}", a, b);
        }
    }
}

#[test]
fn key_names_of_known_codes() {
    assert_eq!(key_display_name(0), "Not Set");
    assert_eq!(key_display_name(65), "A");
    assert_eq!(key_display_name(90), "Z");
    assert_eq!(key_display_name(48), "0");
    assert_eq!(key_display_name(112), "F1");
    assert_eq!(key_display_name(38), "Up Arrow");
    assert_eq!(key_display_name(220), "\\");
    assert_eq!(key_display_name(222), "'");
    assert_eq!(key_display_name(19), "Pause");
}

#[test]
fn key_names_of_unknown_codes() {
    assert_eq!(key_display_name(1), "#1");
    assert_eq!(key_display_name(999), "#999");
    assert_eq!(key_display_name(u32::MAX), "#4294967295");
}

#[test]
fn every_picked_key_displays_its_name() {
    assert_eq!(KEYBOARD_KEY_COUNT, 96);
    for i in 0..KEYBOARD_KEY_COUNT {
        let (name, code) = keyboard_key(i);
        assert_eq!(key_display_name(code), name);
    }
}

#[test]
fn gamepad_button_table() {
    assert_eq!(GAMEPAD_BUTTON_COUNT, 12);
    assert_eq!(gamepad_button(0), ("Cross", "south"));
    assert_eq!(gamepad_button(3), ("Triangle", "north"));
    assert_eq!(gamepad_button(4), ("L", "left-trigger"));
    assert_eq!(gamepad_button(11), ("DPad Right", "dpad-right"));
}

#[test]
fn keyboard_key_table_ends() {
    assert_eq!(keyboard_key(0), ("A", 65));
    assert_eq!(keyboard_key(25), ("Z", 90));
    assert_eq!(keyboard_key(26), ("0", 48));
    assert_eq!(keyboard_key(95), ("Pause", 19));
}
