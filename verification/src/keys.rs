//! The key tables of the configuration menu: the gamepad buttons that can be
//! bound, and the keyboard keys a button can be bound to.
use vstd::prelude::*;
use crate::text::{decimal, push_decimal};

verus! {

/// How many keyboard keys the key picker offers.
pub const KEYBOARD_KEY_COUNT: usize = 96;

/// How many gamepad buttons can be bound.
pub const GAMEPAD_BUTTON_COUNT: usize = 12;

/// The name shown for keyboard key `i` of the picker.
pub open spec fn keyboard_key_name(i: int) -> Seq<char> {
    if i == 0 {
        "A"@
    } else if i == 1 {
        "B"@
    } else if i == 2 {
        "C"@
    } else if i == 3 {
        "D"@
    } else if i == 4 {
        "E"@
    } else if i == 5 {
        "F"@
    } else if i == 6 {
        "G"@
    } else if i == 7 {
        "H"@
    } else if i == 8 {
        "I"@
    } else if i == 9 {
        "J"@
    } else if i == 10 {
        "K"@
    } else if i == 11 {
        "L"@
    } else if i == 12 {
        "M"@
    } else if i == 13 {
        "N"@
    } else if i == 14 {
        "O"@
    } else if i == 15 {
        "P"@
    } else if i == 16 {
        "Q"@
    } else if i == 17 {
        "R"@
    } else if i == 18 {
        "S"@
    } else if i == 19 {
        "T"@
    } else if i == 20 {
        "U"@
    } else if i == 21 {
        "V"@
    } else if i == 22 {
        "W"@
    } else if i == 23 {
        "X"@
    } else if i == 24 {
        "Y"@
    } else if i == 25 {
        "Z"@
    } else if i == 26 {
        "0"@
    } else if i == 27 {
        "1"@
    } else if i == 28 {
        "2"@
    } else if i == 29 {
        "3"@
    } else if i == 30 {
        "4"@
    } else if i == 31 {
        "5"@
    } else if i == 32 {
        "6"@
    } else if i == 33 {
        "7"@
    } else if i == 34 {
        "8"@
    } else if i == 35 {
        "9"@
    } else if i == 36 {
        "F1"@
    } else if i == 37 {
        "F2"@
    } else if i == 38 {
        "F3"@
    } else if i == 39 {
        "F4"@
    } else if i == 40 {
        "F5"@
    } else if i == 41 {
        "F6"@
    } else if i == 42 {
        "F7"@
    } else if i == 43 {
        "F8"@
    } else if i == 44 {
        "F9"@
    } else if i == 45 {
        "F10"@
    } else if i == 46 {
        "F11"@
    } else if i == 47 {
        "F12"@
    } else if i == 48 {
        "Up Arrow"@
    } else if i == 49 {
        "Down Arrow"@
    } else if i == 50 {
        "Left Arrow"@
    } else if i == 51 {
        "Right Arrow"@
    } else if i == 52 {
        "Shift"@
    } else if i == 53 {
        "Control"@
    } else if i == 54 {
        "Alt"@
    } else if i == 55 {
        "Enter"@
    } else if i == 56 {
        "Escape"@
    } else if i == 57 {
        "Tab"@
    } else if i == 58 {
        "Space"@
    } else if i == 59 {
        "Backspace"@
    } else if i == 60 {
        "Comma"@
    } else if i == 61 {
        "Period"@
    } else if i == 62 {
        "Slash"@
    } else if i == 63 {
        "Semicolon"@
    } else if i == 64 {
        "Minus"@
    } else if i == 65 {
        "Equals"@
    } else if i == 66 {
        "Backtick"@
    } else if i == 67 {
        "["@
    } else if i == 68 {
        "]"@
    } else if i == 69 {
        "\\"@
    } else if i == 70 {
        "'"@
    } else if i == 71 {
        "Numpad 0"@
    } else if i == 72 {
        "Numpad 1"@
    } else if i == 73 {
        "Numpad 2"@
    } else if i == 74 {
        "Numpad 3"@
    } else if i == 75 {
        "Numpad 4"@
    } else if i == 76 {
        "Numpad 5"@
    } else if i == 77 {
        "Numpad 6"@
    } else if i == 78 {
        "Numpad 7"@
    } else if i == 79 {
        "Numpad 8"@
    } else if i == 80 {
        "Numpad 9"@
    } else if i == 81 {
        "Num *"@
    } else if i == 82 {
        "Num +"@
    } else if i == 83 {
        "Num -"@
    } else if i == 84 {
        "Num ."@
    } else if i == 85 {
        "Num /"@
    } else if i == 86 {
        "Page Up"@
    } else if i == 87 {
        "Page Down"@
    } else if i == 88 {
        "Home"@
    } else if i == 89 {
        "End"@
    } else if i == 90 {
        "Insert"@
    } else if i == 91 {
        "Delete"@
    } else if i == 92 {
        "Caps Lock"@
    } else if i == 93 {
        "Num Lock"@
    } else if i == 94 {
        "Scroll Lock"@
    } else {
        "Pause"@
    }
}

/// The key code of keyboard key `i` of the picker.
pub open spec fn keyboard_key_code(i: int) -> u32 {
    if i == 0 {
        65
    } else if i == 1 {
        66
    } else if i == 2 {
        67
    } else if i == 3 {
        68
    } else if i == 4 {
        69
    } else if i == 5 {
        70
    } else if i == 6 {
        71
    } else if i == 7 {
        72
    } else if i == 8 {
        73
    } else if i == 9 {
        74
    } else if i == 10 {
        75
    } else if i == 11 {
        76
    } else if i == 12 {
        77
    } else if i == 13 {
        78
    } else if i == 14 {
        79
    } else if i == 15 {
        80
    } else if i == 16 {
        81
    } else if i == 17 {
        82
    } else if i == 18 {
        83
    } else if i == 19 {
        84
    } else if i == 20 {
        85
    } else if i == 21 {
        86
    } else if i == 22 {
        87
    } else if i == 23 {
        88
    } else if i == 24 {
        89
    } else if i == 25 {
        90
    } else if i == 26 {
        48
    } else if i == 27 {
        49
    } else if i == 28 {
        50
    } else if i == 29 {
        51
    } else if i == 30 {
        52
    } else if i == 31 {
        53
    } else if i == 32 {
        54
    } else if i == 33 {
        55
    } else if i == 34 {
        56
    } else if i == 35 {
        57
    } else if i == 36 {
        112
    } else if i == 37 {
        113
    } else if i == 38 {
        114
    } else if i == 39 {
        115
    } else if i == 40 {
        116
    } else if i == 41 {
        117
    } else if i == 42 {
        118
    } else if i == 43 {
        119
    } else if i == 44 {
        120
    } else if i == 45 {
        121
    } else if i == 46 {
        122
    } else if i == 47 {
        123
    } else if i == 48 {
        38
    } else if i == 49 {
        40
    } else if i == 50 {
        37
    } else if i == 51 {
        39
    } else if i == 52 {
        16
    } else if i == 53 {
        17
    } else if i == 54 {
        18
    } else if i == 55 {
        13
    } else if i == 56 {
        27
    } else if i == 57 {
        9
    } else if i == 58 {
        32
    } else if i == 59 {
        8
    } else if i == 60 {
        188
    } else if i == 61 {
        190
    } else if i == 62 {
        191
    } else if i == 63 {
        186
    } else if i == 64 {
        189
    } else if i == 65 {
        187
    } else if i == 66 {
        192
    } else if i == 67 {
        219
    } else if i == 68 {
        221
    } else if i == 69 {
        220
    } else if i == 70 {
        222
    } else if i == 71 {
        96
    } else if i == 72 {
        97
    } else if i == 73 {
        98
    } else if i == 74 {
        99
    } else if i == 75 {
        100
    } else if i == 76 {
        101
    } else if i == 77 {
        102
    } else if i == 78 {
        103
    } else if i == 79 {
        104
    } else if i == 80 {
        105
    } else if i == 81 {
        106
    } else if i == 82 {
        107
    } else if i == 83 {
        109
    } else if i == 84 {
        110
    } else if i == 85 {
        111
    } else if i == 86 {
        33
    } else if i == 87 {
        34
    } else if i == 88 {
        35
    } else if i == 89 {
        36
    } else if i == 90 {
        45
    } else if i == 91 {
        46
    } else if i == 92 {
        20
    } else if i == 93 {
        144
    } else if i == 94 {
        145
    } else {
        19
    }
}

/// The picker position of the key with code `code`, if one has it.
pub open spec fn keyboard_key_index(code: u32) -> Option<int> {
    if code == 65 {
        Some(0)
    } else if code == 66 {
        Some(1)
    } else if code == 67 {
        Some(2)
    } else if code == 68 {
        Some(3)
    } else if code == 69 {
        Some(4)
    } else if code == 70 {
        Some(5)
    } else if code == 71 {
        Some(6)
    } else if code == 72 {
        Some(7)
    } else if code == 73 {
        Some(8)
    } else if code == 74 {
        Some(9)
    } else if code == 75 {
        Some(10)
    } else if code == 76 {
        Some(11)
    } else if code == 77 {
        Some(12)
    } else if code == 78 {
        Some(13)
    } else if code == 79 {
        Some(14)
    } else if code == 80 {
        Some(15)
    } else if code == 81 {
        Some(16)
    } else if code == 82 {
        Some(17)
    } else if code == 83 {
        Some(18)
    } else if code == 84 {
        Some(19)
    } else if code == 85 {
        Some(20)
    } else if code == 86 {
        Some(21)
    } else if code == 87 {
        Some(22)
    } else if code == 88 {
        Some(23)
    } else if code == 89 {
        Some(24)
    } else if code == 90 {
        Some(25)
    } else if code == 48 {
        Some(26)
    } else if code == 49 {
        Some(27)
    } else if code == 50 {
        Some(28)
    } else if code == 51 {
        Some(29)
    } else if code == 52 {
        Some(30)
    } else if code == 53 {
        Some(31)
    } else if code == 54 {
        Some(32)
    } else if code == 55 {
        Some(33)
    } else if code == 56 {
        Some(34)
    } else if code == 57 {
        Some(35)
    } else if code == 112 {
        Some(36)
    } else if code == 113 {
        Some(37)
    } else if code == 114 {
        Some(38)
    } else if code == 115 {
        Some(39)
    } else if code == 116 {
        Some(40)
    } else if code == 117 {
        Some(41)
    } else if code == 118 {
        Some(42)
    } else if code == 119 {
        Some(43)
    } else if code == 120 {
        Some(44)
    } else if code == 121 {
        Some(45)
    } else if code == 122 {
        Some(46)
    } else if code == 123 {
        Some(47)
    } else if code == 38 {
        Some(48)
    } else if code == 40 {
        Some(49)
    } else if code == 37 {
        Some(50)
    } else if code == 39 {
        Some(51)
    } else if code == 16 {
        Some(52)
    } else if code == 17 {
        Some(53)
    } else if code == 18 {
        Some(54)
    } else if code == 13 {
        Some(55)
    } else if code == 27 {
        Some(56)
    } else if code == 9 {
        Some(57)
    } else if code == 32 {
        Some(58)
    } else if code == 8 {
        Some(59)
    } else if code == 188 {
        Some(60)
    } else if code == 190 {
        Some(61)
    } else if code == 191 {
        Some(62)
    } else if code == 186 {
        Some(63)
    } else if code == 189 {
        Some(64)
    } else if code == 187 {
        Some(65)
    } else if code == 192 {
        Some(66)
    } else if code == 219 {
        Some(67)
    } else if code == 221 {
        Some(68)
    } else if code == 220 {
        Some(69)
    } else if code == 222 {
        Some(70)
    } else if code == 96 {
        Some(71)
    } else if code == 97 {
        Some(72)
    } else if code == 98 {
        Some(73)
    } else if code == 99 {
        Some(74)
    } else if code == 100 {
        Some(75)
    } else if code == 101 {
        Some(76)
    } else if code == 102 {
        Some(77)
    } else if code == 103 {
        Some(78)
    } else if code == 104 {
        Some(79)
    } else if code == 105 {
        Some(80)
    } else if code == 106 {
        Some(81)
    } else if code == 107 {
        Some(82)
    } else if code == 109 {
        Some(83)
    } else if code == 110 {
        Some(84)
    } else if code == 111 {
        Some(85)
    } else if code == 33 {
        Some(86)
    } else if code == 34 {
        Some(87)
    } else if code == 35 {
        Some(88)
    } else if code == 36 {
        Some(89)
    } else if code == 45 {
        Some(90)
    } else if code == 46 {
        Some(91)
    } else if code == 20 {
        Some(92)
    } else if code == 144 {
        Some(93)
    } else if code == 145 {
        Some(94)
    } else if code == 19 {
        Some(95)
    } else {
        None
    }
}

/// Keyboard key `i` of the picker: its name and its key code.
pub fn keyboard_key(i: usize) -> (r: (&'static str, u32))
    requires
        i < KEYBOARD_KEY_COUNT,
    ensures
        r.0@ == keyboard_key_name(i as int),
        r.1 == keyboard_key_code(i as int),
{
    match i {
        0 => ("A", 65),
        1 => ("B", 66),
        2 => ("C", 67),
        3 => ("D", 68),
        4 => ("E", 69),
        5 => ("F", 70),
        6 => ("G", 71),
        7 => ("H", 72),
        8 => ("I", 73),
        9 => ("J", 74),
        10 => ("K", 75),
        11 => ("L", 76),
        12 => ("M", 77),
        13 => ("N", 78),
        14 => ("O", 79),
        15 => ("P", 80),
        16 => ("Q", 81),
        17 => ("R", 82),
        18 => ("S", 83),
        19 => ("T", 84),
        20 => ("U", 85),
        21 => ("V", 86),
        22 => ("W", 87),
        23 => ("X", 88),
        24 => ("Y", 89),
        25 => ("Z", 90),
        26 => ("0", 48),
        27 => ("1", 49),
        28 => ("2", 50),
        29 => ("3", 51),
        30 => ("4", 52),
        31 => ("5", 53),
        32 => ("6", 54),
        33 => ("7", 55),
        34 => ("8", 56),
        35 => ("9", 57),
        36 => ("F1", 112),
        37 => ("F2", 113),
        38 => ("F3", 114),
        39 => ("F4", 115),
        40 => ("F5", 116),
        41 => ("F6", 117),
        42 => ("F7", 118),
        43 => ("F8", 119),
        44 => ("F9", 120),
        45 => ("F10", 121),
        46 => ("F11", 122),
        47 => ("F12", 123),
        48 => ("Up Arrow", 38),
        49 => ("Down Arrow", 40),
        50 => ("Left Arrow", 37),
        51 => ("Right Arrow", 39),
        52 => ("Shift", 16),
        53 => ("Control", 17),
        54 => ("Alt", 18),
        55 => ("Enter", 13),
        56 => ("Escape", 27),
        57 => ("Tab", 9),
        58 => ("Space", 32),
        59 => ("Backspace", 8),
        60 => ("Comma", 188),
        61 => ("Period", 190),
        62 => ("Slash", 191),
        63 => ("Semicolon", 186),
        64 => ("Minus", 189),
        65 => ("Equals", 187),
        66 => ("Backtick", 192),
        67 => ("[", 219),
        68 => ("]", 221),
        69 => ("\\", 220),
        70 => ("'", 222),
        71 => ("Numpad 0", 96),
        72 => ("Numpad 1", 97),
        73 => ("Numpad 2", 98),
        74 => ("Numpad 3", 99),
        75 => ("Numpad 4", 100),
        76 => ("Numpad 5", 101),
        77 => ("Numpad 6", 102),
        78 => ("Numpad 7", 103),
        79 => ("Numpad 8", 104),
        80 => ("Numpad 9", 105),
        81 => ("Num *", 106),
        82 => ("Num +", 107),
        83 => ("Num -", 109),
        84 => ("Num .", 110),
        85 => ("Num /", 111),
        86 => ("Page Up", 33),
        87 => ("Page Down", 34),
        88 => ("Home", 35),
        89 => ("End", 36),
        90 => ("Insert", 45),
        91 => ("Delete", 46),
        92 => ("Caps Lock", 20),
        93 => ("Num Lock", 144),
        94 => ("Scroll Lock", 145),
        _ => ("Pause", 19),
    }
}

/// The label of bindable gamepad button `i`.
pub open spec fn gamepad_button_label(i: int) -> Seq<char> {
    if i == 0 {
        "Cross"@
    } else if i == 1 {
        "Circle"@
    } else if i == 2 {
        "Square"@
    } else if i == 3 {
        "Triangle"@
    } else if i == 4 {
        "L"@
    } else if i == 5 {
        "R"@
    } else if i == 6 {
        "Select"@
    } else if i == 7 {
        "Start"@
    } else if i == 8 {
        "DPad Up"@
    } else if i == 9 {
        "DPad Down"@
    } else if i == 10 {
        "DPad Left"@
    } else {
        "DPad Right"@
    }
}

/// The configuration key under which bindable gamepad button `i` is stored.
pub open spec fn gamepad_button_key(i: int) -> Seq<char> {
    if i == 0 {
        "south"@
    } else if i == 1 {
        "east"@
    } else if i == 2 {
        "west"@
    } else if i == 3 {
        "north"@
    } else if i == 4 {
        "left-trigger"@
    } else if i == 5 {
        "right-trigger"@
    } else if i == 6 {
        "select"@
    } else if i == 7 {
        "start"@
    } else if i == 8 {
        "dpad-up"@
    } else if i == 9 {
        "dpad-down"@
    } else if i == 10 {
        "dpad-left"@
    } else {
        "dpad-right"@
    }
}

/// Bindable gamepad button `i`: its label and its configuration key.
pub fn gamepad_button(i: usize) -> (r: (&'static str, &'static str))
    requires
        i < GAMEPAD_BUTTON_COUNT,
    ensures
        r.0@ == gamepad_button_label(i as int),
        r.1@ == gamepad_button_key(i as int),
{
    match i {
        0 => ("Cross", "south"),
        1 => ("Circle", "east"),
        2 => ("Square", "west"),
        3 => ("Triangle", "north"),
        4 => ("L", "left-trigger"),
        5 => ("R", "right-trigger"),
        6 => ("Select", "select"),
        7 => ("Start", "start"),
        8 => ("DPad Up", "dpad-up"),
        9 => ("DPad Down", "dpad-down"),
        10 => ("DPad Left", "dpad-left"),
        _ => ("DPad Right", "dpad-right"),
    }
}

/// Each key of the picker is found again from its code.
pub proof fn lemma_keyboard_key_index(i: int)
    requires
        0 <= i < KEYBOARD_KEY_COUNT,
    ensures
        keyboard_key_index(keyboard_key_code(i)) == Some(i),
        keyboard_key_code(i) != 0,
{
}

/// A code is only ever found at a position whose key has that code.
pub proof fn lemma_keyboard_key_index_sound(code: u32)
    ensures
        keyboard_key_index(code) matches Some(i) ==> 0 <= i < KEYBOARD_KEY_COUNT
            && keyboard_key_code(i) == code,
{
}

/// What the configuration menu shows for a binding to key code `code`.
pub open spec fn key_display_name_spec(code: u32) -> Seq<char> {
    if code == 0 {
        "Not Set"@
    } else {
        match keyboard_key_index(code) {
            Some(i) => keyboard_key_name(i),
            None => "#"@ + decimal(code as nat),
        }
    }
}

/// The text shown for a binding to key code `code`: "Not Set" for 0, the
/// key's name when the picker offers it, and `#` followed by the code otherwise.
pub fn key_display_name(code: u32) -> (r: String)
    ensures
        r@ == key_display_name_spec(code),
{
    if code == 0 {
        return String::from_str("Not Set");
    }
    let mut i: usize = 0;
    while i < KEYBOARD_KEY_COUNT
        invariant
            code != 0,
            i <= KEYBOARD_KEY_COUNT,
            forall|j: int| 0 <= j < i ==> keyboard_key_code(j) != code,
        decreases KEYBOARD_KEY_COUNT - i,
    {
        let (name, kc) = keyboard_key(i);
        if kc == code {
            proof {
                lemma_keyboard_key_index(i as int);
            }
            return String::from_str(name);
        }
        i = i + 1;
    }
    proof {
        lemma_keyboard_key_index_sound(code);
    }
    let mut s = String::from_str("#");
    push_decimal(&mut s, code as u64);
    s
}

/// Binding a button to a key of the picker and showing that binding gives
/// back the key's name.
pub proof fn lemma_picked_key_displays_its_name(i: int)
    requires
        0 <= i < KEYBOARD_KEY_COUNT,
    ensures
        key_display_name_spec(keyboard_key_code(i)) == keyboard_key_name(i),
{
    lemma_keyboard_key_index(i);
}

/// Each key of the picker carries its own key code: the binding the menu
/// shows for a key code is that key's name, for every key the picker offers.
pub proof fn lemma_key_codes_name_their_keys()
    ensures
        key_display_name_spec(65) == "A"@,
        key_display_name_spec(66) == "B"@,
        key_display_name_spec(67) == "C"@,
        key_display_name_spec(68) == "D"@,
        key_display_name_spec(69) == "E"@,
        key_display_name_spec(70) == "F"@,
        key_display_name_spec(71) == "G"@,
        key_display_name_spec(72) == "H"@,
        key_display_name_spec(73) == "I"@,
        key_display_name_spec(74) == "J"@,
        key_display_name_spec(75) == "K"@,
        key_display_name_spec(76) == "L"@,
        key_display_name_spec(77) == "M"@,
        key_display_name_spec(78) == "N"@,
        key_display_name_spec(79) == "O"@,
        key_display_name_spec(80) == "P"@,
        key_display_name_spec(81) == "Q"@,
        key_display_name_spec(82) == "R"@,
        key_display_name_spec(83) == "S"@,
        key_display_name_spec(84) == "T"@,
        key_display_name_spec(85) == "U"@,
        key_display_name_spec(86) == "V"@,
        key_display_name_spec(87) == "W"@,
        key_display_name_spec(88) == "X"@,
        key_display_name_spec(89) == "Y"@,
        key_display_name_spec(90) == "Z"@,
        key_display_name_spec(48) == "0"@,
        key_display_name_spec(49) == "1"@,
        key_display_name_spec(50) == "2"@,
        key_display_name_spec(51) == "3"@,
        key_display_name_spec(52) == "4"@,
        key_display_name_spec(53) == "5"@,
        key_display_name_spec(54) == "6"@,
        key_display_name_spec(55) == "7"@,
        key_display_name_spec(56) == "8"@,
        key_display_name_spec(57) == "9"@,
        key_display_name_spec(112) == "F1"@,
        key_display_name_spec(113) == "F2"@,
        key_display_name_spec(114) == "F3"@,
        key_display_name_spec(115) == "F4"@,
        key_display_name_spec(116) == "F5"@,
        key_display_name_spec(117) == "F6"@,
        key_display_name_spec(118) == "F7"@,
        key_display_name_spec(119) == "F8"@,
        key_display_name_spec(120) == "F9"@,
        key_display_name_spec(121) == "F10"@,
        key_display_name_spec(122) == "F11"@,
        key_display_name_spec(123) == "F12"@,
        key_display_name_spec(38) == "Up Arrow"@,
        key_display_name_spec(40) == "Down Arrow"@,
        key_display_name_spec(37) == "Left Arrow"@,
        key_display_name_spec(39) == "Right Arrow"@,
        key_display_name_spec(16) == "Shift"@,
        key_display_name_spec(17) == "Control"@,
        key_display_name_spec(18) == "Alt"@,
        key_display_name_spec(13) == "Enter"@,
        key_display_name_spec(27) == "Escape"@,
        key_display_name_spec(9) == "Tab"@,
        key_display_name_spec(32) == "Space"@,
        key_display_name_spec(8) == "Backspace"@,
        key_display_name_spec(188) == "Comma"@,
        key_display_name_spec(190) == "Period"@,
        key_display_name_spec(191) == "Slash"@,
        key_display_name_spec(186) == "Semicolon"@,
        key_display_name_spec(189) == "Minus"@,
        key_display_name_spec(187) == "Equals"@,
        key_display_name_spec(192) == "Backtick"@,
        key_display_name_spec(219) == "["@,
        key_display_name_spec(221) == "]"@,
        key_display_name_spec(220) == "\\"@,
        key_display_name_spec(222) == "'"@,
        key_display_name_spec(96) == "Numpad 0"@,
        key_display_name_spec(97) == "Numpad 1"@,
        key_display_name_spec(98) == "Numpad 2"@,
        key_display_name_spec(99) == "Numpad 3"@,
        key_display_name_spec(100) == "Numpad 4"@,
        key_display_name_spec(101) == "Numpad 5"@,
        key_display_name_spec(102) == "Numpad 6"@,
        key_display_name_spec(103) == "Numpad 7"@,
        key_display_name_spec(104) == "Numpad 8"@,
        key_display_name_spec(105) == "Numpad 9"@,
        key_display_name_spec(106) == "Num *"@,
        key_display_name_spec(107) == "Num +"@,
        key_display_name_spec(109) == "Num -"@,
        key_display_name_spec(110) == "Num ."@,
        key_display_name_spec(111) == "Num /"@,
        key_display_name_spec(33) == "Page Up"@,
        key_display_name_spec(34) == "Page Down"@,
        key_display_name_spec(35) == "Home"@,
        key_display_name_spec(36) == "End"@,
        key_display_name_spec(45) == "Insert"@,
        key_display_name_spec(46) == "Delete"@,
        key_display_name_spec(20) == "Caps Lock"@,
        key_display_name_spec(144) == "Num Lock"@,
        key_display_name_spec(145) == "Scroll Lock"@,
        key_display_name_spec(19) == "Pause"@,
{
}

/// Each bindable gamepad button is stored under its own configuration key:
/// Cross is south, Circle east, Square west, Triangle north, and so on.
pub proof fn lemma_gamepad_buttons_pair_labels_with_keys()
    ensures
        gamepad_button_label(0) == "Cross"@ && gamepad_button_key(0) == "south"@,
        gamepad_button_label(1) == "Circle"@ && gamepad_button_key(1) == "east"@,
        gamepad_button_label(2) == "Square"@ && gamepad_button_key(2) == "west"@,
        gamepad_button_label(3) == "Triangle"@ && gamepad_button_key(3) == "north"@,
        gamepad_button_label(4) == "L"@ && gamepad_button_key(4) == "left-trigger"@,
        gamepad_button_label(5) == "R"@ && gamepad_button_key(5) == "right-trigger"@,
        gamepad_button_label(6) == "Select"@ && gamepad_button_key(6) == "select"@,
        gamepad_button_label(7) == "Start"@ && gamepad_button_key(7) == "start"@,
        gamepad_button_label(8) == "DPad Up"@ && gamepad_button_key(8) == "dpad-up"@,
        gamepad_button_label(9) == "DPad Down"@ && gamepad_button_key(9) == "dpad-down"@,
        gamepad_button_label(10) == "DPad Left"@ && gamepad_button_key(10) == "dpad-left"@,
        gamepad_button_label(11) == "DPad Right"@ && gamepad_button_key(11) == "dpad-right"@,
{
}

} // verus!
