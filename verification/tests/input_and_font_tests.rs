use ruffle4consoles::font::{atlas_size, font_atlas, measure_text, ATLAS_HEIGHT, ATLAS_WIDTH};
use ruffle4consoles::input::{resized_viewport, sdl_gamepadbutton_to_ruffle, Axis, AxisState, Button, ComboState, GamepadButton, PressOutcome};

#[test]
fn controller_buttons_map_to_player_buttons() {
    assert_eq!(sdl_gamepadbutton_to_ruffle(Button::A), Some(GamepadButton::South));
    assert_eq!(sdl_gamepadbutton_to_ruffle(Button::B), Some(GamepadButton::East));
    assert_eq!(sdl_gamepadbutton_to_ruffle(Button::X), Some(GamepadButton::West));
    assert_eq!(sdl_gamepadbutton_to_ruffle(Button::Y), Some(GamepadButton::North));
    assert_eq!(sdl_gamepadbutton_to_ruffle(Button::Back), Some(GamepadButton::Select));
    assert_eq!(sdl_gamepadbutton_to_ruffle(Button::LeftShoulder), Some(GamepadButton::LeftTrigger));
    assert_eq!(sdl_gamepadbutton_to_ruffle(Button::DPadLeft), Some(GamepadButton::DPadLeft));
    assert_eq!(sdl_gamepadbutton_to_ruffle(Button::Guide), None);
    assert_eq!(sdl_gamepadbutton_to_ruffle(Button::Touchpad), None);
}

#[test]
fn stick_directions() {
    let s = AxisState::from_axis_motion(Axis::LeftY, -8001);
    assert!(s.up && !s.down && !s.left && !s.right);
    let s = AxisState::from_axis_motion(Axis::LeftY, -8000);
    assert!(!s.up);
    let s = AxisState::from_axis_motion(Axis::LeftX, 9000);
    assert!(s.right && !s.left && !s.up && !s.down);
    let s = AxisState::from_axis_motion(Axis::RightY, -30000);
    assert!(!s.up && !s.down && !s.left && !s.right);
    let d = AxisState::default();
    assert!(!d.up && !d.down && !d.left && !d.right);
}

#[test]
fn start_and_back_leave_the_game() {
    let mut c = ComboState::new();
    assert_eq!(c.button_down(Button::Back), PressOutcome::Forward(Some(GamepadButton::Select)));
    assert_eq!(c.button_down(Button::Start), PressOutcome::Forward(Some(GamepadButton::Start)));
    assert!(c.start_held);
    assert_eq!(c.button_down(Button::A), PressOutcome::Forward(Some(GamepadButton::South)));
    assert_eq!(c.button_down(Button::Back), PressOutcome::ReturnToMenu);
    assert_eq!(c.button_up(Button::Start), Some(GamepadButton::Start));
    assert!(!c.start_held);
    assert_eq!(c.button_down(Button::Back), PressOutcome::Forward(Some(GamepadButton::Select)));
}

#[test]
fn atlas_layout() {
    assert_eq!(atlas_size(), (128, 96));
    let mut font = vec![0u8; 95 * 16];
    font[0] = 0x80;
    font[16 + 3] = 0x01;
    font[17 * 16 + 15] = 0xFF;
    let pixels = font_atlas(&font);
    assert_eq!(pixels.len(), ATLAS_WIDTH * ATLAS_HEIGHT);
    assert_eq!(pixels[0], 255);
    assert_eq!(pixels[1], 0);
    assert_eq!(pixels[3 * 128 + 8 + 7], 255);
    for bit in 0..8 {
        assert_eq!(pixels[(16 + 15) * 128 + 8 + bit], 255);
    }
    let lit = pixels.iter().filter(|&&p| p == 255).count();
    assert_eq!(lit, 10);
}

#[test]
fn text_measures_one_glyph_per_character() {
    assert_eq!(measure_text(""), (0, 16));
    assert_eq!(measure_text("Ruffle for PS Vita"), (144, 16));
    assert_eq!(measure_text("caf\u{e9}"), (32, 16));
}

#[test]
fn viewport_sizes() {
    assert_eq!(resized_viewport(960, 544), Some((960, 544)));
    assert_eq!(resized_viewport(0, 544), None);
    assert_eq!(resized_viewport(960, -1), None);
}
