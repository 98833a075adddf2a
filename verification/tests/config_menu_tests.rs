use ruffle4consoles::config::{Config, KeyBindings};
use ruffle4consoles::config_menu::{ConfigAction, ConfigMenu};
use ruffle4consoles::input::{Axis, Button};
use ruffle4consoles::list::RowKind;

fn menu() -> ConfigMenu {
    ConfigMenu::new("game".to_string(), Config::default(), "./ruffle")
}

fn press(m: &mut ConfigMenu, b: Button) -> Option<ConfigAction> {
    m.handle_button(true, b)
}

#[test]
fn new_menu_starts_on_save() {
    let m = menu();
    assert_eq!(m.selected(), 0);
    assert_eq!(m.scroll_offset(), 0);
    assert_eq!(m.selecting_key(), None);
    assert_eq!(m.swf_name(), "game");
    assert_eq!(m.base_path(), "./ruffle");
    assert_eq!(m.config_file(), "./ruffle/config/game.ron");
}

#[test]
fn moving_down_skips_the_heading_and_wraps() {
    let mut m = menu();
    press(&mut m, Button::DPadDown);
    assert_eq!(m.selected(), 1);
    press(&mut m, Button::DPadDown);
    assert_eq!(m.selected(), 3);
    for _ in 0..11 {
        press(&mut m, Button::DPadDown);
    }
    assert_eq!(m.selected(), 14);
    press(&mut m, Button::DPadDown);
    assert_eq!(m.selected(), 0);
}

#[test]
fn moving_up_skips_the_heading_and_wraps() {
    let mut m = menu();
    press(&mut m, Button::DPadUp);
    assert_eq!(m.selected(), 14);
    m.set_selected(3);
    press(&mut m, Button::DPadUp);
    assert_eq!(m.selected(), 1);
}

#[test]
fn up_then_down_returns_to_the_same_row() {
    for start in [0usize, 1, 3, 4, 8, 13, 14] {
        let mut m = menu();
        m.set_selected(start);
        press(&mut m, Button::DPadUp);
        press(&mut m, Button::DPadDown);
        assert_eq!(m.selected(), start);
        press(&mut m, Button::DPadDown);
        press(&mut m, Button::DPadUp);
        assert_eq!(m.selected(), start);
    }
}

#[test]
fn paging_stops_at_the_ends_and_avoids_the_heading() {
    let mut m = menu();
    press(&mut m, Button::DPadRight);
    assert_eq!(m.selected(), 10);
    press(&mut m, Button::DPadRight);
    assert_eq!(m.selected(), 14);
    press(&mut m, Button::DPadLeft);
    assert_eq!(m.selected(), 4);
    press(&mut m, Button::DPadLeft);
    assert_eq!(m.selected(), 0);
    m.set_selected(12);
    press(&mut m, Button::DPadLeft);
    assert_eq!(m.selected(), 1);
}

#[test]
fn releases_are_ignored() {
    let mut m = menu();
    assert_eq!(m.handle_button(false, Button::DPadDown), None);
    assert_eq!(m.selected(), 0);
}

#[test]
fn cross_on_save_asks_to_save_and_return() {
    let mut m = menu();
    assert_eq!(press(&mut m, Button::A), Some(ConfigAction::BackToMenu));
    assert_eq!(m.selected(), 0);
}

#[test]
fn cross_on_letterbox_toggles_it() {
    let mut m = menu();
    m.set_selected(1);
    assert_eq!(press(&mut m, Button::A), None);
    assert_eq!(m.config().letterbox, Some("off".to_string()));
    press(&mut m, Button::A);
    assert_eq!(m.config().letterbox, Some("fullscreen".to_string()));
    press(&mut m, Button::A);
    assert_eq!(m.config().letterbox, Some("on".to_string()));
}

#[test]
fn binding_a_button_to_a_key() {
    let mut m = menu();
    m.set_selected(3);
    press(&mut m, Button::A);
    assert_eq!(m.selecting_key(), Some(0));
    assert_eq!(m.key_selected(), 0);
    press(&mut m, Button::DPadDown);
    press(&mut m, Button::DPadDown);
    assert_eq!(m.key_selected(), 2);
    assert_eq!(press(&mut m, Button::A), None);
    assert_eq!(m.selecting_key(), None);
    assert_eq!(m.config().gamepad_config.get(&"south".to_string()), Some(67));
    let rows = m.main_rows();
    assert_eq!(rows[3].label, "Cross: [C]");
}

#[test]
fn clearing_a_binding() {
    let mut cfg = Config::default();
    cfg.gamepad_config = KeyBindings::from_pairs(vec![("east".to_string(), 65)]);
    let mut m = ConfigMenu::new("game".to_string(), cfg, "./ruffle");
    m.set_selected(4);
    press(&mut m, Button::A);
    assert_eq!(m.selecting_key(), Some(1));
    press(&mut m, Button::DPadUp);
    assert_eq!(m.key_selected(), 96);
    assert_eq!(m.key_scroll_offset(), 71);
    press(&mut m, Button::A);
    assert_eq!(m.config().gamepad_config.get(&"east".to_string()), None);
    assert_eq!(m.main_rows()[4].label, "Circle: [Not Set]");
}

#[test]
fn circle_cancels_the_picker() {
    let mut m = menu();
    m.set_selected(5);
    press(&mut m, Button::A);
    assert_eq!(m.selecting_key(), Some(2));
    press(&mut m, Button::DPadDown);
    press(&mut m, Button::B);
    assert_eq!(m.selecting_key(), None);
    assert!(m.config().gamepad_config.to_pairs().is_empty());
}

#[test]
fn picker_wraps_both_ways() {
    let mut m = menu();
    m.set_selected(3);
    press(&mut m, Button::A);
    press(&mut m, Button::DPadUp);
    assert_eq!(m.key_selected(), 96);
    press(&mut m, Button::DPadDown);
    assert_eq!(m.key_selected(), 0);
    assert_eq!(m.key_scroll_offset(), 0);
    for _ in 0..30 {
        press(&mut m, Button::DPadDown);
    }
    assert_eq!(m.key_selected(), 30);
    assert_eq!(m.key_scroll_offset(), 5);
}

#[test]
fn triangle_restores_defaults() {
    let mut cfg = Config::default();
    cfg.letterbox = Some("fullscreen".to_string());
    cfg.gamepad_config = KeyBindings::from_pairs(vec![("south".to_string(), 65)]);
    let mut m = ConfigMenu::new("game".to_string(), cfg, "./ruffle");
    m.set_selected(7);
    assert_eq!(press(&mut m, Button::Y), None);
    assert_eq!(m.config().letterbox, Some("on".to_string()));
    assert!(m.config().gamepad_config.to_pairs().is_empty());
    assert_eq!(m.selected(), 7);
}

#[test]
fn stick_moves_the_list_past_the_dead_zone() {
    let mut m = menu();
    m.handle_axis_motion(Axis::LeftY, 16000);
    assert_eq!(m.selected(), 0);
    m.handle_axis_motion(Axis::LeftY, 16001);
    assert_eq!(m.selected(), 1);
    m.handle_axis_motion(Axis::LeftX, 30000);
    assert_eq!(m.selected(), 1);
    m.handle_axis_motion(Axis::LeftY, -16001);
    assert_eq!(m.selected(), 0);
    m.set_selected(3);
    press(&mut m, Button::A);
    m.handle_axis_motion(Axis::LeftY, -20000);
    assert_eq!(m.key_selected(), 96);
    assert_eq!(m.selected(), 3);
}

#[test]
fn main_rows_text() {
    let mut cfg = Config::default();
    cfg.gamepad_config = KeyBindings::from_pairs(vec![("north".to_string(), 13), ("start".to_string(), 7)]);
    let mut m = ConfigMenu::new("My Game".to_string(), cfg, "./ruffle");
    m.set_selected(1);
    let rows = m.main_rows();
    assert_eq!(m.title(), "Config: My Game");
    assert_eq!(rows.len(), 15);
    assert_eq!(rows[0].label, "Save and Return");
    assert_eq!(rows[0].kind, RowKind::Save);
    assert!(!rows[0].selected);
    assert_eq!(rows[1].label, "Letterbox: On");
    assert!(rows[1].selected);
    assert_eq!(rows[2].label, "    Gamepad Buttons");
    assert_eq!(rows[2].kind, RowKind::Header);
    assert_eq!(rows[3].label, "Cross: [Not Set]");
    assert_eq!(rows[6].label, "Triangle: [Enter]");
    assert_eq!(rows[10].label, "Start: [#7]");
    assert_eq!(rows[14].label, "DPad Right: [Not Set]");
    assert_eq!(rows[14].kind, RowKind::Setting);
}

#[test]
fn picker_rows_text() {
    let mut m = menu();
    m.set_selected(3);
    press(&mut m, Button::A);
    let rows = m.picker_rows();
    assert_eq!(ConfigMenu::picker_title(0), "Key for Cross:");
    assert_eq!(rows.len(), 26);
    assert_eq!(rows[0].label, "A");
    assert!(rows[0].selected);
    assert_eq!(rows[0].kind, RowKind::Key);
    press(&mut m, Button::DPadUp);
    let rows = m.picker_rows();
    assert_eq!(rows.len(), 26);
    assert_eq!(rows[25].label, "[Clear Binding]");
    assert_eq!(rows[25].kind, RowKind::ClearBinding);
    assert!(rows[25].selected);
    assert_eq!(rows[24].label, "Pause");
}

#[test]
fn stick_and_dpad_step_alike() {
    for picking in [false, true] {
        for start in [0usize, 1, 3, 13, 14] {
            for down in [true, false] {
                let mut a = menu();
                a.set_selected(start);
                if picking {
                    press(&mut a, Button::A);
                    if a.selecting_key().is_none() {
                        continue;
                    }
                    for _ in 0..start {
                        press(&mut a, Button::DPadDown);
                    }
                }
                let mut b = ConfigMenu::new("game".to_string(), Config::default(), "./ruffle");
                b.set_selected(a.selected());
                if picking {
                    press(&mut b, Button::A);
                    for _ in 0..start {
                        press(&mut b, Button::DPadDown);
                    }
                }
                if down {
                    a.handle_axis_motion(Axis::LeftY, 20000);
                    press(&mut b, Button::DPadDown);
                } else {
                    a.handle_axis_motion(Axis::LeftY, -20000);
                    press(&mut b, Button::DPadUp);
                }
                assert_eq!(a.selected(), b.selected());
                assert_eq!(a.scroll_offset(), b.scroll_offset());
                assert_eq!(a.selecting_key(), b.selecting_key());
                assert_eq!(a.key_selected(), b.key_selected());
                assert_eq!(a.key_scroll_offset(), b.key_scroll_offset());
            }
        }
    }
}
