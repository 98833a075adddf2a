use ruffle4consoles::config::{letterbox_display, next_letterbox, Config, KeyBindings};
use ruffle4consoles::paths::{config_dir, config_file_path, storage_path, swf_path, swf_url};

#[test]
fn bindings_read_back_what_was_written() {
    let mut b = KeyBindings::new();
    assert_eq!(b.get(&"south".to_string()), None);
    b.insert("south".to_string(), 65);
    b.insert("north".to_string(), 66);
    assert_eq!(b.get(&"south".to_string()), Some(65));
    assert_eq!(b.get(&"north".to_string()), Some(66));
    b.insert("south".to_string(), 13);
    assert_eq!(b.get(&"south".to_string()), Some(13));
    assert_eq!(b.to_pairs().len(), 2);
}

#[test]
fn bindings_remove_and_clear() {
    let mut b = KeyBindings::new();
    b.insert("south".to_string(), 65);
    b.insert("east".to_string(), 66);
    b.remove(&"south".to_string());
    assert_eq!(b.get(&"south".to_string()), None);
    assert_eq!(b.get(&"east".to_string()), Some(66));
    b.remove(&"missing".to_string());
    assert_eq!(b.get(&"east".to_string()), Some(66));
    b.clear();
    assert_eq!(b.get(&"east".to_string()), None);
    assert!(b.to_pairs().is_empty());
}

#[test]
fn bindings_from_pairs_later_pairs_win() {
    let b = KeyBindings::from_pairs(vec![
        ("south".to_string(), 1),
        ("east".to_string(), 2),
        ("south".to_string(), 3),
    ]);
    assert_eq!(b.get(&"south".to_string()), Some(3));
    assert_eq!(b.get(&"east".to_string()), Some(2));
    let mut pairs = b.to_pairs();
    pairs.sort();
    assert_eq!(pairs, vec![("east".to_string(), 2), ("south".to_string(), 3)]);
}

#[test]
fn default_config() {
    let c = Config::default();
    assert_eq!(c.letterbox, Some("on".to_string()));
    assert!(c.gamepad_config.to_pairs().is_empty());
}

#[test]
fn letterbox_display_names() {
    assert_eq!(letterbox_display(Some(&"on".to_string())), "On");
    assert_eq!(letterbox_display(Some(&"off".to_string())), "Off");
    assert_eq!(letterbox_display(Some(&"fullscreen".to_string())), "Fullscreen");
    assert_eq!(letterbox_display(Some(&"weird".to_string())), "On");
    assert_eq!(letterbox_display(None), "On");
}

#[test]
fn letterbox_toggles_in_a_cycle() {
    assert_eq!(next_letterbox(Some(&"on".to_string())), "off");
    assert_eq!(next_letterbox(Some(&"off".to_string())), "fullscreen");
    assert_eq!(next_letterbox(Some(&"fullscreen".to_string())), "on");
    assert_eq!(next_letterbox(Some(&"On".to_string())), "on");
    assert_eq!(next_letterbox(None), "on");
    let mut v = "off".to_string();
    for _ in 0..3 {
        v = next_letterbox(Some(&v));
    }
    assert_eq!(v, "off");
}

#[test]
fn file_locations() {
    assert_eq!(config_dir("./ruffle"), "./ruffle/config");
    assert_eq!(config_file_path("./ruffle", "game"), "./ruffle/config/game.ron");
    assert_eq!(swf_path("ux0:data/ruffle", "game"), "ux0:data/ruffle/swf/game.swf");
    assert_eq!(swf_url("ux0:data/ruffle", "game"), "file:///ux0:data/ruffle/game.swf");
    assert_eq!(storage_path("/switch/ruffle"), "/switch/ruffle/storage");
}

#[test]
fn bindings_survive_a_round_trip_through_pairs() {
    let mut b = KeyBindings::new();
    b.insert("south".to_string(), 65);
    b.insert("dpad-up".to_string(), 38);
    b.insert("select".to_string(), 27);
    b.remove(&"dpad-up".to_string());
    let back = KeyBindings::from_pairs(b.to_pairs());
    for key in ["south", "dpad-up", "select", "north"] {
        assert_eq!(back.get(&key.to_string()), b.get(&key.to_string()));
    }
}
