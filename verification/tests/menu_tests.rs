use ruffle4consoles::input::{Axis, Button};
use ruffle4consoles::list::RowKind;
use ruffle4consoles::menu::{swf_stem, MenuAction, MenuState};

fn names(list: &[&str]) -> Vec<String> {
    list.iter().map(|s| s.to_string()).collect()
}

fn games(n: usize) -> MenuState {
    let list: Vec<String> = (0..n).map(|i| format!("game{:03}.swf", i)).collect();
    MenuState::new(list)
}

#[test]
fn stems_of_swf_files() {
    assert_eq!(swf_stem(&"game.swf".to_string()), Some("game".to_string()));
    assert_eq!(swf_stem(&"a.b.swf".to_string()), Some("a.b".to_string()));
    assert_eq!(swf_stem(&"a..swf".to_string()), Some("a.".to_string()));
    assert_eq!(swf_stem(&"..swf".to_string()), Some(".".to_string()));
    assert_eq!(swf_stem(&".swf".to_string()), None);
    assert_eq!(swf_stem(&"game.SWF".to_string()), None);
    assert_eq!(swf_stem(&"game.swf2".to_string()), None);
    assert_eq!(swf_stem(&"game".to_string()), None);
    assert_eq!(swf_stem(&"swf".to_string()), None);
    assert_eq!(swf_stem(&"game.".to_string()), None);
    assert_eq!(swf_stem(&"caf\u{e9}.swf".to_string()), Some("caf\u{e9}".to_string()));
}

#[test]
fn stems_agree_with_path() {
    for n in ["game.swf", "a.b.swf", "a..swf", "..swf", ".swf", "x.swf.txt", "noext", "tail.", ".hidden.swf"] {
        let p = std::path::Path::new(n);
        let expected = if p.extension().map_or(false, |e| e == "swf") {
            p.file_stem().and_then(|s| s.to_str()).map(|s| s.to_string())
        } else {
            None
        };
        assert_eq!(swf_stem(&n.to_string()), expected, "{}", n);
    }
}

#[test]
fn listing_keeps_swf_files_sorted() {
    let m = MenuState::new(names(&["zeta.swf", "readme.txt", "Alpha.swf", "beta.swf", "beta.swf.bak", "alpha.swf"]));
    assert_eq!(m.files, names(&["Alpha", "alpha", "beta", "zeta"]));
    assert_eq!(m.selected, 0);
    assert_eq!(m.scroll_offset, 0);
    assert_eq!(m.stub_timer(), None);
}

#[test]
fn empty_listing() {
    let mut m = MenuState::new(names(&["notes.txt"]));
    assert!(m.files.is_empty());
    assert!(!m.shows_hints());
    assert!(m.visible_rows().is_empty());
    assert_eq!(m.handle_button(true, Button::A), None);
    assert_eq!(m.handle_button(true, Button::DPadDown), None);
    assert_eq!(m.handle_button(true, Button::DPadUp), None);
    assert_eq!(m.selected, 0);
    assert_eq!(m.handle_button(true, Button::Y), None);
    assert_eq!(m.stub_timer(), None);
    assert_eq!(m.handle_button(true, Button::B), Some(MenuAction::Exit));
}

#[test]
fn refresh_reads_the_list_again() {
    let mut m = games(5);
    m.handle_button(true, Button::DPadDown);
    m.handle_button(true, Button::Y);
    m.refresh(names(&["b.swf", "a.swf"]));
    assert_eq!(m.files, names(&["a", "b"]));
    assert_eq!(m.selected, 0);
    assert_eq!(m.scroll_offset, 0);
    assert_eq!(m.stub_timer(), None);
}

#[test]
fn cross_launches_the_highlighted_game() {
    let mut m = games(3);
    m.handle_button(true, Button::DPadDown);
    assert_eq!(m.handle_button(true, Button::A), Some(MenuAction::Launch("game001".to_string())));
    assert_eq!(m.handle_button(false, Button::A), None);
}

#[test]
fn moving_wraps_around() {
    let mut m = games(3);
    m.handle_button(true, Button::DPadUp);
    assert_eq!(m.selected, 2);
    m.handle_button(true, Button::DPadDown);
    assert_eq!(m.selected, 0);
}

#[test]
fn paging_stops_at_the_ends_and_scrolls() {
    let mut m = games(40);
    m.handle_button(true, Button::DPadRight);
    m.handle_button(true, Button::DPadRight);
    assert_eq!(m.selected, 20);
    assert_eq!(m.scroll_offset, 0);
    m.handle_button(true, Button::DPadRight);
    assert_eq!(m.selected, 30);
    assert_eq!(m.scroll_offset, 5);
    m.handle_button(true, Button::DPadRight);
    assert_eq!(m.selected, 39);
    assert_eq!(m.scroll_offset, 14);
    m.handle_button(true, Button::DPadLeft);
    assert_eq!(m.selected, 29);
    assert_eq!(m.scroll_offset, 14);
    m.handle_button(true, Button::DPadLeft);
    m.handle_button(true, Button::DPadLeft);
    m.handle_button(true, Button::DPadLeft);
    assert_eq!(m.selected, 0);
    assert_eq!(m.scroll_offset, 0);
    m.handle_button(true, Button::DPadUp);
    assert_eq!(m.selected, 39);
    assert_eq!(m.scroll_offset, 14);
}

#[test]
fn up_then_down_returns_to_the_same_game() {
    for start in 0..7 {
        let mut m = games(7);
        m.set_position(start, m.scroll_offset());
        m.handle_button(true, Button::DPadUp);
        m.handle_button(true, Button::DPadDown);
        assert_eq!(m.selected, start);
    }
}

#[test]
fn triangle_note_is_dismissed_by_the_next_press() {
    let mut m = games(3);
    assert_eq!(m.handle_button(true, Button::Y), None);
    assert_eq!(m.stub_timer(), Some(0));
    assert!(!m.shows_hints());
    assert_eq!(m.handle_button(true, Button::A), None);
    assert_eq!(m.stub_timer(), None);
    assert_eq!(m.selected, 0);
    assert!(m.shows_hints());
}

#[test]
fn triangle_note_expires_after_two_seconds() {
    let mut m = games(2);
    m.handle_button(true, Button::Y);
    m.update_stub_timer(1500);
    assert_eq!(m.stub_timer(), Some(1500));
    m.update_stub_timer(499);
    assert_eq!(m.stub_timer(), Some(1999));
    m.update_stub_timer(1);
    assert_eq!(m.stub_timer(), None);
    m.update_stub_timer(5000);
    assert_eq!(m.stub_timer(), None);
}

#[test]
fn stick_moves_the_cursor() {
    let mut m = games(4);
    m.handle_axis_motion(Axis::LeftY, 20000);
    assert_eq!(m.selected, 1);
    m.handle_axis_motion(Axis::LeftY, -20000);
    m.handle_axis_motion(Axis::LeftY, -20000);
    assert_eq!(m.selected, 3);
    m.handle_axis_motion(Axis::LeftY, 100);
    m.handle_axis_motion(Axis::RightY, 30000);
    assert_eq!(m.selected, 3);
}

#[test]
fn visible_rows_follow_the_scroll() {
    let mut m = games(30);
    m.handle_button(true, Button::DPadUp);
    assert_eq!(m.selected, 29);
    assert_eq!(m.scroll_offset, 4);
    let rows = m.visible_rows();
    assert_eq!(rows.len(), 26);
    assert_eq!(rows[0].label, "game004.swf");
    assert_eq!(rows[25].label, "game029.swf");
    assert!(rows[25].selected);
    assert!(!rows[0].selected);
    assert_eq!(rows[0].kind, RowKind::Game);
}
