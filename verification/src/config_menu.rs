//! The per-game configuration menu: a list of items (save, letterbox, one
//! item per bindable gamepad button) and a key picker that binds a button to a
//! keyboard key.
use vstd::prelude::*;
use crate::config::{
    Config,
    opt_string_text,
    next_letterbox_spec,
    next_letterbox,
    letterbox_display,
    letterbox_display_spec,
};
use crate::input::{Axis, Button};
use crate::paths::config_file_path;
use crate::list::{MAX_VISIBLE, MENU_DEADZONE, scroll_to_show, ListRow, RowKind, visible_count};
use crate::keys::{
    lemma_picked_key_displays_its_name,
    KEYBOARD_KEY_COUNT,
    GAMEPAD_BUTTON_COUNT,
    keyboard_key,
    keyboard_key_code,
    keyboard_key_name,
    gamepad_button,
    gamepad_button_key,
    gamepad_button_label,
    key_display_name,
    key_display_name_spec,
};

verus! {

/// The row of the "Gamepad Buttons" heading, which cannot be selected.
pub const HEADER_INDEX: usize = 2;

/// The row of the first gamepad button.
pub const GAMEPAD_START: usize = 3;

/// How many rows the main list has.
pub const CONFIG_ITEM_COUNT: usize = 15;

/// A row of the main list that the cursor may rest on.
pub open spec fn valid_item(s: int) -> bool {
    0 <= s < CONFIG_ITEM_COUNT && s != HEADER_INDEX
}

/// The row above `s`, skipping the heading and wrapping from the top to the bottom.
pub open spec fn item_above(s: int) -> int {
    if s > 0 {
        if s - 1 == HEADER_INDEX {
            s - 2
        } else {
            s - 1
        }
    } else {
        CONFIG_ITEM_COUNT - 1
    }
}

/// The row below `s`, skipping the heading and wrapping from the bottom to the top.
pub open spec fn item_below(s: int) -> int {
    let t = if s + 1 == HEADER_INDEX {
        s + 2
    } else {
        s + 1
    };
    if t >= CONFIG_ITEM_COUNT {
        0
    } else {
        t
    }
}

/// Ten rows up, stopping at the top and stepping over the heading.
pub open spec fn item_page_up(s: int) -> int {
    let t = if s >= 10 {
        s - 10
    } else {
        0
    };
    if t == HEADER_INDEX {
        t - 1
    } else {
        t
    }
}

/// Ten rows down, stopping at the bottom and stepping over the heading.
pub open spec fn item_page_down(s: int) -> int {
    let t = if s + 10 < CONFIG_ITEM_COUNT - 1 {
        s + 10
    } else {
        CONFIG_ITEM_COUNT - 1
    };
    if t == HEADER_INDEX {
        GAMEPAD_START as int
    } else {
        t
    }
}

/// The key picker's entry above `k`: the keys, then "clear binding", wrapping around.
pub open spec fn key_above(k: int) -> int {
    if k > 0 {
        k - 1
    } else {
        KEYBOARD_KEY_COUNT as int
    }
}

/// The key picker's entry below `k`, wrapping around.
pub open spec fn key_below(k: int) -> int {
    (k + 1) % (KEYBOARD_KEY_COUNT + 1)
}

/// The key code bound to gamepad button `i` in `cfg`, 0 when it is unbound.
pub open spec fn binding_of(cfg: Config, i: int) -> u32 {
    let k = gamepad_button_key(i);
    if cfg.gamepad_config@.contains_key(k) {
        cfg.gamepad_config@[k]
    } else {
        0
    }
}

/// The text of row `i` of the main list.
pub open spec fn config_row_label(cfg: Config, i: int) -> Seq<char> {
    if i == 0 {
        "Save and Return"@
    } else if i == 1 {
        "Letterbox: "@ + letterbox_display_spec(opt_string_text(cfg.letterbox))
    } else if i == HEADER_INDEX {
        "    Gamepad Buttons"@
    } else {
        gamepad_button_label(i - GAMEPAD_START) + ": ["@ + key_display_name_spec(
            binding_of(cfg, i - GAMEPAD_START),
        ) + "]"@
    }
}

/// What row `i` of the main list is.
pub open spec fn config_row_kind(i: int) -> RowKind {
    if i == 0 {
        RowKind::Save
    } else if i == HEADER_INDEX {
        RowKind::Header
    } else {
        RowKind::Setting
    }
}

/// The text of entry `i` of the key picker.
pub open spec fn picker_row_label(i: int) -> Seq<char> {
    if i < KEYBOARD_KEY_COUNT {
        keyboard_key_name(i)
    } else {
        "[Clear Binding]"@
    }
}

/// `new` is `old` after one step down: in the key picker its cursor moves
/// down an entry, otherwise the main list's cursor moves down a row, and the
/// list scrolls to show it; nothing else changes.
pub open spec fn stepped_down(old: &ConfigMenu, new: &ConfigMenu) -> bool {
    if old.picking() is Some {
        &&& new.key_cursor() == key_below(old.key_cursor())
        &&& new.key_scroll() == scroll_to_show(new.key_cursor(), old.key_scroll())
        &&& new.same_but_key_cursor(old)
    } else {
        &&& new.cursor() == item_below(old.cursor())
        &&& new.scroll() == scroll_to_show(new.cursor(), old.scroll())
        &&& new.same_but_main_cursor(old)
    }
}

/// `new` is `old` after one step up, in the key picker or in the main list.
pub open spec fn stepped_up(old: &ConfigMenu, new: &ConfigMenu) -> bool {
    if old.picking() is Some {
        &&& new.key_cursor() == key_above(old.key_cursor())
        &&& new.key_scroll() == scroll_to_show(new.key_cursor(), old.key_scroll())
        &&& new.same_but_key_cursor(old)
    } else {
        &&& new.cursor() == item_above(old.cursor())
        &&& new.scroll() == scroll_to_show(new.cursor(), old.scroll())
        &&& new.same_but_main_cursor(old)
    }
}

/// What the configuration menu asks of its caller.
#[derive(Clone, Copy, Debug, PartialEq, Eq, Structural)]
pub enum ConfigAction {
    /// Save the configuration and go back to the game list.
    BackToMenu,
}

/// The configuration menu of one game.
pub struct ConfigMenu {
    pub swf_name: String,
    pub config: Config,
    base_path: String,
    pub selected: usize,
    scroll_offset: usize,
    pub selecting_key: Option<usize>,
    key_selected: usize,
    key_scroll_offset: usize,
}

impl ConfigMenu {
    /// The game the menu configures.
    pub closed spec fn swf(&self) -> String {
        self.swf_name
    }

    /// The configuration being edited.
    pub closed spec fn cfg(&self) -> Config {
        self.config
    }

    /// The highlighted row of the main list.
    pub closed spec fn cursor(&self) -> int {
        self.selected as int
    }

    /// The gamepad button being bound, while the key picker is open.
    pub closed spec fn picking(&self) -> Option<usize> {
        self.selecting_key
    }

    /// The first visible row of the main list.
    pub closed spec fn scroll(&self) -> int {
        self.scroll_offset as int
    }

    /// The highlighted entry of the key picker.
    pub closed spec fn key_cursor(&self) -> int {
        self.key_selected as int
    }

    /// The first visible entry of the key picker.
    pub closed spec fn key_scroll(&self) -> int {
        self.key_scroll_offset as int
    }

    /// Where the game's files are.
    pub closed spec fn base(&self) -> Seq<char> {
        self.base_path@
    }

    /// The menu's positions are consistent: the picker's cursor is one of its
    /// entries and on screen, and the main list can still scroll.
    pub closed spec fn wf(&self) -> bool {
        &&& self.scroll_offset <= usize::MAX - MAX_VISIBLE
        &&& self.key_selected <= KEYBOARD_KEY_COUNT
        &&& self.key_scroll_offset <= self.key_selected < self.key_scroll_offset + MAX_VISIBLE
    }

    /// `self` and `other` differ at most in the main list's cursor and scroll.
    pub open spec fn same_but_main_cursor(&self, other: &ConfigMenu) -> bool {
        &&& self.swf() == other.swf()
        &&& self.cfg() == other.cfg()
        &&& self.base() == other.base()
        &&& self.picking() == other.picking()
        &&& self.key_cursor() == other.key_cursor()
        &&& self.key_scroll() == other.key_scroll()
    }

    /// `self` and `other` differ at most in the picker's cursor and scroll.
    pub open spec fn same_but_key_cursor(&self, other: &ConfigMenu) -> bool {
        &&& self.swf() == other.swf()
        &&& self.cfg() == other.cfg()
        &&& self.base() == other.base()
        &&& self.picking() == other.picking()
        &&& self.cursor() == other.cursor()
        &&& self.scroll() == other.scroll()
    }

    /// `self` and `other` show the same menu in the same position; only the
    /// configuration and which button is being bound may differ.
    pub open spec fn same_position(&self, other: &ConfigMenu) -> bool {
        &&& self.swf() == other.swf()
        &&& self.base() == other.base()
        &&& self.cursor() == other.cursor()
        &&& self.scroll() == other.scroll()
        &&& self.key_cursor() == other.key_cursor()
        &&& self.key_scroll() == other.key_scroll()
    }

    /// `self` and `other` are the same menu.
    pub open spec fn same(&self, other: &ConfigMenu) -> bool {
        &&& self.same_position(other)
        &&& self.cfg() == other.cfg()
        &&& self.picking() == other.picking()
    }

    /// A fresh menu for `swf_name`, the cursor on "Save and Return".
    pub fn new(swf_name: String, config: Config, base_path: &str) -> (r: Self)
        ensures
            r.wf(),
            r.swf() == swf_name,
            r.cfg() == config,
            r.base() == base_path@,
            r.cursor() == 0,
            r.scroll() == 0,
            r.picking() is None,
            r.key_cursor() == 0,
            r.key_scroll() == 0,
    {
        ConfigMenu {
            swf_name,
            config,
            base_path: String::from_str(base_path),
            selected: 0,
            scroll_offset: 0,
            selecting_key: None,
            key_selected: 0,
            key_scroll_offset: 0,
        }
    }

    /// The game the menu configures.
    pub fn swf_name(&self) -> (r: &String)
        ensures
            *r == self.swf(),
    {
        &self.swf_name
    }

    /// The configuration being edited.
    pub fn config(&self) -> (r: &Config)
        ensures
            *r == self.cfg(),
    {
        &self.config
    }

    /// Replaces the configuration being edited.
    pub fn set_config(&mut self, config: Config)
        ensures
            final(self).cfg() == config,
            final(self).same_position(old(self)),
            final(self).picking() == old(self).picking(),
            old(self).wf() ==> final(self).wf(),
    {
        self.config = config;
    }

    /// The highlighted row of the main list.
    pub fn selected(&self) -> (r: usize)
        ensures
            r == self.cursor(),
    {
        self.selected
    }

    /// Moves the main list's cursor to row `row`, without scrolling.
    pub fn set_selected(&mut self, row: usize)
        ensures
            final(self).cursor() == row,
            final(self).scroll() == old(self).scroll(),
            final(self).same_but_main_cursor(old(self)),
            old(self).wf() ==> final(self).wf(),
    {
        self.selected = row;
    }

    /// The gamepad button being bound, while the key picker is open.
    pub fn selecting_key(&self) -> (r: Option<usize>)
        ensures
            r == self.picking(),
    {
        self.selecting_key
    }

    /// Opens the key picker for gamepad button `b`, or closes it (`None`),
    /// leaving the picker's cursor where it is.
    pub fn set_selecting_key(&mut self, b: Option<usize>)
        ensures
            final(self).picking() == b,
            final(self).same_position(old(self)),
            final(self).cfg() == old(self).cfg(),
            old(self).wf() ==> final(self).wf(),
    {
        self.selecting_key = b;
    }

    /// The first visible row of the main list.
    pub fn scroll_offset(&self) -> (r: usize)
        ensures
            r == self.scroll(),
    {
        self.scroll_offset
    }

    /// The highlighted entry of the key picker.
    pub fn key_selected(&self) -> (r: usize)
        ensures
            r == self.key_cursor(),
    {
        self.key_selected
    }

    /// The first visible entry of the key picker.
    pub fn key_scroll_offset(&self) -> (r: usize)
        ensures
            r == self.key_scroll(),
    {
        self.key_scroll_offset
    }

    /// Where the game's files are.
    pub fn base_path(&self) -> (r: &String)
        ensures
            r@ == self.base(),
    {
        &self.base_path
    }

    /// The file this menu's configuration is saved to.
    pub fn config_file(&self) -> (r: String)
        ensures
            r@ == self.base() + "/config"@ + "/"@ + self.swf()@ + ".ron"@,
    {
        config_file_path(self.base_path.as_str(), self.swf_name.as_str())
    }

    /// The title of the main list.
    pub fn title(&self) -> (r: String)
        ensures
            r@ == "Config: "@ + self.swf()@,
    {
        let mut t = String::from_str("Config: ");
        t.append(self.swf_name.as_str());
        t
    }

    /// The title of the key picker for gamepad button `btn_idx`.
    pub fn picker_title(btn_idx: usize) -> (r: String)
        requires
            btn_idx < GAMEPAD_BUTTON_COUNT,
        ensures
            r@ == "Key for "@ + gamepad_button_label(btn_idx as int) + ":"@,
    {
        let (label, _) = gamepad_button(btn_idx);
        let mut t = String::from_str("Key for ");
        t.append(label);
        t.append(":");
        t
    }

    /// Row `i` of the main list.
    fn main_row(&self, i: usize) -> (r: ListRow)
        requires
            i < CONFIG_ITEM_COUNT,
        ensures
            r.label@ == config_row_label(self.cfg(), i as int),
            r.kind == config_row_kind(i as int),
            r.selected == (i == self.selected && i != HEADER_INDEX),
    {
        let selected = i == self.selected && i != HEADER_INDEX;
        if i == 0 {
            ListRow { label: String::from_str("Save and Return"), kind: RowKind::Save, selected }
        } else if i == 1 {
            let mut label = String::from_str("Letterbox: ");
            label.append(letterbox_display(self.config.letterbox.as_ref()));
            ListRow { label, kind: RowKind::Setting, selected }
        } else if i == HEADER_INDEX {
            ListRow {
                label: String::from_str("    Gamepad Buttons"),
                kind: RowKind::Header,
                selected,
            }
        } else {
            let (display_name, key_name) = gamepad_button(i - GAMEPAD_START);
            let current = match self.config.gamepad_config.get(&String::from_str(key_name)) {
                Some(c) => c,
                None => 0,
            };
            let mut label = String::from_str(display_name);
            label.append(": [");
            label.append(key_display_name(current).as_str());
            label.append("]");
            ListRow { label, kind: RowKind::Setting, selected }
        }
    }

    /// The rows of the main list on screen. The cursor is never shown on the
    /// heading.
    pub fn main_rows(&self) -> (r: Vec<ListRow>)
        requires
            self.wf(),
        ensures
            r@.len() == visible_count(self.scroll(), CONFIG_ITEM_COUNT as int),
            forall|k: int|
                0 <= k < r@.len() ==> {
                    let i = self.scroll() + k;
                    &&& (#[trigger] r@[k]).label@ == config_row_label(self.cfg(), i)
                    &&& r@[k].kind == config_row_kind(i)
                    &&& r@[k].selected == (i == self.cursor() && i != HEADER_INDEX)
                },
    {
        let mut rows: Vec<ListRow> = Vec::new();
        let wanted = self.scroll_offset + MAX_VISIBLE;
        let end = if wanted < CONFIG_ITEM_COUNT {
            wanted
        } else {
            CONFIG_ITEM_COUNT
        };
        let mut i = self.scroll_offset;
        while i < end
            invariant
                self.scroll_offset <= i,
                i <= end || i == self.scroll_offset,
                end <= CONFIG_ITEM_COUNT,
                end == if self.scroll_offset + MAX_VISIBLE < CONFIG_ITEM_COUNT {
                    self.scroll_offset + MAX_VISIBLE
                } else {
                    CONFIG_ITEM_COUNT as int
                },
                rows@.len() == i - self.scroll_offset,
                forall|k: int|
                    0 <= k < rows@.len() ==> {
                        let j = self.scroll_offset + k;
                        &&& (#[trigger] rows@[k]).label@ == config_row_label(self.config, j)
                        &&& rows@[k].kind == config_row_kind(j)
                        &&& rows@[k].selected == (j == self.selected && j != HEADER_INDEX)
                    },
            decreases end - i,
        {
            rows.push(self.main_row(i));
            i = i + 1;
        }
        rows
    }

    /// The entries of the key picker on screen.
    pub fn picker_rows(&self) -> (r: Vec<ListRow>)
        requires
            self.wf(),
        ensures
            r@.len() == visible_count(self.key_scroll(), KEYBOARD_KEY_COUNT + 1),
            forall|k: int|
                0 <= k < r@.len() ==> {
                    let i = self.key_scroll() + k;
                    &&& (#[trigger] r@[k]).label@ == picker_row_label(i)
                    &&& r@[k].kind == (if i < KEYBOARD_KEY_COUNT {
                        RowKind::Key
                    } else {
                        RowKind::ClearBinding
                    })
                    &&& r@[k].selected == (i == self.key_cursor())
                },
    {
        let mut rows: Vec<ListRow> = Vec::new();
        let total = KEYBOARD_KEY_COUNT + 1;
        let wanted = self.key_scroll_offset + MAX_VISIBLE;
        let end = if wanted < total {
            wanted
        } else {
            total
        };
        let mut i = self.key_scroll_offset;
        while i < end
            invariant
                self.key_scroll_offset <= i,
                i <= end || i == self.key_scroll_offset,
                total == KEYBOARD_KEY_COUNT + 1,
                end <= total,
                end == if self.key_scroll_offset + MAX_VISIBLE < total {
                    self.key_scroll_offset + MAX_VISIBLE
                } else {
                    total as int
                },
                rows@.len() == i - self.key_scroll_offset,
                forall|k: int|
                    0 <= k < rows@.len() ==> {
                        let j = self.key_scroll_offset + k;
                        &&& (#[trigger] rows@[k]).label@ == picker_row_label(j)
                        &&& rows@[k].kind == (if j < KEYBOARD_KEY_COUNT {
                            RowKind::Key
                        } else {
                            RowKind::ClearBinding
                        })
                        &&& rows@[k].selected == (j == self.key_selected)
                    },
            decreases end - i,
        {
            let selected = i == self.key_selected;
            if i < KEYBOARD_KEY_COUNT {
                let (name, _) = keyboard_key(i);
                rows.push(ListRow { label: String::from_str(name), kind: RowKind::Key, selected });
            } else {
                rows.push(
                    ListRow {
                        label: String::from_str("[Clear Binding]"),
                        kind: RowKind::ClearBinding,
                        selected,
                    },
                );
            }
            i = i + 1;
        }
        rows
    }

    fn clamp_scroll(&mut self)
        requires
            old(self).wf(),
            old(self).cursor() < usize::MAX,
        ensures
            final(self).wf(),
            final(self).scroll() == scroll_to_show(old(self).cursor(), old(self).scroll()),
            final(self).same_but_main_cursor(old(self)),
            final(self).cursor() == old(self).cursor(),
    {
        if self.selected < self.scroll_offset {
            self.scroll_offset = self.selected;
        } else if self.selected >= self.scroll_offset + MAX_VISIBLE {
            self.scroll_offset = self.selected - MAX_VISIBLE + 1;
        }
    }

    fn clamp_key_scroll(&mut self)
        requires
            old(self).key_selected <= KEYBOARD_KEY_COUNT,
            old(self).scroll_offset <= usize::MAX - MAX_VISIBLE,
            old(self).key_scroll_offset <= KEYBOARD_KEY_COUNT,
        ensures
            final(self).wf(),
            final(self).key_scroll() == scroll_to_show(old(self).key_cursor(), old(self).key_scroll()),
            final(self).same_but_key_cursor(old(self)),
            final(self).key_cursor() == old(self).key_cursor(),
    {
        if self.key_selected < self.key_scroll_offset {
            self.key_scroll_offset = self.key_selected;
        } else if self.key_selected >= self.key_scroll_offset + MAX_VISIBLE {
            self.key_scroll_offset = self.key_selected - MAX_VISIBLE + 1;
        }
    }

    /// Moves the picker's cursor up one entry.
    fn key_up(&mut self)
        requires
            old(self).wf(),
        ensures
            final(self).wf(),
            final(self).key_cursor() == key_above(old(self).key_cursor()),
            final(self).key_scroll() == scroll_to_show(final(self).key_cursor(), old(self).key_scroll()),
            final(self).same_but_key_cursor(old(self)),
    {
        if self.key_selected > 0 {
            self.key_selected = self.key_selected - 1;
        } else {
            self.key_selected = KEYBOARD_KEY_COUNT;
        }
        self.clamp_key_scroll();
    }

    /// Moves the picker's cursor down one entry.
    fn key_down(&mut self)
        requires
            old(self).wf(),
        ensures
            final(self).wf(),
            final(self).key_cursor() == key_below(old(self).key_cursor()),
            final(self).key_scroll() == scroll_to_show(final(self).key_cursor(), old(self).key_scroll()),
            final(self).same_but_key_cursor(old(self)),
    {
        self.key_selected = (self.key_selected + 1) % (KEYBOARD_KEY_COUNT + 1);
        self.clamp_key_scroll();
    }

    /// Moves the main list's cursor up one row.
    fn item_up(&mut self)
        requires
            old(self).wf(),
        ensures
            final(self).wf(),
            final(self).cursor() == item_above(old(self).cursor()),
            final(self).scroll() == scroll_to_show(final(self).cursor(), old(self).scroll()),
            final(self).same_but_main_cursor(old(self)),
    {
        if self.selected > 0 {
            self.selected = self.selected - 1;
            if self.selected == HEADER_INDEX {
                self.selected = self.selected - 1;
            }
        } else {
            self.selected = CONFIG_ITEM_COUNT - 1;
        }
        self.clamp_scroll();
    }

    /// Moves the main list's cursor down one row.
    fn item_down(&mut self)
        requires
            old(self).wf(),
            old(self).cursor() < usize::MAX,
        ensures
            final(self).wf(),
            final(self).cursor() == item_below(old(self).cursor()),
            final(self).scroll() == scroll_to_show(final(self).cursor(), old(self).scroll()),
            final(self).same_but_main_cursor(old(self)),
    {
        self.selected = self.selected + 1;
        if self.selected == HEADER_INDEX {
            self.selected = self.selected + 1;
        }
        if self.selected >= CONFIG_ITEM_COUNT {
            self.selected = 0;
        }
        self.clamp_scroll();
    }

    /// Handles a button of the key picker for gamepad button `btn_idx`.
    fn handle_key_picker(&mut self, button: Button, btn_idx: usize) -> (r: Option<ConfigAction>)
        requires
            old(self).wf(),
            button == Button::A ==> btn_idx < GAMEPAD_BUTTON_COUNT,
        ensures
            final(self).wf(),
            r is None,
            match button {
                Button::DPadUp => {
                    &&& final(self).key_cursor() == key_above(old(self).key_cursor())
                    &&& final(self).key_scroll() == scroll_to_show(
                        final(self).key_cursor(),
                        old(self).key_scroll(),
                    )
                    &&& final(self).same_but_key_cursor(old(self))
                },
                Button::DPadDown => {
                    &&& final(self).key_cursor() == key_below(old(self).key_cursor())
                    &&& final(self).key_scroll() == scroll_to_show(
                        final(self).key_cursor(),
                        old(self).key_scroll(),
                    )
                    &&& final(self).same_but_key_cursor(old(self))
                },
                Button::A => {
                    &&& final(self).same_position(old(self))
                    &&& final(self).picking() is None
                    &&& final(self).cfg().letterbox == old(self).cfg().letterbox
                    &&& final(self).cfg().gamepad_config@ == (if old(self).key_cursor()
                        < KEYBOARD_KEY_COUNT {
                        old(self).cfg().gamepad_config@.insert(
                            gamepad_button_key(btn_idx as int),
                            keyboard_key_code(old(self).key_cursor()),
                        )
                    } else {
                        old(self).cfg().gamepad_config@.remove(gamepad_button_key(btn_idx as int))
                    })
                },
                Button::B => {
                    &&& final(self).same_position(old(self))
                    &&& final(self).picking() is None
                    &&& final(self).cfg() == old(self).cfg()
                },
                _ => final(self).same(old(self)),
            },
    {
        match button {
            Button::DPadUp => {
                self.key_up();
            },
            Button::DPadDown => {
                self.key_down();
            },
            Button::A => {
                let (_, key_name) = gamepad_button(btn_idx);
                if self.key_selected < KEYBOARD_KEY_COUNT {
                    let (_, kc) = keyboard_key(self.key_selected);
                    self.config.gamepad_config.insert(String::from_str(key_name), kc);
                } else {
                    self.config.gamepad_config.remove(&String::from_str(key_name));
                }
                self.selecting_key = None;
            },
            Button::B => {
                self.selecting_key = None;
            },
            _ => {},
        }
        None
    }

    /// Handles a controller button. While a button is being bound the key
    /// picker takes it; otherwise the D-pad moves through the list, Cross
    /// activates the highlighted row and Triangle restores the defaults.
    /// `BackToMenu` comes back exactly when "Save and Return" is activated:
    /// the caller then saves the configuration.
    pub fn handle_button(&mut self, is_down: bool, button: Button) -> (r: Option<ConfigAction>)
        requires
            old(self).wf(),
            is_down && old(self).picking() is None && button == Button::DPadDown
                ==> old(self).cursor() < usize::MAX,
            is_down && old(self).picking() is None && button == Button::DPadRight
                ==> old(self).cursor() <= usize::MAX - 10,
            is_down && button == Button::A && old(self).picking() is Some
                ==> old(self).picking().unwrap() < GAMEPAD_BUTTON_COUNT,
        ensures
            final(self).wf(),
            valid_item(old(self).cursor()) ==> valid_item(final(self).cursor()),
            (r == Some(ConfigAction::BackToMenu)) == (is_down && old(self).picking() is None
                && button == Button::A && old(self).cursor() == 0),
            r is Some ==> final(self).same(old(self)),
            is_down && button == Button::DPadDown ==> stepped_down(old(self), final(self)),
            is_down && button == Button::DPadUp ==> stepped_up(old(self), final(self)),
            !is_down ==> r is None && final(self).same(old(self)),
            is_down && old(self).picking() is Some ==> {
                &&& r is None
                &&& match button {
                    Button::DPadUp => {
                        &&& final(self).key_cursor() == key_above(old(self).key_cursor())
                        &&& final(self).key_scroll() == scroll_to_show(
                            final(self).key_cursor(),
                            old(self).key_scroll(),
                        )
                        &&& final(self).same_but_key_cursor(old(self))
                    },
                    Button::DPadDown => {
                        &&& final(self).key_cursor() == key_below(old(self).key_cursor())
                        &&& final(self).key_scroll() == scroll_to_show(
                            final(self).key_cursor(),
                            old(self).key_scroll(),
                        )
                        &&& final(self).same_but_key_cursor(old(self))
                    },
                    Button::A => {
                        &&& final(self).same_position(old(self))
                        &&& final(self).picking() is None
                        &&& final(self).cfg().letterbox == old(self).cfg().letterbox
                        &&& final(self).cfg().gamepad_config@ == (if old(self).key_cursor()
                            < KEYBOARD_KEY_COUNT {
                            old(self).cfg().gamepad_config@.insert(
                                gamepad_button_key(old(self).picking().unwrap() as int),
                                keyboard_key_code(old(self).key_cursor()),
                            )
                        } else {
                            old(self).cfg().gamepad_config@.remove(gamepad_button_key(old(self).picking().unwrap() as int))
                        })
                    },
                    Button::B => {
                        &&& final(self).same_position(old(self))
                        &&& final(self).picking() is None
                        &&& final(self).cfg() == old(self).cfg()
                    },
                    _ => final(self).same(old(self)),
                }
            },
            is_down && old(self).picking() is None ==> match button {
                Button::DPadUp => {
                    &&& r is None
                    &&& final(self).cursor() == item_above(old(self).cursor())
                    &&& final(self).scroll() == scroll_to_show(
                        final(self).cursor(),
                        old(self).scroll(),
                    )
                    &&& final(self).same_but_main_cursor(old(self))
                },
                Button::DPadDown => {
                    &&& r is None
                    &&& final(self).cursor() == item_below(old(self).cursor())
                    &&& final(self).scroll() == scroll_to_show(
                        final(self).cursor(),
                        old(self).scroll(),
                    )
                    &&& final(self).same_but_main_cursor(old(self))
                },
                Button::DPadLeft => {
                    &&& r is None
                    &&& final(self).cursor() == item_page_up(old(self).cursor())
                    &&& final(self).scroll() == scroll_to_show(
                        final(self).cursor(),
                        old(self).scroll(),
                    )
                    &&& final(self).same_but_main_cursor(old(self))
                },
                Button::DPadRight => {
                    &&& r is None
                    &&& final(self).cursor() == item_page_down(old(self).cursor())
                    &&& final(self).scroll() == scroll_to_show(
                        final(self).cursor(),
                        old(self).scroll(),
                    )
                    &&& final(self).same_but_main_cursor(old(self))
                },
                Button::A => if old(self).cursor() == 0 {
                    r == Some(ConfigAction::BackToMenu) && final(self).same(old(self))
                } else if old(self).cursor() == 1 {
                    &&& r is None
                    &&& final(self).same_position(old(self))
                    &&& final(self).picking() == old(self).picking()
                    &&& final(self).cfg().gamepad_config == old(self).cfg().gamepad_config
                    &&& final(self).cfg().letterbox matches Some(l) && l@ == next_letterbox_spec(
                        opt_string_text(old(self).cfg().letterbox),
                    )
                } else if old(self).cursor() >= GAMEPAD_START && old(self).cursor() - GAMEPAD_START
                    < GAMEPAD_BUTTON_COUNT {
                    &&& r is None
                    &&& final(self).picking() == Some((old(self).cursor() - GAMEPAD_START) as usize)
                    &&& final(self).key_cursor() == 0
                    &&& final(self).key_scroll() == 0
                    &&& final(self).swf() == old(self).swf()
                    &&& final(self).base() == old(self).base()
                    &&& final(self).cfg() == old(self).cfg()
                    &&& final(self).cursor() == old(self).cursor()
                    &&& final(self).scroll() == old(self).scroll()
                } else {
                    r is None && final(self).same(old(self))
                },
                Button::Y => {
                    &&& r is None
                    &&& final(self).same_position(old(self))
                    &&& final(self).picking() == old(self).picking()
                    &&& final(self).cfg().gamepad_config@ == Map::<Seq<char>, u32>::empty()
                    &&& final(self).cfg().letterbox matches Some(l) && l@ == "on"@
                },
                _ => r is None && final(self).same(old(self)),
            },
    {
        proof {
            if valid_item(self.cursor()) {
                lemma_item_moves_stay_valid(self.cursor());
            }
        }
        if !is_down {
            return None;
        }
        if let Some(btn_idx) = self.selecting_key {
            return self.handle_key_picker(button, btn_idx);
        }
        match button {
            Button::DPadUp => {
                self.item_up();
            },
            Button::DPadDown => {
                self.item_down();
            },
            Button::DPadLeft => {
                self.selected = self.selected.saturating_sub(10);
                if self.selected == HEADER_INDEX {
                    self.selected = self.selected.saturating_sub(1);
                }
                self.clamp_scroll();
            },
            Button::DPadRight => {
                let t = self.selected + 10;
                self.selected = if t < CONFIG_ITEM_COUNT - 1 {
                    t
                } else {
                    CONFIG_ITEM_COUNT - 1
                };
                if self.selected == HEADER_INDEX {
                    self.selected = GAMEPAD_START;
                }
                self.clamp_scroll();
            },
            Button::A => {
                if self.selected == 0 {
                    return Some(ConfigAction::BackToMenu);
                } else if self.selected == 1 {
                    self.config.letterbox = Some(next_letterbox(self.config.letterbox.as_ref()));
                } else if self.selected >= GAMEPAD_START {
                    let btn_idx = self.selected - GAMEPAD_START;
                    if btn_idx < GAMEPAD_BUTTON_COUNT {
                        self.selecting_key = Some(btn_idx);
                        self.key_selected = 0;
                        self.key_scroll_offset = 0;
                    }
                }
            },
            Button::Y => {
                self.config.gamepad_config.clear();
                self.config.letterbox = Some(String::from_str("on"));
            },
            _ => {},
        }
        None
    }

    /// Handles a motion of a controller axis: pushing the left stick up or
    /// down past the dead zone moves the cursor of the list on screen.
    pub fn handle_axis_motion(&mut self, axis: Axis, value: i32)
        requires
            old(self).wf(),
            old(self).picking() is None && axis == Axis::LeftY && value > MENU_DEADZONE
                ==> old(self).cursor() < usize::MAX,
        ensures
            final(self).wf(),
            valid_item(old(self).cursor()) ==> valid_item(final(self).cursor()),
            axis == Axis::LeftY && value > MENU_DEADZONE ==> stepped_down(old(self), final(self)),
            axis == Axis::LeftY && value < -MENU_DEADZONE ==> stepped_up(old(self), final(self)),
            axis == Axis::LeftY && value < -MENU_DEADZONE && old(self).picking() is Some ==> {
                &&& final(self).key_cursor() == key_above(old(self).key_cursor())
                &&& final(self).key_scroll() == scroll_to_show(
                    final(self).key_cursor(),
                    old(self).key_scroll(),
                )
                &&& final(self).same_but_key_cursor(old(self))
            },
            axis == Axis::LeftY && value > MENU_DEADZONE && old(self).picking() is Some ==> {
                &&& final(self).key_cursor() == key_below(old(self).key_cursor())
                &&& final(self).key_scroll() == scroll_to_show(
                    final(self).key_cursor(),
                    old(self).key_scroll(),
                )
                &&& final(self).same_but_key_cursor(old(self))
            },
            axis == Axis::LeftY && value < -MENU_DEADZONE && old(self).picking() is None ==> {
                &&& final(self).cursor() == item_above(old(self).cursor())
                &&& final(self).scroll() == scroll_to_show(
                    final(self).cursor(),
                    old(self).scroll(),
                )
                &&& final(self).same_but_main_cursor(old(self))
            },
            axis == Axis::LeftY && value > MENU_DEADZONE && old(self).picking() is None ==> {
                &&& final(self).cursor() == item_below(old(self).cursor())
                &&& final(self).scroll() == scroll_to_show(
                    final(self).cursor(),
                    old(self).scroll(),
                )
                &&& final(self).same_but_main_cursor(old(self))
            },
            !(axis == Axis::LeftY && (value < -MENU_DEADZONE || value > MENU_DEADZONE))
                ==> final(self).same(old(self)),
    {
        proof {
            if valid_item(self.cursor()) {
                lemma_item_moves_stay_valid(self.cursor());
            }
        }
        let left_y = match axis {
            Axis::LeftY => true,
            _ => false,
        };
        if self.selecting_key.is_some() {
            if left_y && value < -MENU_DEADZONE {
                self.key_up();
            } else if left_y && value > MENU_DEADZONE {
                self.key_down();
            }
        } else {
            if left_y && value < -MENU_DEADZONE {
                self.item_up();
            } else if left_y && value > MENU_DEADZONE {
                self.item_down();
            }
        }
    }
}

/// A step is determined by the menu it starts from: pushing the left stick
/// down (up) past the dead zone and pressing D-pad down (up) leave the same
/// menu, in the key picker and in the main list alike.
pub proof fn lemma_steps_are_determined(old: &ConfigMenu, a: &ConfigMenu, b: &ConfigMenu)
    ensures
        stepped_down(old, a) && stepped_down(old, b) ==> a.same(b),
        stepped_up(old, a) && stepped_up(old, b) ==> a.same(b),
{
}

/// Moving down then up, or up then down, comes back to the same row.
pub proof fn lemma_item_moves_undo(s: int)
    requires
        valid_item(s),
    ensures
        item_above(item_below(s)) == s,
        item_below(item_above(s)) == s,
{
}

/// The cursor of the main list never comes to rest on the heading or leaves
/// the list.
pub proof fn lemma_item_moves_stay_valid(s: int)
    requires
        valid_item(s),
    ensures
        valid_item(item_above(s)),
        valid_item(item_below(s)),
        valid_item(item_page_up(s)),
        valid_item(item_page_down(s)),
{
}

/// In the key picker, moving down then up, or up then down, comes back to
/// the same entry, and the cursor stays on one of the entries.
pub proof fn lemma_key_moves_undo(k: int)
    requires
        0 <= k <= KEYBOARD_KEY_COUNT,
    ensures
        key_above(key_below(k)) == k,
        key_below(key_above(k)) == k,
        0 <= key_above(k) <= KEYBOARD_KEY_COUNT,
        0 <= key_below(k) <= KEYBOARD_KEY_COUNT,
{
}

/// Binding gamepad button `b` to picker key `k` makes the button's row show
/// the key's name; clearing the binding makes it show "Not Set".
pub proof fn lemma_binding_row_shows_pick(
    before: Map<Seq<char>, u32>,
    cfg: Config,
    b: int,
    k: int,
)
    requires
        0 <= b < GAMEPAD_BUTTON_COUNT,
        0 <= k <= KEYBOARD_KEY_COUNT,
        cfg.gamepad_config@ == (if k < KEYBOARD_KEY_COUNT {
            before.insert(gamepad_button_key(b), keyboard_key_code(k))
        } else {
            before.remove(gamepad_button_key(b))
        }),
    ensures
        config_row_label(cfg, b + GAMEPAD_START) == gamepad_button_label(b) + ": ["@ + (if k
            < KEYBOARD_KEY_COUNT {
            keyboard_key_name(k)
        } else {
            "Not Set"@
        }) + "]"@,
{
    if k < KEYBOARD_KEY_COUNT {
        lemma_picked_key_displays_its_name(k);
    }
}

/// With the defaults restored, every button row shows "Not Set" and the
/// letterbox row shows "On".
pub proof fn lemma_default_rows(cfg: Config, i: int)
    requires
        cfg.gamepad_config@ == Map::<Seq<char>, u32>::empty(),
        cfg.letterbox matches Some(l) && l@ == "on"@,
        GAMEPAD_START <= i < CONFIG_ITEM_COUNT,
    ensures
        config_row_label(cfg, 1) == "Letterbox: "@ + "On"@,
        config_row_label(cfg, i) == gamepad_button_label(i - GAMEPAD_START) + ": ["@
            + "Not Set"@ + "]"@,
{
}

} // verus!
