//! Scrolling of the lists both menus show.
use vstd::prelude::*;

verus! {

/// How many rows of a list fit on the screen.
pub const MAX_VISIBLE: usize = 26;

/// How far the left stick must be pushed to move through a list.
pub const MENU_DEADZONE: i32 = 16000;

/// The first visible row after the cursor moved to `sel`: unchanged when
/// `sel` is on screen, else the least scrolling that brings it on screen.
pub open spec fn scroll_to_show(sel: int, off: int) -> int {
    if sel < off {
        sel
    } else if sel >= off + MAX_VISIBLE {
        sel - MAX_VISIBLE + 1
    } else {
        off
    }
}

/// After scrolling, the cursor is on screen, and scrolling moves no further
/// than that needs.
pub proof fn lemma_scroll_shows_cursor(sel: int, off: int)
    requires
        0 <= sel,
        0 <= off,
    ensures
        scroll_to_show(sel, off) <= sel < scroll_to_show(sel, off) + MAX_VISIBLE,
        off <= sel < off + MAX_VISIBLE ==> scroll_to_show(sel, off) == off,
{
}

/// What a row of a list shows, which decides how it is drawn.
#[derive(Clone, Copy, Debug, PartialEq, Eq, Structural)]
pub enum RowKind {
    /// A game of the game list.
    Game,
    /// "Save and Return".
    Save,
    /// A setting: the letterbox mode or a button binding.
    Setting,
    /// The heading of the button bindings.
    Header,
    /// A keyboard key of the key picker.
    Key,
    /// "[Clear Binding]" in the key picker.
    ClearBinding,
}

/// A row of a list on screen.
pub struct ListRow {
    pub label: String,
    pub kind: RowKind,
    /// Whether the cursor is on this row.
    pub selected: bool,
}

/// The last visible row, exclusive, of a list of `len` rows whose first
/// visible row is `off`.
pub open spec fn visible_end(off: int, len: int) -> int {
    if off + MAX_VISIBLE < len {
        off + MAX_VISIBLE
    } else {
        len
    }
}

/// How many rows are on screen.
pub open spec fn visible_count(off: int, len: int) -> int {
    if visible_end(off, len) > off {
        visible_end(off, len) - off
    } else {
        0
    }
}

} // verus!
