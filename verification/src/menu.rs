//! The game list: the `.swf` files found in the games directory, sorted by
//! name, with a cursor that the controller moves.
use vstd::prelude::*;
use crate::config::opt_string_text;
use crate::input::{Axis, Button};
use crate::list::{
    MAX_VISIBLE,
    MENU_DEADZONE,
    scroll_to_show,
    ListRow,
    RowKind,
    visible_count,
    lemma_scroll_shows_cursor,
};
use crate::text::{lex_lt, text_less, lemma_lex_transitive, lemma_lex_total, lemma_lex_asymmetric};

verus! {

/// How long, in milliseconds, the "not yet implemented" note stays up.
pub const STUB_DURATION_MS: u128 = 2000;

/// The texts of a list of strings.
pub open spec fn views(s: Seq<String>) -> Seq<Seq<char>> {
    s.map_values(|x: String| x@)
}

/// The texts are in ascending order.
pub open spec fn sorted(s: Seq<Seq<char>>) -> bool {
    forall|i: int, j: int| 0 <= i < j < s.len() ==> !lex_lt(s[j], s[i])
}

/// The position of the last `c` in `s`, or -1.
pub open spec fn last_index_of(s: Seq<char>, c: char) -> int
    decreases s.len(),
{
    if s.len() == 0 {
        -1
    } else if s.last() == c {
        s.len() - 1
    } else {
        last_index_of(s.drop_last(), c)
    }
}

/// The name of the game in file `name`: the file's stem when its extension
/// is `swf`. As with `Path`, the extension follows the last dot, and a name
/// whose only dot is its first character has none.
pub open spec fn swf_stem_spec(name: Seq<char>) -> Option<Seq<char>> {
    let i = last_index_of(name, '.');
    if i > 0 && name.subrange(i + 1, name.len() as int) == "swf"@ {
        Some(name.subrange(0, i))
    } else {
        None
    }
}

proof fn lemma_last_index_of(s: Seq<char>, c: char, k: int)
    requires
        -1 <= k < s.len(),
        k >= 0 ==> s[k] == c,
        forall|j: int| k < j < s.len() ==> s[j] != c,
    ensures
        last_index_of(s, c) == k,
    decreases s.len(),
{
    if s.len() > 0 && s.len() - 1 != k {
        assert(s.last() != c);
        lemma_last_index_of(s.drop_last(), c, k);
    }
}

/// The game named by file `name`, if it is a `.swf` file.
pub fn swf_stem(name: &String) -> (r: Option<String>)
    ensures
        opt_string_text(r) == swf_stem_spec(name@),
{
    let n = name.as_str().unicode_len();
    let mut i: usize = n;
    while i > 0 && name.as_str().get_char(i - 1) != '.'
        invariant
            i <= n,
            n == name@.len(),
            forall|j: int| i <= j < n ==> name@[j] != '.',
        decreases i,
    {
        i = i - 1;
    }
    if i == 0 {
        proof {
            lemma_last_index_of(name@, '.', -1);
        }
        return None;
    }
    let dot = i - 1;
    proof {
        lemma_last_index_of(name@, '.', dot as int);
        reveal_strlit("swf");
    }
    if dot == 0 {
        return None;
    }
    let ghost ext = name@.subrange(dot + 1, n as int);
    if n - dot == 4 && name.as_str().get_char(dot + 1) == 's' && name.as_str().get_char(dot + 2)
        == 'w' && name.as_str().get_char(dot + 3) == 'f' {
        assert(name@.subrange(dot + 1, n as int) =~= "swf"@);
        let stem = name.as_str().substring_char(0, dot);
        Some(String::from_str(stem))
    } else {
        assert(ext != "swf"@) by {
            if ext == "swf"@ {
                assert(ext.len() == 3);
                assert(ext[0] == name@[dot + 1]);
                assert(ext[1] == name@[dot + 2]);
                assert(ext[2] == name@[dot + 3]);
            }
        }
        None
    }
}

/// Every `.swf` file is a game, listed under the rest of its name whatever
/// its characters, and nothing else is: the stem of `s` followed by ".swf" is
/// `s` for every non-empty `s`, and a name only has a stem in that form.
pub proof fn lemma_swf_stem(s: Seq<char>, name: Seq<char>)
    ensures
        s.len() > 0 ==> swf_stem_spec(s + ".swf"@) == Some(s),
        swf_stem_spec(name) matches Some(stem) ==> stem.len() > 0 && name == stem + ".swf"@,
        swf_stem_spec(".swf"@) is None,
{
    reveal_strlit(".swf");
    reveal_strlit("swf");
    let n = s + ".swf"@;
    if s.len() > 0 {
        assert(n[s.len() as int] == '.');
        assert forall|j: int| s.len() < j < n.len() implies n[j] != '.' by {
            assert(n[j] == ".swf"@[j - s.len()]);
        }
        lemma_last_index_of(n, '.', s.len() as int);
        assert(n.subrange(s.len() as int + 1, n.len() as int) =~= "swf"@);
        assert(n.subrange(0, s.len() as int) =~= s);
    }
    if swf_stem_spec(name) is Some {
        let i = last_index_of(name, '.');
        lemma_last_index_of_is_dot(name, '.');
        let ext = name.subrange(i + 1, name.len() as int);
        assert(ext == "swf"@);
        assert(ext.len() == 3);
        assert(name.len() == i + 4);
        let whole = name.subrange(0, i) + ".swf"@;
        assert forall|j: int| 0 <= j < name.len() implies name[j] == whole[j] by {
            if j > i {
                assert(name[j] == ext[j - i - 1]);
                assert(".swf"@[j - i] == "swf"@[j - i - 1]);
            }
        }
        assert(name =~= whole);
    }
    assert(".swf"@[0] == '.');
    assert forall|j: int| 0 < j < 4 implies ".swf"@[j] != '.' by {}
    lemma_last_index_of(".swf"@, '.', 0);
}

proof fn lemma_last_index_of_is_dot(s: Seq<char>, c: char)
    ensures
        last_index_of(s, c) >= 0 ==> last_index_of(s, c) < s.len() && s[last_index_of(s, c)] == c,
        -1 <= last_index_of(s, c),
    decreases s.len(),
{
    if s.len() > 0 && s.last() != c {
        lemma_last_index_of_is_dot(s.drop_last(), c);
    }
}

/// Sorts names into ascending order.
fn sort_names(v: Vec<String>) -> (r: Vec<String>)
    ensures
        sorted(views(r@)),
        views(r@).to_multiset() == views(v@).to_multiset(),
{
    broadcast use vstd::seq_lib::group_to_multiset_ensures;

    let ghost all = views(v@);
    let mut out: Vec<String> = Vec::new();
    let mut rest = v;
    assert(views(out@) =~= Seq::<Seq<char>>::empty());
    while rest.len() > 0
        invariant
            sorted(views(out@)),
            views(out@).to_multiset().add(views(rest@).to_multiset()) == all.to_multiset(),
        decreases rest@.len(),
    {
        let ghost rest_before = views(rest@);
        let x = rest.pop().unwrap();
        assert(rest_before =~= views(rest@).push(x@));
        let mut p: usize = 0;
        while p < out.len() && !text_less(&x, &out[p])
            invariant
                p <= out@.len(),
                forall|k: int| 0 <= k < p ==> !lex_lt(x@, out@[k]@),
            decreases out@.len() - p,
        {
            p = p + 1;
        }
        let ghost before = views(out@);
        out.insert(p, x);
        assert(views(out@) =~= before.insert(p as int, x@));
        assert(sorted(views(out@))) by {
            let s = views(out@);
            assert forall|i: int, j: int| 0 <= i < j < s.len() implies !lex_lt(s[j], s[i]) by {
                if j == p {
                    assert(s[i] == before[i]);
                } else if i == p {
                    let k = j - 1;
                    assert(s[j] == before[k]);
                    assert(lex_lt(x@, before[p as int]));
                    if k > p {
                        lemma_lex_total(before[p as int], before[k]);
                        if lex_lt(before[p as int], before[k]) {
                            lemma_lex_transitive(x@, before[p as int], before[k]);
                        }
                    }
                    lemma_lex_asymmetric(x@, before[k]);
                } else {
                    let bi = if i < p {
                        i
                    } else {
                        i - 1
                    };
                    let bj = if j < p {
                        j
                    } else {
                        j - 1
                    };
                    assert(s[i] == before[bi]);
                    assert(s[j] == before[bj]);
                }
            }
        }
        proof {
            vstd::seq_lib::to_multiset_insert(before, p as int, x@);
            vstd::seq_lib::to_multiset_build(views(rest@), x@);
        }
    }
    assert(views(rest@) =~= Seq::<Seq<char>>::empty());
    assert(views(out@).to_multiset() =~= all.to_multiset());
    out
}

/// The games among the files `names`: the stems of the `.swf` files, sorted.
fn list_swf_files(names: &Vec<String>) -> (r: Vec<String>)
    ensures
        sorted(views(r@)),
        views(r@).to_multiset() == views(names@).filter_map(|n: Seq<char>| swf_stem_spec(n)).to_multiset(),
{
    let mut stems: Vec<String> = Vec::new();
    let mut i: usize = 0;
    while i < names.len()
        invariant
            i <= names@.len(),
            views(stems@) == views(names@.take(i as int)).filter_map(
                |n: Seq<char>| swf_stem_spec(n),
            ),
        decreases names@.len() - i,
    {
        let ghost prefix = views(names@.take(i as int));
        let ghost next = views(names@.take(i + 1));
        assert(next.drop_last() =~= prefix);
        assert(next.last() == names@[i as int]@);
        match swf_stem(&names[i]) {
            Some(stem) => {
                let ghost before = views(stems@);
                stems.push(stem);
                assert(views(stems@) =~= before + seq![stem@]);
            },
            None => {},
        }
        i = i + 1;
    }
    assert(names@.take(names@.len() as int) =~= names@);
    sort_names(stems)
}

/// What the game list asks of its caller.
#[derive(Debug, PartialEq, Eq)]
pub enum MenuAction {
    /// Start the game with this name.
    Launch(String),
    /// Leave the program.
    Exit,
}

/// The cursor one row up: from the top it wraps to the bottom.
pub open spec fn menu_up(sel: int, len: int) -> int {
    if sel > 0 {
        sel - 1
    } else if len > 0 {
        len - 1
    } else {
        0
    }
}

/// The cursor one row down: from the bottom it wraps to the top.
pub open spec fn menu_down(sel: int, len: int) -> int {
    (sel + 1) % len
}

/// The cursor ten rows up, stopping at the top.
pub open spec fn menu_page_up(sel: int) -> int {
    if sel >= 10 {
        sel - 10
    } else {
        0
    }
}

/// The cursor ten rows down, stopping at the bottom.
pub open spec fn menu_page_down(sel: int, len: int) -> int {
    if sel + 10 < len - 1 {
        sel + 10
    } else {
        len - 1
    }
}

/// Scrolling to row `t` from first visible row `off` stays within `usize`.
pub open spec fn can_scroll_to(t: int, off: int) -> bool {
    t >= off ==> off + MAX_VISIBLE <= usize::MAX
}

/// The game list.
pub struct MenuState {
    pub files: Vec<String>,
    pub selected: usize,
    pub scroll_offset: usize,
    stub_timer: Option<u128>,
}

impl MenuState {
    /// The games listed.
    pub closed spec fn names(&self) -> Seq<String> {
        self.files@
    }

    /// The highlighted row.
    pub closed spec fn cursor(&self) -> int {
        self.selected as int
    }

    /// The first visible row.
    pub closed spec fn scroll(&self) -> int {
        self.scroll_offset as int
    }

    /// How long, in milliseconds, the "not yet implemented" note has been up, if it is.
    pub closed spec fn stub(&self) -> Option<u128> {
        self.stub_timer
    }

    /// The cursor is on a game of the list (on row 0 when the list is
    /// empty) and on screen.
    pub open spec fn wf(&self) -> bool {
        let len = self.names().len() as int;
        &&& (if len > 0 {
            0 <= self.cursor() < len
        } else {
            self.cursor() == 0
        })
        &&& self.scroll() <= self.cursor() < self.scroll() + MAX_VISIBLE
    }

    /// `self` and `other` show the same list in the same position.
    pub open spec fn same_position(&self, other: &MenuState) -> bool {
        &&& self.names() == other.names()
        &&& self.cursor() == other.cursor()
        &&& self.scroll() == other.scroll()
    }

    /// `self` and `other` are the same.
    pub open spec fn same(&self, other: &MenuState) -> bool {
        self.same_position(other) && self.stub() == other.stub()
    }

    /// The list holds exactly the games among the files `names`, sorted.
    pub open spec fn lists(&self, names: Seq<String>) -> bool {
        &&& sorted(views(self.names()))
        &&& views(self.names()).to_multiset() == views(names).filter_map(
            |n: Seq<char>| swf_stem_spec(n),
        ).to_multiset()
    }

    /// Pressing `button` does not run `usize` past its end.
    pub open spec fn accepts_button(&self, is_down: bool, button: Button) -> bool {
        let sel = self.cursor();
        let len = self.names().len() as int;
        let off = self.scroll();
        is_down && self.stub() is None ==> match button {
            Button::DPadUp => can_scroll_to(menu_up(sel, len), off),
            Button::DPadDown => len > 0 ==> sel < usize::MAX && can_scroll_to(
                menu_down(sel, len),
                off,
            ),
            Button::DPadLeft => len > 0 ==> can_scroll_to(menu_page_up(sel), off),
            Button::DPadRight => len > 0 ==> sel + 10 <= usize::MAX && can_scroll_to(
                menu_page_down(sel, len),
                off,
            ),
            Button::A => len > 0 ==> sel < len,
            _ => true,
        }
    }

    /// Moving the left stick to `value` does not run `usize` past its end.
    pub open spec fn accepts_axis_motion(&self, axis: Axis, value: i32) -> bool {
        let sel = self.cursor();
        let len = self.names().len() as int;
        let off = self.scroll();
        &&& axis == Axis::LeftY && value < -MENU_DEADZONE && len > 0 ==> can_scroll_to(
            menu_up(sel, len),
            off,
        )
        &&& axis == Axis::LeftY && value > MENU_DEADZONE && len > 0 ==> sel < usize::MAX
            && can_scroll_to(menu_down(sel, len), off)
    }

    /// The game list for the files `names` of the games directory, the
    /// first game highlighted.
    pub fn new(names: Vec<String>) -> (r: Self)
        ensures
            r.wf(),
            r.lists(names@),
            r.cursor() == 0,
            r.scroll() == 0,
            r.stub() is None,
    {
        let files = list_swf_files(&names);
        MenuState { files, selected: 0, scroll_offset: 0, stub_timer: None }
    }

    /// Reads the list again from the files `names`, back to the first game.
    pub fn refresh(&mut self, names: Vec<String>)
        ensures
            final(self).wf(),
            final(self).lists(names@),
            final(self).cursor() == 0,
            final(self).scroll() == 0,
            final(self).stub() is None,
    {
        self.files = list_swf_files(&names);
        self.selected = 0;
        self.scroll_offset = 0;
        self.stub_timer = None;
    }

    /// The games listed.
    pub fn files(&self) -> (r: &Vec<String>)
        ensures
            r@ == self.names(),
    {
        &self.files
    }

    /// The highlighted row.
    pub fn selected(&self) -> (r: usize)
        ensures
            r == self.cursor(),
    {
        self.selected
    }

    /// The first visible row.
    pub fn scroll_offset(&self) -> (r: usize)
        ensures
            r == self.scroll(),
    {
        self.scroll_offset
    }

    /// Moves the cursor to row `row` and the first visible row to `offset`.
    pub fn set_position(&mut self, row: usize, offset: usize)
        ensures
            final(self).cursor() == row,
            final(self).scroll() == offset,
            final(self).names() == old(self).names(),
            final(self).stub() == old(self).stub(),
    {
        self.selected = row;
        self.scroll_offset = offset;
    }

    /// How long the "not yet implemented" note has been up, if it is.
    pub fn stub_timer(&self) -> (r: Option<u128>)
        ensures
            r == self.stub(),
    {
        self.stub_timer
    }

    /// The rows on screen: each visible game's file name, and whether the
    /// cursor is on it.
    pub fn visible_rows(&self) -> (r: Vec<ListRow>)
        requires
            self.names().len() > 0 ==> self.scroll() + MAX_VISIBLE <= usize::MAX,
        ensures
            r@.len() == visible_count(self.scroll(), self.names().len() as int),
            forall|k: int|
                0 <= k < r@.len() ==> {
                    &&& (#[trigger] r@[k]).label@ == self.names()[self.scroll() + k]@ + ".swf"@
                    &&& r@[k].kind == RowKind::Game
                    &&& r@[k].selected == (self.scroll() + k == self.cursor())
                },
    {
        let mut rows: Vec<ListRow> = Vec::new();
        if self.files.len() == 0 {
            return rows;
        }
        let wanted = self.scroll_offset + MAX_VISIBLE;
        let end = if wanted < self.files.len() {
            wanted
        } else {
            self.files.len()
        };
        let mut i = self.scroll_offset;
        while i < end
            invariant
                self.scroll_offset <= i,
                i <= end || i == self.scroll_offset,
                end <= self.files@.len(),
                end == if self.scroll_offset + MAX_VISIBLE < self.files@.len() {
                    self.scroll_offset + MAX_VISIBLE
                } else {
                    self.files@.len() as int
                },
                rows@.len() == i - self.scroll_offset,
                forall|k: int|
                    0 <= k < rows@.len() ==> {
                        &&& (#[trigger] rows@[k]).label@ == self.files@[self.scroll_offset + k]@
                            + ".swf"@
                        &&& rows@[k].kind == RowKind::Game
                        &&& rows@[k].selected == (self.scroll_offset + k == self.selected)
                    },
            decreases end - i,
        {
            let mut label = self.files[i].clone();
            label.append(".swf");
            rows.push(ListRow { label, kind: RowKind::Game, selected: i == self.selected });
            i = i + 1;
        }
        rows
    }

    /// Whether the hint bar is shown: there are games and no note is up.
    pub fn shows_hints(&self) -> (r: bool)
        ensures
            r == (self.names().len() > 0 && self.stub() is None),
    {
        self.files.len() > 0 && self.stub_timer.is_none()
    }

    fn clamp_scroll(&mut self)
        requires
            can_scroll_to(old(self).selected as int, old(self).scroll_offset as int),
        ensures
            final(self).scroll() == scroll_to_show(old(self).cursor(), old(self).scroll()),
            final(self).names() == old(self).names(),
            final(self).cursor() == old(self).cursor(),
            final(self).stub() == old(self).stub(),
    {
        if self.selected < self.scroll_offset {
            self.scroll_offset = self.selected;
        } else if self.selected >= self.scroll_offset + MAX_VISIBLE {
            self.scroll_offset = self.selected - MAX_VISIBLE + 1;
        }
    }

    /// Handles a controller button. While the "not yet implemented" note is
    /// up, a press only dismisses it. Otherwise the D-pad moves the cursor,
    /// Cross launches the highlighted game, Circle leaves and Triangle shows
    /// the note. A press keeps the list, and keeps the cursor on a game and
    /// on screen (`wf`); `lemma_wf_accepts_input` shows every press is
    /// accepted when the list is not within a screenful of `usize::MAX`.
    pub fn handle_button(&mut self, is_down: bool, button: Button) -> (r: Option<MenuAction>)
        requires
            old(self).accepts_button(is_down, button),
        ensures
            old(self).wf() ==> final(self).wf(),
            final(self).names() == old(self).names(),
            !is_down ==> r is None && final(self).same(old(self)),
            is_down && old(self).stub() is Some ==> {
                &&& r is None
                &&& final(self).same_position(old(self))
                &&& final(self).stub() is None
            },
            is_down && old(self).stub() is None ==> {
                let sel = old(self).cursor();
                let len = old(self).names().len() as int;
                match button {
                    Button::DPadUp => {
                        &&& r is None
                        &&& final(self).cursor() == menu_up(sel, len)
                        &&& final(self).scroll() == scroll_to_show(
                            final(self).cursor(),
                            old(self).scroll(),
                        )
                        &&& final(self).names() == old(self).names()
                        &&& final(self).stub() == old(self).stub()
                    },
                    Button::DPadDown => if len == 0 {
                        r is None && final(self).same(old(self))
                    } else {
                        &&& r is None
                        &&& final(self).cursor() == menu_down(sel, len)
                        &&& final(self).scroll() == scroll_to_show(
                            final(self).cursor(),
                            old(self).scroll(),
                        )
                        &&& final(self).names() == old(self).names()
                        &&& final(self).stub() == old(self).stub()
                    },
                    Button::DPadLeft => if len == 0 {
                        r is None && final(self).same(old(self))
                    } else {
                        &&& r is None
                        &&& final(self).cursor() == menu_page_up(sel)
                        &&& final(self).scroll() == scroll_to_show(
                            final(self).cursor(),
                            old(self).scroll(),
                        )
                        &&& final(self).names() == old(self).names()
                        &&& final(self).stub() == old(self).stub()
                    },
                    Button::DPadRight => if len == 0 {
                        r is None && final(self).same(old(self))
                    } else {
                        &&& r is None
                        &&& final(self).cursor() == menu_page_down(sel, len)
                        &&& final(self).scroll() == scroll_to_show(
                            final(self).cursor(),
                            old(self).scroll(),
                        )
                        &&& final(self).names() == old(self).names()
                        &&& final(self).stub() == old(self).stub()
                    },
                    Button::A => {
                        &&& final(self).same(old(self))
                        &&& r == (if len > 0 {
                            Some(MenuAction::Launch(old(self).names()[sel]))
                        } else {
                            None
                        })
                    },
                    Button::B => r == Some(MenuAction::Exit) && final(self).same(old(self)),
                    Button::Y => {
                        &&& r is None
                        &&& final(self).same_position(old(self))
                        &&& final(self).stub() == (if len > 0 {
                            Some(0u128)
                        } else {
                            None
                        })
                    },
                    _ => r is None && final(self).same(old(self)),
                }
            },
    {
        proof {
            let sel = self.cursor();
            let len = self.names().len() as int;
            if 0 <= sel < len {
                lemma_menu_move_keeps_cursor_visible(sel, len, self.scroll());
            }
        }
        if !is_down {
            return None;
        }
        if self.stub_timer.is_some() {
            self.stub_timer = None;
            return None;
        }
        match button {
            Button::DPadUp => {
                if self.selected > 0 {
                    self.selected = self.selected - 1;
                } else {
                    self.selected = self.files.len().saturating_sub(1);
                }
                self.clamp_scroll();
            },
            Button::DPadDown => {
                if self.files.len() == 0 {
                    return None;
                }
                self.selected = (self.selected + 1) % self.files.len();
                self.clamp_scroll();
            },
            Button::DPadLeft => {
                if self.files.len() == 0 {
                    return None;
                }
                self.selected = self.selected.saturating_sub(10);
                self.clamp_scroll();
            },
            Button::DPadRight => {
                if self.files.len() == 0 {
                    return None;
                }
                let t = self.selected + 10;
                let last = self.files.len() - 1;
                self.selected = if t < last {
                    t
                } else {
                    last
                };
                self.clamp_scroll();
            },
            Button::A => {
                if self.files.len() > 0 {
                    return Some(MenuAction::Launch(self.files[self.selected].clone()));
                }
            },
            Button::B => {
                return Some(MenuAction::Exit);
            },
            Button::Y => {
                if self.files.len() > 0 {
                    self.stub_timer = Some(0);
                }
            },
            _ => {},
        }
        None
    }

    /// Handles a motion of a controller axis: pushing the left stick up or
    /// down past the dead zone moves the cursor, wrapping around.
    pub fn handle_axis_motion(&mut self, axis: Axis, value: i32)
        requires
            old(self).accepts_axis_motion(axis, value),
        ensures
            old(self).wf() ==> final(self).wf(),
            ({
                let sel = old(self).cursor();
                let len = old(self).names().len() as int;
                let up = axis == Axis::LeftY && value < -MENU_DEADZONE && len > 0;
                let down = axis == Axis::LeftY && value > MENU_DEADZONE && len > 0;
                &&& final(self).names() == old(self).names()
                &&& final(self).stub() == old(self).stub()
                &&& up ==> final(self).cursor() == menu_up(sel, len) && final(self).scroll()
                    == scroll_to_show(final(self).cursor(), old(self).scroll())
                &&& down ==> final(self).cursor() == menu_down(sel, len) && final(self).scroll()
                    == scroll_to_show(final(self).cursor(), old(self).scroll())
                &&& !up && !down ==> final(self).same(old(self))
            }),
    {
        proof {
            let sel = self.cursor();
            let len = self.names().len() as int;
            if 0 <= sel < len {
                lemma_menu_move_keeps_cursor_visible(sel, len, self.scroll());
            }
        }
        let left_y = match axis {
            Axis::LeftY => true,
            _ => false,
        };
        if left_y && value < -MENU_DEADZONE && self.files.len() > 0 {
            if self.selected > 0 {
                self.selected = self.selected - 1;
            } else {
                self.selected = self.files.len() - 1;
            }
            self.clamp_scroll();
        } else if left_y && value > MENU_DEADZONE && self.files.len() > 0 {
            self.selected = (self.selected + 1) % self.files.len();
            self.clamp_scroll();
        }
    }

    /// Advances the "not yet implemented" note's clock by `dt_ms`
    /// milliseconds; the note goes away once it has been up for two seconds.
    pub fn update_stub_timer(&mut self, dt_ms: u128)
        requires
            old(self).stub() matches Some(t) ==> t + dt_ms <= u128::MAX,
        ensures
            final(self).same_position(old(self)),
            final(self).stub() == (match old(self).stub() {
                Some(t) => if t + dt_ms >= STUB_DURATION_MS {
                    None
                } else {
                    Some((t + dt_ms) as u128)
                },
                None => None,
            }),
    {
        if let Some(t) = self.stub_timer {
            let t2 = t + dt_ms;
            if t2 >= STUB_DURATION_MS {
                self.stub_timer = None;
            } else {
                self.stub_timer = Some(t2);
            }
        }
    }
}

/// Paging moves the cursor at most ten rows and stops at the ends: down
/// never moves it up, lands ten rows further or on the last row, and only
/// stops short when the last row is nearer; up is the mirror image. One row
/// down goes to the next row, from the last row to the first; one row up the
/// other way.
pub proof fn lemma_menu_paging(sel: int, len: int)
    requires
        0 <= sel < len,
    ensures
        sel <= menu_page_down(sel, len) < len,
        menu_page_down(sel, len) - sel <= 10,
        menu_page_down(sel, len) == sel + 10 || menu_page_down(sel, len) == len - 1,
        menu_page_down(sel, len) == len - 1 ==> len - 1 <= sel + 10,
        0 <= menu_page_up(sel) <= sel,
        sel - menu_page_up(sel) <= 10,
        menu_page_up(sel) == sel - 10 || menu_page_up(sel) == 0,
        menu_page_up(sel) == 0 ==> sel <= 10,
        sel + 1 < len ==> menu_down(sel, len) == sel + 1,
        sel + 1 == len ==> menu_down(sel, len) == 0,
        sel > 0 ==> menu_up(sel, len) == sel - 1,
        sel == 0 ==> menu_up(sel, len) == len - 1,
{
    lemma_menu_moves(sel, len);
    assert(sel + 1 < len ==> (sel + 1) % len == sel + 1) by (nonlinear_arith)
        requires
            0 <= sel < len,
    ;
    assert(sel + 1 == len ==> (sel + 1) % len == 0) by (nonlinear_arith)
        requires
            0 <= sel < len,
    ;
}

/// In a non-empty list, moving down then up, or up then down, comes back to
/// the same row, and every move keeps the cursor in the list.
pub proof fn lemma_menu_moves(sel: int, len: int)
    requires
        0 <= sel < len,
    ensures
        menu_up(menu_down(sel, len), len) == sel,
        menu_down(menu_up(sel, len), len) == sel,
        0 <= menu_up(sel, len) < len,
        0 <= menu_down(sel, len) < len,
        0 <= menu_page_up(sel) < len,
        0 <= menu_page_down(sel, len) < len,
{
    assert(menu_down(sel, len) == if sel + 1 == len { 0 } else { sel + 1 }) by (nonlinear_arith)
        requires
            0 <= sel < len,
    ;
    assert(menu_down(menu_up(sel, len), len) == sel) by (nonlinear_arith)
        requires
            0 <= sel < len,
            menu_up(sel, len) == if sel > 0 { sel - 1 } else { len - 1 },
    ;
}

/// After any move in a non-empty list the cursor is in the list and on
/// screen.
pub proof fn lemma_menu_move_keeps_cursor_visible(sel: int, len: int, off: int)
    requires
        0 <= sel < len,
        0 <= off,
    ensures
        forall|t: int|
            t == menu_up(sel, len) || t == menu_down(sel, len) || t == menu_page_up(sel) || t
                == menu_page_down(sel, len) ==> 0 <= t < len && #[trigger] scroll_to_show(t, off) <= t
                < scroll_to_show(t, off) + MAX_VISIBLE,
{
    lemma_menu_moves(sel, len);
    lemma_scroll_shows_cursor(menu_up(sel, len), off);
    lemma_scroll_shows_cursor(menu_down(sel, len), off);
    lemma_scroll_shows_cursor(menu_page_up(sel), off);
    lemma_scroll_shows_cursor(menu_page_down(sel, len), off);
}

/// A game list whose cursor is on a game and on screen takes any button and
/// any stick motion, as long as the list is not within a screenful of the
/// largest `usize`.
pub proof fn lemma_wf_accepts_input(m: &MenuState, is_down: bool, button: Button, axis: Axis, value: i32)
    requires
        m.wf(),
        m.names().len() + MAX_VISIBLE <= usize::MAX,
    ensures
        m.accepts_button(is_down, button),
        m.accepts_axis_motion(axis, value),
        m.names().len() > 0 ==> m.scroll() + MAX_VISIBLE <= usize::MAX,
{
}

} // verus!
