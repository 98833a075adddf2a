//! A game's configuration: which keyboard key each gamepad button stands for,
//! and how the stage is letterboxed.
use vstd::prelude::*;

verus! {

/// The map that a list of (key, value) pairs describes, later pairs winning.
pub open spec fn pairs_map(s: Seq<(String, u32)>) -> Map<Seq<char>, u32>
    decreases s.len(),
{
    if s.len() == 0 {
        Map::empty()
    } else {
        pairs_map(s.drop_last()).insert(s.last().0@, s.last().1)
    }
}

/// No key occurs twice in the list.
pub open spec fn keys_distinct(s: Seq<(String, u32)>) -> bool {
    forall|i: int, j: int| 0 <= i < s.len() && 0 <= j < s.len() && i != j ==> s[i].0@ != s[j].0@
}

proof fn lemma_pairs_map_domain(s: Seq<(String, u32)>, k: Seq<char>)
    ensures
        pairs_map(s).contains_key(k) <==> exists|i: int| 0 <= i < s.len() && s[i].0@ == k,
    decreases s.len(),
{
    if s.len() > 0 {
        lemma_pairs_map_domain(s.drop_last(), k);
        if pairs_map(s).contains_key(k) && s.last().0@ != k {
            let i = choose|i: int| 0 <= i < s.len() - 1 && s.drop_last()[i].0@ == k;
            assert(s[i].0@ == k);
        }
        if exists|i: int| 0 <= i < s.len() && s[i].0@ == k {
            let i = choose|i: int| 0 <= i < s.len() && s[i].0@ == k;
            if i < s.len() - 1 {
                assert(s.drop_last()[i].0@ == k);
            }
        }
    }
}

proof fn lemma_pairs_map_value(s: Seq<(String, u32)>, i: int)
    requires
        keys_distinct(s),
        0 <= i < s.len(),
    ensures
        pairs_map(s).contains_key(s[i].0@),
        pairs_map(s)[s[i].0@] == s[i].1,
    decreases s.len(),
{
    if i < s.len() - 1 {
        let d = s.drop_last();
        assert(d[i] == s[i]);
        assert(keys_distinct(d));
        lemma_pairs_map_value(d, i);
        assert(s.last().0@ != s[i].0@);
    }
}

proof fn lemma_pairs_map_update(s: Seq<(String, u32)>, i: int, p: (String, u32))
    requires
        keys_distinct(s),
        0 <= i < s.len(),
        p.0@ == s[i].0@,
    ensures
        keys_distinct(s.update(i, p)),
        pairs_map(s.update(i, p)) == pairs_map(s).insert(p.0@, p.1),
    decreases s.len(),
{
    let t = s.update(i, p);
    assert(keys_distinct(t)) by {
        assert forall|a: int, b: int|
            0 <= a < t.len() && 0 <= b < t.len() && a != b implies t[a].0@ != t[b].0@ by {
            assert(t[a].0@ == s[a].0@);
            assert(t[b].0@ == s[b].0@);
        }
    }
    let d = s.drop_last();
    if i == s.len() - 1 {
        assert(t.drop_last() =~= d);
        assert(pairs_map(t) =~= pairs_map(s).insert(p.0@, p.1));
    } else {
        assert(t.drop_last() =~= d.update(i, p));
        assert(keys_distinct(d));
        lemma_pairs_map_update(d, i, p);
        assert(s.last().0@ != s[i].0@);
        assert(pairs_map(t) =~= pairs_map(s).insert(p.0@, p.1));
    }
}

proof fn lemma_pairs_map_remove(s: Seq<(String, u32)>, i: int)
    requires
        keys_distinct(s),
        0 <= i < s.len(),
    ensures
        keys_distinct(s.remove(i)),
        pairs_map(s.remove(i)) == pairs_map(s).remove(s[i].0@),
    decreases s.len(),
{
    let t = s.remove(i);
    let k = s[i].0@;
    assert(keys_distinct(t)) by {
        assert forall|a: int, b: int|
            0 <= a < t.len() && 0 <= b < t.len() && a != b implies t[a].0@ != t[b].0@ by {
            let sa = if a < i { a } else { a + 1 };
            let sb = if b < i { b } else { b + 1 };
            assert(t[a] == s[sa]);
            assert(t[b] == s[sb]);
        }
    }
    let d = s.drop_last();
    assert(keys_distinct(d));
    if i == s.len() - 1 {
        assert(t =~= d);
        assert(!pairs_map(d).contains_key(k)) by {
            lemma_pairs_map_domain(d, k);
            if pairs_map(d).contains_key(k) {
                let j = choose|j: int| 0 <= j < d.len() && d[j].0@ == k;
                assert(s[j].0@ == k);
            }
        }
        assert(pairs_map(t) =~= pairs_map(s).remove(k));
    } else {
        assert(t =~= d.remove(i).push(s.last()));
        assert(t.drop_last() =~= d.remove(i));
        assert(d[i] == s[i]);
        lemma_pairs_map_remove(d, i);
        assert(s.last().0@ != k);
        assert(pairs_map(t) =~= pairs_map(s).remove(k));
    }
}

/// The keyboard key code bound to each gamepad button, by the button's
/// configuration key.
pub struct KeyBindings {
    entries: Vec<(String, u32)>,
}

impl View for KeyBindings {
    type V = Map<Seq<char>, u32>;

    closed spec fn view(&self) -> Map<Seq<char>, u32> {
        pairs_map(self.entries@)
    }
}

impl KeyBindings {
    #[verifier::type_invariant]
    closed spec fn inv(self) -> bool {
        keys_distinct(self.entries@)
    }

    /// No bindings.
    pub fn new() -> (r: Self)
        ensures
            r@ == Map::<Seq<char>, u32>::empty(),
    {
        KeyBindings { entries: Vec::new() }
    }

    /// The position of `key` in the list, if it is there.
    fn position(&self, key: &String) -> (r: Option<usize>)
        ensures
            match r {
                Some(i) => i < self.entries@.len() && self.entries@[i as int].0@ == key@,
                None => forall|j: int|
                    0 <= j < self.entries@.len() ==> self.entries@[j].0@ != key@,
            },
    {
        let mut i: usize = 0;
        while i < self.entries.len()
            invariant
                i <= self.entries@.len(),
                forall|j: int| 0 <= j < i ==> self.entries@[j].0@ != key@,
            decreases self.entries@.len() - i,
        {
            if self.entries[i].0 == *key {
                return Some(i);
            }
            i = i + 1;
        }
        None
    }

    /// The key code bound under `key`.
    pub fn get(&self, key: &String) -> (r: Option<u32>)
        ensures
            r == (if self@.contains_key(key@) {
                Some(self@[key@])
            } else {
                None
            }),
    {
        proof {
            use_type_invariant(self);
            lemma_pairs_map_domain(self.entries@, key@);
        }
        match self.position(key) {
            Some(i) => {
                proof {
                    lemma_pairs_map_value(self.entries@, i as int);
                }
                Some(self.entries[i].1)
            },
            None => None,
        }
    }

    /// Binds `key` to `code`, replacing any earlier binding of `key`.
    pub fn insert(&mut self, key: String, code: u32)
        ensures
            final(self)@ == old(self)@.insert(key@, code),
    {
        proof {
            use_type_invariant(&*self);
        }
        let ghost s = self.entries@;
        match self.position(&key) {
            Some(i) => {
                proof {
                    lemma_pairs_map_update(s, i as int, (key, code));
                }
                let mut e: Vec<(String, u32)> = Vec::new();
                std::mem::swap(&mut e, &mut self.entries);
                e.set(i, (key, code));
                self.entries = e;
            },
            None => {
                let ghost p = (key, code);
                assert(keys_distinct(s.push(p))) by {
                    assert forall|a: int, b: int|
                        0 <= a < s.len() + 1 && 0 <= b < s.len() + 1 && a != b implies s.push(
                        p,
                    )[a].0@ != s.push(p)[b].0@ by {
                        if a < s.len() && b < s.len() {
                            assert(s.push(p)[a] == s[a]);
                            assert(s.push(p)[b] == s[b]);
                        }
                    }
                }
                let mut e: Vec<(String, u32)> = Vec::new();
                std::mem::swap(&mut e, &mut self.entries);
                e.push((key, code));
                self.entries = e;
                assert(self.entries@.drop_last() =~= s);
            },
        }
    }

    /// Removes the binding of `key`, if there is one.
    pub fn remove(&mut self, key: &String)
        ensures
            final(self)@ == old(self)@.remove(key@),
    {
        proof {
            use_type_invariant(&*self);
            lemma_pairs_map_domain(self.entries@, key@);
        }
        let ghost s = self.entries@;
        match self.position(key) {
            Some(i) => {
                proof {
                    lemma_pairs_map_remove(s, i as int);
                }
                let mut e: Vec<(String, u32)> = Vec::new();
                std::mem::swap(&mut e, &mut self.entries);
                e.remove(i);
                self.entries = e;
            },
            None => {
                assert(pairs_map(s).remove(key@) =~= pairs_map(s));
            },
        }
    }

    /// Removes every binding.
    pub fn clear(&mut self)
        ensures
            final(self)@ == Map::<Seq<char>, u32>::empty(),
    {
        self.entries = Vec::new();
    }

    /// The bindings that a list of pairs describes, later pairs winning.
    pub fn from_pairs(pairs: Vec<(String, u32)>) -> (r: Self)
        ensures
            r@ == pairs_map(pairs@),
    {
        let mut r = KeyBindings::new();
        let mut i: usize = 0;
        while i < pairs.len()
            invariant
                i <= pairs@.len(),
                r@ == pairs_map(pairs@.take(i as int)),
            decreases pairs@.len() - i,
        {
            r.insert(pairs[i].0.clone(), pairs[i].1);
            assert(pairs@.take(i + 1).drop_last() =~= pairs@.take(i as int));
            i = i + 1;
        }
        assert(pairs@.take(pairs@.len() as int) =~= pairs@);
        r
    }

    /// The bindings as a list of pairs, each key once.
    pub fn to_pairs(&self) -> (r: Vec<(String, u32)>)
        ensures
            pairs_map(r@) == self@,
            keys_distinct(r@),
    {
        proof {
            use_type_invariant(self);
        }
        let mut out: Vec<(String, u32)> = Vec::new();
        let mut i: usize = 0;
        while i < self.entries.len()
            invariant
                i <= self.entries@.len(),
                out@ == self.entries@.take(i as int),
            decreases self.entries@.len() - i,
        {
            let k = self.entries[i].0.clone();
            out.push((k, self.entries[i].1));
            assert(out@ =~= self.entries@.take(i + 1));
            i = i + 1;
        }
        assert(out@ =~= self.entries@);
        out
    }
}

/// The configuration of one game.
pub struct Config {
    pub gamepad_config: KeyBindings,
    pub letterbox: Option<String>,
}

impl Default for Config {
    /// No button bound, letterboxing on.
    fn default() -> (r: Self)
        ensures
            r.gamepad_config@ == Map::<Seq<char>, u32>::empty(),
            r.letterbox matches Some(s) && s@ == "on"@,
    {
        Config { gamepad_config: KeyBindings::new(), letterbox: Some(String::from_str("on")) }
    }
}

/// The text of an optional setting.
pub open spec fn opt_text(val: Option<&String>) -> Option<Seq<char>> {
    match val {
        Some(s) => Some(s@),
        None => None,
    }
}

/// The text of an optional owned setting.
pub open spec fn opt_string_text(val: Option<String>) -> Option<Seq<char>> {
    match val {
        Some(s) => Some(s@),
        None => None,
    }
}

/// How the letterbox setting `val` is shown.
pub open spec fn letterbox_display_spec(val: Option<Seq<char>>) -> Seq<char> {
    match val {
        Some(v) => if v == "on"@ {
            "On"@
        } else if v == "off"@ {
            "Off"@
        } else if v == "fullscreen"@ {
            "Fullscreen"@
        } else {
            "On"@
        },
        None => "On"@,
    }
}

/// The letterbox setting after `val`: on, off, fullscreen, then on again; an
/// absent or unknown setting becomes on.
pub open spec fn next_letterbox_spec(val: Option<Seq<char>>) -> Seq<char> {
    match val {
        Some(v) => if v == "on"@ {
            "off"@
        } else if v == "off"@ {
            "fullscreen"@
        } else {
            "on"@
        },
        None => "on"@,
    }
}

fn is_text(s: &String, lit: &str) -> (r: bool)
    ensures
        r == (s@ == lit@),
{
    *s == String::from_str(lit)
}

/// How the letterbox setting is shown in the configuration menu.
pub fn letterbox_display(val: Option<&String>) -> (r: &'static str)
    ensures
        r@ == letterbox_display_spec(opt_text(val)),
{
    match val {
        Some(s) => {
            if is_text(s, "on") {
                "On"
            } else if is_text(s, "off") {
                "Off"
            } else if is_text(s, "fullscreen") {
                "Fullscreen"
            } else {
                "On"
            }
        },
        None => "On",
    }
}

/// The letterbox setting that follows `val` when it is toggled.
pub fn next_letterbox(val: Option<&String>) -> (r: String)
    ensures
        r@ == next_letterbox_spec(opt_text(val)),
{
    let next = match val {
        Some(s) => {
            if is_text(s, "on") {
                "off"
            } else if is_text(s, "off") {
                "fullscreen"
            } else {
                "on"
            }
        },
        None => "on",
    };
    String::from_str(next)
}

/// Toggling the letterbox setting three times from on, off or fullscreen
/// comes back to where it started.
pub proof fn lemma_letterbox_cycle(v: Seq<char>)
    requires
        v == "on"@ || v == "off"@ || v == "fullscreen"@,
    ensures
        next_letterbox_spec(
            Some(next_letterbox_spec(Some(next_letterbox_spec(Some(v))))),
        ) == v,
{
    reveal_strlit("on");
    reveal_strlit("off");
    reveal_strlit("fullscreen");
}

} // verus!
