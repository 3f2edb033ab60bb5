//! Text shortcuts: a trigger word typed at a word boundary is replaced by its expansion,
//! optionally only under one input method.

use vstd::prelude::*;
use crate::domain::InputMethodId;
use crate::json::{doc_json, entries_of, entry_of, lemma_json_roundtrip, parse_doc, parse_shortcuts, shortcuts_to_json, Entry};
use crate::text::{str_eq, string_push};

verus! {

/// Input methods a shortcut works under.
#[derive(Debug, Clone, Copy, PartialEq, Eq, Structural)]
pub enum InputMethod {
    All,
    Telex,
    Vni,
}

/// A trigger word and its expansion.
#[derive(Debug, Clone)]
pub struct Shortcut {
    pub trigger: String,
    pub replacement: String,
    pub input_method: InputMethod,
}

/// A shortcut under `m` also works under `method`: either is `All`, or they are the same.
pub open spec fn applies(m: InputMethod, method: InputMethod) -> bool {
    m == InputMethod::All || method == InputMethod::All || m == method
}

impl Shortcut {
    /// A shortcut for every input method.
    pub fn new(trigger: &str, replacement: &str) -> (r: Shortcut)
        ensures
            r.trigger@ == trigger@,
            r.replacement@ == replacement@,
            r.input_method == InputMethod::All,
    {
        Shortcut { trigger: trigger.to_owned(), replacement: replacement.to_owned(), input_method: InputMethod::All }
    }

    /// A shortcut for Telex only.
    pub fn telex(trigger: &str, replacement: &str) -> (r: Shortcut)
        ensures
            r.trigger@ == trigger@,
            r.replacement@ == replacement@,
            r.input_method == InputMethod::Telex,
    {
        Shortcut { trigger: trigger.to_owned(), replacement: replacement.to_owned(), input_method: InputMethod::Telex }
    }

    /// A shortcut for VNI only.
    pub fn vni(trigger: &str, replacement: &str) -> (r: Shortcut)
        ensures
            r.trigger@ == trigger@,
            r.replacement@ == replacement@,
            r.input_method == InputMethod::Vni,
    {
        Shortcut { trigger: trigger.to_owned(), replacement: replacement.to_owned(), input_method: InputMethod::Vni }
    }
}

/// A match: delete `backspace_count` characters and type `output`.
#[derive(Debug, Clone)]
pub struct ShortcutMatch {
    pub backspace_count: usize,
    pub output: String,
}

/// Index of the first shortcut from `i` on with trigger `t` working under `method`, or -1.
pub open spec fn find_from(s: Seq<Shortcut>, t: Seq<char>, method: InputMethod, i: int) -> int
    decreases s.len() - i,
{
    if i < 0 || i >= s.len() {
        -1
    } else if s[i].trigger@ == t && applies(s[i].input_method, method) {
        i
    } else {
        find_from(s, t, method, i + 1)
    }
}

/// Index of the shortcut with trigger `t` working under `method`, or -1.
pub open spec fn find(s: Seq<Shortcut>, t: Seq<char>, method: InputMethod) -> int {
    find_from(s, t, method, 0)
}

proof fn lemma_find_from(s: Seq<Shortcut>, t: Seq<char>, method: InputMethod, i: int)
    requires
        0 <= i <= s.len(),
    ensures
        find_from(s, t, method, i) == -1 || (i <= find_from(s, t, method, i) < s.len()
            && s[find_from(s, t, method, i)].trigger@ == t
            && applies(s[find_from(s, t, method, i)].input_method, method)),
        find_from(s, t, method, i) == -1 ==> forall|j: int| i <= j < s.len() ==>
            !(#[trigger] s[j].trigger@ == t && applies(s[j].input_method, method)),
    decreases s.len() - i,
{
    if i < s.len() {
        lemma_find_from(s, t, method, i + 1);
    }
}

/// What a match at a word boundary types: the expansion, then the key that ended the word.
pub open spec fn match_output(replacement: Seq<char>, key_char: Option<char>) -> Seq<char> {
    match key_char {
        Some(c) => replacement.push(c),
        None => replacement,
    }
}

/// Index of the first entry from `i` on with trigger `t`, or -1.
pub open spec fn find_entry_from(es: Seq<Entry>, t: Seq<char>, i: int) -> int
    decreases es.len() - i,
{
    if i < 0 || i >= es.len() {
        -1
    } else if es[i].0 == t {
        i
    } else {
        find_entry_from(es, t, i + 1)
    }
}

/// Entries after adding `e`, as `added` does for shortcuts.
pub open spec fn add_entry(es: Seq<Entry>, e: Entry) -> Seq<Entry> {
    let i = find_entry_from(es, e.0, 0);
    if e.0.len() == 0 {
        es
    } else if i >= 0 {
        es.update(i, e)
    } else {
        es.push(e)
    }
}

/// Entries after adding each of `new` in order.
pub open spec fn add_entries(es: Seq<Entry>, new: Seq<Entry>) -> Seq<Entry>
    decreases new.len(),
{
    if new.len() == 0 { es } else { add_entry(add_entries(es, new.drop_last()), new.last()) }
}

proof fn lemma_find_entries(s: Seq<Shortcut>, t: Seq<char>, i: int)
    requires
        0 <= i <= s.len(),
    ensures
        find_from(s, t, InputMethod::All, i) == find_entry_from(entries_of(s), t, i),
    decreases s.len() - i,
{
    if i < s.len() {
        lemma_find_entries(s, t, i + 1);
        assert(entries_of(s)[i] == entry_of(s[i]));
    }
}

proof fn lemma_added_entries(s: Seq<Shortcut>, sc: Shortcut)
    ensures
        entries_of(added(s, sc)) == add_entry(entries_of(s), entry_of(sc)),
{
    lemma_find_entries(s, sc.trigger@, 0);
    assert(entries_of(s.push(sc)) =~= entries_of(s).push(entry_of(sc)));
    let i = find(s, sc.trigger@, InputMethod::All);
    if i >= 0 && i < s.len() {
        assert(entries_of(s.update(i, sc)) =~= entries_of(s).update(i, entry_of(sc)));
    }
    lemma_find_from(s, sc.trigger@, InputMethod::All, 0);
}

/// The table of shortcuts, in the order they were first added; no trigger occurs twice.
pub struct ShortcutTable {
    shortcuts: Vec<Shortcut>,
}

impl View for ShortcutTable {
    type V = Seq<Shortcut>;

    closed spec fn view(&self) -> Seq<Shortcut> {
        self.shortcuts@
    }
}

/// No trigger occurs twice.
pub open spec fn distinct_triggers(s: Seq<Shortcut>) -> bool {
    forall|i: int, j: int| 0 <= i < j < s.len() ==> #[trigger] s[i].trigger@ != #[trigger] s[j].trigger@
}

/// The table after adding `sc`: an empty trigger is refused; a shortcut with the same
/// trigger is replaced in place; otherwise `sc` goes at the end.
pub open spec fn added(s: Seq<Shortcut>, sc: Shortcut) -> Seq<Shortcut> {
    let i = find(s, sc.trigger@, InputMethod::All);
    if sc.trigger@.len() == 0 {
        s
    } else if i >= 0 {
        s.update(i, sc)
    } else {
        s.push(sc)
    }
}

/// Every trigger is nonempty.
pub open spec fn nonempty_triggers(s: Seq<Shortcut>) -> bool {
    forall|i: int| 0 <= i < s.len() ==> (#[trigger] s[i]).trigger@.len() > 0
}

impl ShortcutTable {
    pub open spec fn wf(&self) -> bool {
        distinct_triggers(self@) && nonempty_triggers(self@)
    }

    /// An empty table.
    pub fn new() -> (r: ShortcutTable)
        ensures
            r@ == Seq::<Shortcut>::empty(),
            r.wf(),
    {
        ShortcutTable { shortcuts: Vec::new() }
    }

    fn index_of(&self, trigger: &str, method: InputMethod) -> (r: Option<usize>)
        ensures
            r is Some <==> find(self@, trigger@, method) >= 0,
            r is Some ==> r.unwrap() == find(self@, trigger@, method),
    {
        let mut i: usize = 0;
        while i < self.shortcuts.len()
            invariant
                i <= self@.len(),
                find(self@, trigger@, method) == find_from(self@, trigger@, method, i as int),
            decreases self@.len() - i,
        {
            let sc = &self.shortcuts[i];
            let ok = match (sc.input_method, method) {
                (InputMethod::All, _) => true,
                (_, InputMethod::All) => true,
                (InputMethod::Telex, InputMethod::Telex) => true,
                (InputMethod::Vni, InputMethod::Vni) => true,
                _ => false,
            };
            if ok && str_eq(sc.trigger.as_str(), trigger) {
                return Some(i);
            }
            i = i + 1;
        }
        None
    }

    /// Adds a shortcut, replacing the one with the same trigger; `false` (and no change) for an
    /// empty trigger.
    pub fn add(&mut self, shortcut: Shortcut) -> (r: bool)
        requires
            old(self).wf(),
        ensures
            final(self).wf(),
            r == (shortcut.trigger@.len() > 0),
            final(self)@ == added(old(self)@, shortcut),
    {
        if shortcut.trigger.as_str().unicode_len() == 0 {
            return false;
        }
        proof {
            lemma_find_from(self@, shortcut.trigger@, InputMethod::All, 0);
        }
        match self.index_of(shortcut.trigger.as_str(), InputMethod::All) {
            Some(i) => {
                self.shortcuts.set(i, shortcut);
            },
            None => {
                self.shortcuts.push(shortcut);
            },
        }
        true
    }

    /// Removes the shortcut with this trigger and hands it back.
    pub fn remove(&mut self, trigger: &str) -> (r: Option<Shortcut>)
        requires
            old(self).wf(),
        ensures
            final(self).wf(),
            find(old(self)@, trigger@, InputMethod::All) < 0 ==> r is None && final(self)@ == old(self)@,
            find(old(self)@, trigger@, InputMethod::All) >= 0 ==> r == Some(old(self)@[find(old(self)@, trigger@, InputMethod::All)])
                && final(self)@ == old(self)@.remove(find(old(self)@, trigger@, InputMethod::All)),
    {
        proof {
            lemma_find_from(self@, trigger@, InputMethod::All, 0);
        }
        match self.index_of(trigger, InputMethod::All) {
            Some(i) => {
                let sc = self.shortcuts.remove(i);
                proof {
                    assert forall|a: int, b: int| 0 <= a < b < self@.len() implies
                        #[trigger] self@[a].trigger@ != #[trigger] self@[b].trigger@ by {
                        let a0 = if a < i { a } else { a + 1 };
                        let b0 = if b < i { b } else { b + 1 };
                        assert(old(self)@[a0].trigger@ != old(self)@[b0].trigger@);
                    }
                    assert forall|a: int| 0 <= a < self@.len() implies (#[trigger] self@[a]).trigger@.len() > 0 by {
                        let a0 = if a < i { a } else { a + 1 };
                        assert(old(self)@[a0].trigger@.len() > 0);
                    }
                }
                Some(sc)
            },
            None => None,
        }
    }

    /// The shortcut whose trigger is the whole buffer, with its trigger.
    pub fn lookup(&self, buffer: &str) -> (r: Option<(&str, &Shortcut)>)
        ensures
            find(self@, buffer@, InputMethod::All) < 0 ==> r is None,
            find(self@, buffer@, InputMethod::All) >= 0 ==> r is Some
                && *r.unwrap().1 == self@[find(self@, buffer@, InputMethod::All)]
                && r.unwrap().0@ == buffer@,
    {
        self.lookup_for_method(buffer, InputMethod::All)
    }

    /// The shortcut working under `method` whose trigger is the whole buffer.
    pub fn lookup_for_method(&self, buffer: &str, method: InputMethod) -> (r: Option<(&str, &Shortcut)>)
        ensures
            find(self@, buffer@, method) < 0 ==> r is None,
            find(self@, buffer@, method) >= 0 ==> r is Some
                && *r.unwrap().1 == self@[find(self@, buffer@, method)]
                && r.unwrap().0@ == buffer@,
    {
        proof {
            lemma_find_from(self@, buffer@, method, 0);
        }
        match self.index_of(buffer, method) {
            Some(i) => {
                let sc = &self.shortcuts[i];
                Some((sc.trigger.as_str(), sc))
            },
            None => None,
        }
    }

    /// At a word boundary, the match for the buffer: delete the trigger, type the expansion
    /// and the key that ended the word.
    pub fn try_match(&self, buffer: &str, key_char: Option<char>, is_word_boundary: bool) -> (r: Option<ShortcutMatch>)
        ensures
            !is_word_boundary || find(self@, buffer@, InputMethod::All) < 0 ==> r is None,
            is_word_boundary && find(self@, buffer@, InputMethod::All) >= 0 ==> r is Some
                && r.unwrap().backspace_count == buffer@.len()
                && r.unwrap().output@ == match_output(self@[find(self@, buffer@, InputMethod::All)].replacement@, key_char),
    {
        self.try_match_for_method(buffer, key_char, is_word_boundary, InputMethod::All)
    }

    /// `try_match` among the shortcuts working under `method`.
    pub fn try_match_for_method(&self, buffer: &str, key_char: Option<char>, is_word_boundary: bool, method: InputMethod) -> (r: Option<ShortcutMatch>)
        ensures
            !is_word_boundary || find(self@, buffer@, method) < 0 ==> r is None,
            is_word_boundary && find(self@, buffer@, method) >= 0 ==> r is Some
                && r.unwrap().backspace_count == buffer@.len()
                && r.unwrap().output@ == match_output(self@[find(self@, buffer@, method)].replacement@, key_char),
    {
        if !is_word_boundary {
            return None;
        }
        match self.lookup_for_method(buffer, method) {
            Some((_, sc)) => {
                let mut output = sc.replacement.clone();
                proof {
                    assert(output@ == sc.replacement@);
                }
                match key_char {
                    Some(c) => string_push(&mut output, c),
                    None => {},
                }
                Some(ShortcutMatch { backspace_count: buffer.unicode_len(), output })
            },
            None => None,
        }
    }

/// The shortcuts as JSON: an array of objects with "trigger", "replacement" and
    /// "input_method" ("all", "telex" or "vni").
    pub fn to_json(&self) -> (r: String)
        ensures
            r@ == doc_json(entries_of(self@)),
    {
        shortcuts_to_json(self.shortcuts.as_slice())
    }

    /// Adds the shortcuts listed in JSON as `to_json` writes it, in order, and returns how
    /// many it listed; text that is not such a list changes nothing.
    pub fn from_json(&mut self, json: &str) -> (r: Result<usize, &'static str>)
        requires
            old(self).wf(),
        ensures
            final(self).wf(),
            parse_doc(json@) is None ==> r is Err && final(self)@ == old(self)@,
            parse_doc(json@) is Some ==> r is Ok && r.unwrap() == parse_doc(json@).unwrap().len()
                && entries_of(final(self)@) == add_entries(entries_of(old(self)@), parse_doc(json@).unwrap()),
    {
        let mut rest = match parse_shortcuts(json) {
            Some(l) => l,
            None => return Err("Invalid shortcut JSON"),
        };
        let ghost es = parse_doc(json@).unwrap();
        let n = rest.len();
        let mut i: usize = 0;
        while i < n
            invariant
                i <= n,
                n == es.len(),
                entries_of(rest@) == es.skip(i as int),
                self.wf(),
                entries_of(self@) == add_entries(entries_of(old(self)@), es.take(i as int)),
            decreases n - i,
        {
            assert(rest@.len() == n - i) by {
                assert(entries_of(rest@).len() == rest@.len());
            }
            let ghost before = rest@;
            let sc = rest.remove(0);
            proof {
                assert(entries_of(rest@) =~= es.skip(i + 1)) by {
                    assert forall|k: int| 0 <= k < rest@.len() implies #[trigger] entries_of(rest@)[k] == es.skip(i + 1)[k] by {
                        assert(entries_of(before)[k + 1] == es.skip(i as int)[k + 1]);
                    }
                }
                assert(entry_of(sc) == es[i as int]) by {
                    assert(entries_of(before)[0] == es.skip(i as int)[0]);
                }
                lemma_added_entries(self@, sc);
                assert(es.take(i + 1).drop_last() =~= es.take(i as int));
            }
            self.add(sc);
            i = i + 1;
        }
        assert(es.take(n as int) =~= es);
        Ok(n)
    }

    pub fn len(&self) -> (r: usize)
        ensures
            r == self@.len(),
    {
        self.shortcuts.len()
    }

    pub fn is_empty(&self) -> (r: bool)
        ensures
            r == (self@.len() == 0),
    {
        self.shortcuts.len() == 0
    }

    pub fn clear(&mut self)
        ensures
            final(self)@ == Seq::<Shortcut>::empty(),
            final(self).wf(),
    {
        self.shortcuts = Vec::new();
    }
}

/// Input method of the engine for an input method of the domain (plain typing: all).
pub open spec fn method_of(method: InputMethodId) -> InputMethod {
    match method {
        InputMethodId::Telex => InputMethod::Telex,
        InputMethodId::Vni => InputMethod::Vni,
        InputMethodId::Plain => InputMethod::All,
    }
}

/// The shortcuts `with_defaults` starts with.
pub open spec fn default_shortcuts() -> Seq<(Seq<char>, Seq<char>)> {
    seq![
        ("vn"@, "Việt Nam"@),
        ("hn"@, "Hà Nội"@),
        ("sg"@, "Sài Gòn"@),
        ("tphcm"@, "Thành phố Hồ Chí Minh"@),
    ]
}

/// Repository of the user's shortcuts.
pub struct ShortcutRepo {
    table: ShortcutTable,
}

impl View for ShortcutRepo {
    type V = Seq<Shortcut>;

    closed spec fn view(&self) -> Seq<Shortcut> {
        self.table@
    }
}

impl ShortcutRepo {
    pub closed spec fn wf(&self) -> bool {
        self.table.wf()
    }

    /// An empty repository.
    pub fn new() -> (r: ShortcutRepo)
        ensures
            r@ == Seq::<Shortcut>::empty(),
            r.wf(),
    {
        ShortcutRepo { table: ShortcutTable::new() }
    }

    /// A repository holding the default shortcuts, for every input method.
    pub fn with_defaults() -> (r: ShortcutRepo)
        ensures
            r.wf(),
            r@.len() == default_shortcuts().len(),
            forall|i: int| 0 <= i < r@.len() ==> (#[trigger] r@[i]).trigger@ == default_shortcuts()[i].0
                && r@[i].replacement@ == default_shortcuts()[i].1
                && r@[i].input_method == InputMethod::All,
    {
        let mut table = ShortcutTable::new();
        proof {
            reveal_strlit("vn");
            reveal_strlit("hn");
            reveal_strlit("sg");
            reveal_strlit("tphcm");
        }
        let a = Shortcut::new("vn", "Việt Nam");
        let b = Shortcut::new("hn", "Hà Nội");
        let c = Shortcut::new("sg", "Sài Gòn");
        let d = Shortcut::new("tphcm", "Thành phố Hồ Chí Minh");
        let ghost (ga, gb, gc, gd) = (a, b, c, d);
        assert(ga.trigger@ =~= seq!['v', 'n']);
        assert(gb.trigger@ =~= seq!['h', 'n']);
        assert(gc.trigger@ =~= seq!['s', 'g']);
        assert(gd.trigger@ =~= seq!['t', 'p', 'h', 'c', 'm']);
        proof {
            reveal_with_fuel(find_from, 5);
        }
        table.add(a);
        assert(table@ =~= seq![ga]);
        table.add(b);
        assert(ga.trigger@ != gb.trigger@);
        assert(table@ =~= seq![ga, gb]);
        table.add(c);
        assert(ga.trigger@ != gc.trigger@ && gb.trigger@ != gc.trigger@);
        assert(table@ =~= seq![ga, gb, gc]);
        table.add(d);
        assert(ga.trigger@ != gd.trigger@ && gb.trigger@ != gd.trigger@ && gc.trigger@ != gd.trigger@);
        assert(table@ =~= seq![ga, gb, gc, gd]);
        ShortcutRepo { table }
    }

    /// Adds a shortcut (see `ShortcutTable::add`).
    pub fn add_shortcut(&mut self, shortcut: Shortcut) -> (r: bool)
        requires
            old(self).wf(),
        ensures
            final(self).wf(),
            r == (shortcut.trigger@.len() > 0),
            final(self)@ == added(old(self)@, shortcut),
    {
        self.table.add(shortcut)
    }

    /// Adds a shortcut for every input method.
    pub fn add(&mut self, trigger: &str, replacement: &str) -> (r: bool)
        requires
            old(self).wf(),
        ensures
            final(self).wf(),
            r == (trigger@.len() > 0),
            exists|sc: Shortcut| sc.trigger@ == trigger@ && sc.replacement@ == replacement@
                && sc.input_method == InputMethod::All && #[trigger] added(old(self)@, sc) == final(self)@,
    {
        let sc = Shortcut::new(trigger, replacement);
        let ghost g = sc;
        let r = self.add_shortcut(sc);
        assert(added(old(self)@, g) == self@);
        r
    }

    /// Removes the shortcut with this trigger.
    pub fn remove(&mut self, trigger: &str) -> (r: Option<Shortcut>)
        requires
            old(self).wf(),
        ensures
            final(self).wf(),
            find(old(self)@, trigger@, InputMethod::All) < 0 ==> r is None && final(self)@ == old(self)@,
            find(old(self)@, trigger@, InputMethod::All) >= 0 ==> r == Some(old(self)@[find(old(self)@, trigger@, InputMethod::All)])
                && final(self)@ == old(self)@.remove(find(old(self)@, trigger@, InputMethod::All)),
    {
        self.table.remove(trigger)
    }

    pub fn lookup(&self, buffer: &str) -> (r: Option<(&str, &Shortcut)>)
        ensures
            find(self@, buffer@, InputMethod::All) < 0 ==> r is None,
            find(self@, buffer@, InputMethod::All) >= 0 ==> r is Some
                && *r.unwrap().1 == self@[find(self@, buffer@, InputMethod::All)]
                && r.unwrap().0@ == buffer@,
    {
        self.table.lookup(buffer)
    }

    pub fn lookup_for_method(&self, buffer: &str, method: InputMethodId) -> (r: Option<(&str, &Shortcut)>)
        ensures
            find(self@, buffer@, method_of(method)) < 0 ==> r is None,
            find(self@, buffer@, method_of(method)) >= 0 ==> r is Some
                && *r.unwrap().1 == self@[find(self@, buffer@, method_of(method))]
                && r.unwrap().0@ == buffer@,
    {
        self.table.lookup_for_method(buffer, Self::map_input_method(method))
    }

    pub fn try_match(&self, buffer: &str, key_char: Option<char>, is_word_boundary: bool) -> (r: Option<ShortcutMatch>)
        ensures
            !is_word_boundary || find(self@, buffer@, InputMethod::All) < 0 ==> r is None,
            is_word_boundary && find(self@, buffer@, InputMethod::All) >= 0 ==> r is Some
                && r.unwrap().backspace_count == buffer@.len()
                && r.unwrap().output@ == match_output(self@[find(self@, buffer@, InputMethod::All)].replacement@, key_char),
    {
        self.table.try_match(buffer, key_char, is_word_boundary)
    }

    pub fn try_match_for_method(&self, buffer: &str, key_char: Option<char>, is_word_boundary: bool, method: InputMethodId) -> (r: Option<ShortcutMatch>)
        ensures
            !is_word_boundary || find(self@, buffer@, method_of(method)) < 0 ==> r is None,
            is_word_boundary && find(self@, buffer@, method_of(method)) >= 0 ==> r is Some
                && r.unwrap().backspace_count == buffer@.len()
                && r.unwrap().output@ == match_output(self@[find(self@, buffer@, method_of(method))].replacement@, key_char),
    {
        self.table.try_match_for_method(buffer, key_char, is_word_boundary, Self::map_input_method(method))
    }

/// The shortcuts as JSON (see `ShortcutTable::to_json`).
    pub fn to_json(&self) -> (r: String)
        ensures
            r@ == doc_json(entries_of(self@)),
    {
        self.table.to_json()
    }

    /// Adds the shortcuts listed in JSON (see `ShortcutTable::from_json`).
    pub fn from_json(&mut self, json: &str) -> (r: Result<usize, &'static str>)
        requires
            old(self).wf(),
        ensures
            final(self).wf(),
            parse_doc(json@) is None ==> r is Err && final(self)@ == old(self)@,
            parse_doc(json@) is Some ==> r is Ok && r.unwrap() == parse_doc(json@).unwrap().len()
                && entries_of(final(self)@) == add_entries(entries_of(old(self)@), parse_doc(json@).unwrap()),
    {
        self.table.from_json(json)
    }

    pub fn len(&self) -> (r: usize)
        ensures
            r == self@.len(),
    {
        self.table.len()
    }

    pub fn is_empty(&self) -> (r: bool)
        ensures
            r == (self@.len() == 0),
    {
        self.table.is_empty()
    }

    pub fn clear(&mut self)
        ensures
            final(self)@ == Seq::<Shortcut>::empty(),
            final(self).wf(),
    {
        self.table.clear();
    }

    fn map_input_method(method: InputMethodId) -> (r: InputMethod)
        ensures
            r == method_of(method),
    {
        match method {
            InputMethodId::Telex => InputMethod::Telex,
            InputMethodId::Vni => InputMethod::Vni,
            InputMethodId::Plain => InputMethod::All,
        }
    }
}

impl Default for ShortcutRepo {
    fn default() -> (r: ShortcutRepo)
        ensures
            r@ == Seq::<Shortcut>::empty(),
            r.wf(),
    {
        ShortcutRepo::new()
    }
}

// ── Laws ─────────────────────────────────────────────────────────────────────

/// Reading back what was added: after adding a shortcut with a nonempty trigger to a table
/// without repeated triggers, looking up its trigger finds exactly that shortcut, and the
/// table still has no repeated trigger.
pub proof fn lemma_lookup_after_add(s: Seq<Shortcut>, sc: Shortcut)
    requires
        distinct_triggers(s),
        sc.trigger@.len() > 0,
    ensures
        find(added(s, sc), sc.trigger@, InputMethod::All) >= 0,
        added(s, sc)[find(added(s, sc), sc.trigger@, InputMethod::All)] == sc,
        distinct_triggers(added(s, sc)),
{
    let t = sc.trigger@;
    lemma_find_from(s, t, InputMethod::All, 0);
    let i = find(s, t, InputMethod::All);
    let s2 = added(s, sc);
    lemma_find_from(s2, t, InputMethod::All, 0);
    if i >= 0 {
        assert(s2[i].trigger@ == t);
        lemma_find_unique(s2, t, i);
    } else {
        assert(s2[s.len() as int].trigger@ == t);
        assert forall|a: int, b: int| 0 <= a < b < s2.len() implies
            #[trigger] s2[a].trigger@ != #[trigger] s2[b].trigger@ by {
            if b == s.len() {
                assert(!(s[a].trigger@ == t && applies(s[a].input_method, InputMethod::All)));
            }
        }
        lemma_find_unique(s2, t, s.len() as int);
    }
}

/// In a table without repeated triggers, the lookup of the trigger at `i` lands on `i`.
proof fn lemma_find_unique(s: Seq<Shortcut>, t: Seq<char>, i: int)
    requires
        distinct_triggers(s),
        0 <= i < s.len(),
        s[i].trigger@ == t,
    ensures
        find(s, t, InputMethod::All) == i,
{
    lemma_find_from(s, t, InputMethod::All, 0);
    let k = find(s, t, InputMethod::All);
    assert(applies(s[i].input_method, InputMethod::All));
    if k == -1 {
        assert(!(s[i].trigger@ == t && applies(s[i].input_method, InputMethod::All)));
    } else if k != i {
        if k < i {
            assert(s[k].trigger@ != s[i].trigger@);
        } else {
            assert(s[i].trigger@ != s[k].trigger@);
        }
    }
}

/// A removed trigger is gone: in a table without repeated triggers, after removing the
/// shortcut of a trigger, looking it up finds nothing.
pub proof fn lemma_lookup_after_remove(s: Seq<Shortcut>, t: Seq<char>)
    requires
        distinct_triggers(s),
        find(s, t, InputMethod::All) >= 0,
    ensures
        find(s.remove(find(s, t, InputMethod::All)), t, InputMethod::All) < 0,
{
    lemma_find_from(s, t, InputMethod::All, 0);
    let i = find(s, t, InputMethod::All);
    let s2 = s.remove(i);
    lemma_find_from(s2, t, InputMethod::All, 0);
    let k = find(s2, t, InputMethod::All);
    if k >= 0 {
        let k0 = if k < i { k } else { k + 1 };
        assert(s2[k] == s[k0]);
        if k0 < i {
            assert(s[k0].trigger@ != s[i].trigger@);
        } else {
            assert(s[i].trigger@ != s[k0].trigger@);
        }
    }
}

proof fn lemma_find_entry_none(es: Seq<Entry>, t: Seq<char>, i: int)
    requires
        0 <= i <= es.len(),
        forall|k: int| i <= k < es.len() ==> (#[trigger] es[k]).0 != t,
    ensures
        find_entry_from(es, t, i) == -1,
    decreases es.len() - i,
{
    if i < es.len() {
        lemma_find_entry_none(es, t, i + 1);
    }
}

/// Saving and loading: the JSON text of a table reads back as the table's shortcuts, and
/// loading it into an empty repository gives back exactly those shortcuts, in order.
pub proof fn lemma_json_reload(s: Seq<Shortcut>)
    requires
        distinct_triggers(s),
        nonempty_triggers(s),
    ensures
        parse_doc(doc_json(entries_of(s))) == Some(entries_of(s)),
        add_entries(Seq::empty(), entries_of(s)) == entries_of(s),
    decreases s.len(),
{
    lemma_json_roundtrip(entries_of(s));
    let es = entries_of(s);
    if s.len() > 0 {
        let p = s.drop_last();
        assert forall|i: int, j: int| 0 <= i < j < p.len() implies
            #[trigger] p[i].trigger@ != #[trigger] p[j].trigger@ by {
            assert(s[i].trigger@ != s[j].trigger@);
        }
        assert forall|i: int| 0 <= i < p.len() implies (#[trigger] p[i]).trigger@.len() > 0 by {
            assert(s[i].trigger@.len() > 0);
        }
        lemma_json_reload(p);
        assert(entries_of(p) =~= es.drop_last());
        let last = es.last();
        assert(last == entry_of(s[s.len() - 1]));
        assert(s[s.len() - 1].trigger@.len() > 0);
        assert forall|k: int| 0 <= k < es.drop_last().len() implies (#[trigger] es.drop_last()[k]).0 != last.0 by {
            assert(es.drop_last()[k] == entry_of(s[k]));
            assert(s[k].trigger@ != s[s.len() - 1].trigger@);
        }
        lemma_find_entry_none(es.drop_last(), last.0, 0);
        assert(es.drop_last().push(last) =~= es);
    } else {
        assert(es =~= Seq::<Entry>::empty());
    }
}

} // verus!
