//! The typing engine: turns key presses into Vietnamese text under Telex or VNI.
//!
//! The engine keeps the composed characters of the current word, the raw keystrokes that
//! produced them and the words committed before, and answers every key press with what the
//! platform should do: let the key through, or delete some characters and type others.

use vstd::prelude::*;
use crate::buffer::{Buffer, Char, ImeResult, RawInputBuffer, ACTION_NONE, ACTION_SEND, MAX, RESULT_MAX};
use crate::chars;
use crate::dictionary::{english_keys, Dictionary};
use crate::keys;
use crate::phonotactic::{
    layer_scores_of, mask_of, overall_confidence, restore_confidence, restore_decision, AutoRestoreDecider,
    PhonotacticEngine, PhonotacticResult,
};
use crate::restore;
use crate::shortcut::ShortcutRepo;
use crate::text::{string_of, str_chars};
use crate::tone_positioning;
use crate::vietnamese_validator::{keys_form_syllable, result_of, ValidationResult, VietnameseSyllableValidator};

verus! {

/// Most committed words kept for backspace-after-space.
pub const HISTORY_CAPACITY: usize = 10;

/// Input methods by number: Telex, VNI; any other number types plain Latin letters.
pub const METHOD_TELEX: u8 = 0;
pub const METHOD_VNI: u8 = 1;

// ── Key rules of the input methods ───────────────────────────────────────────

/// The tone modifier (circumflex, or horn / breve) a key applies under `method`.
pub open spec fn tone_key_spec(method: u8, key: u16) -> Option<u8> {
    if method == METHOD_TELEX {
        if key == keys::A || key == keys::E || key == keys::O { Some(chars::TONE_CIRCUMFLEX) }
        else if key == keys::W { Some(chars::TONE_HORN) }
        else { None }
    } else if method == METHOD_VNI {
        if key == keys::N6 { Some(chars::TONE_CIRCUMFLEX) }
        else if key == keys::N7 || key == keys::N8 { Some(chars::TONE_HORN) }
        else { None }
    } else {
        None
    }
}

/// Whether a tone key may modify a vowel key: Telex a/e/o double their own vowel and w
/// hooks a, o, u; VNI 6 hats a, e, o, 7 hooks o, u and 8 gives a its breve.
pub open spec fn tone_target(method: u8, key: u16, vowel: u16) -> bool {
    if method == METHOD_TELEX {
        if key == keys::W { vowel == keys::A || vowel == keys::O || vowel == keys::U } else { vowel == key }
    } else {
        if key == keys::N6 { vowel == keys::A || vowel == keys::E || vowel == keys::O }
        else if key == keys::N7 { vowel == keys::O || vowel == keys::U }
        else { vowel == keys::A }
    }
}

/// The tone mark (sắc … nặng) a key applies under `method`.
pub open spec fn mark_key_spec(method: u8, key: u16) -> Option<u8> {
    if method == METHOD_TELEX {
        if key == keys::S { Some(chars::MARK_SAC) }
        else if key == keys::F { Some(chars::MARK_HUYEN) }
        else if key == keys::R { Some(chars::MARK_HOI) }
        else if key == keys::X { Some(chars::MARK_NGA) }
        else if key == keys::J { Some(chars::MARK_NANG) }
        else { None }
    } else if method == METHOD_VNI {
        if key == keys::N1 { Some(chars::MARK_SAC) }
        else if key == keys::N2 { Some(chars::MARK_HUYEN) }
        else if key == keys::N3 { Some(chars::MARK_HOI) }
        else if key == keys::N4 { Some(chars::MARK_NGA) }
        else if key == keys::N5 { Some(chars::MARK_NANG) }
        else { None }
    } else {
        None
    }
}

/// The key that strokes d into đ: Telex d, VNI 9.
pub open spec fn stroke_key_spec(method: u8, key: u16) -> bool {
    (method == METHOD_TELEX && key == keys::D) || (method == METHOD_VNI && key == keys::N9)
}

/// The key that removes marks: Telex z, VNI 0.
pub open spec fn remove_key_spec(method: u8, key: u16) -> bool {
    (method == METHOD_TELEX && key == keys::Z) || (method == METHOD_VNI && key == keys::N0)
}

fn tone_key(method: u8, key: u16) -> (r: Option<u8>)
    ensures
        r == tone_key_spec(method, key),
{
    if method == METHOD_TELEX {
        if key == keys::A || key == keys::E || key == keys::O { Some(chars::TONE_CIRCUMFLEX) }
        else if key == keys::W { Some(chars::TONE_HORN) }
        else { None }
    } else if method == METHOD_VNI {
        if key == keys::N6 { Some(chars::TONE_CIRCUMFLEX) }
        else if key == keys::N7 || key == keys::N8 { Some(chars::TONE_HORN) }
        else { None }
    } else {
        None
    }
}

fn is_tone_target(method: u8, key: u16, vowel: u16) -> (r: bool)
    ensures
        r == tone_target(method, key, vowel),
{
    if method == METHOD_TELEX {
        if key == keys::W { vowel == keys::A || vowel == keys::O || vowel == keys::U } else { vowel == key }
    } else {
        if key == keys::N6 { vowel == keys::A || vowel == keys::E || vowel == keys::O }
        else if key == keys::N7 { vowel == keys::O || vowel == keys::U }
        else { vowel == keys::A }
    }
}

fn mark_key(method: u8, key: u16) -> (r: Option<u8>)
    ensures
        r == mark_key_spec(method, key),
{
    if method == METHOD_TELEX {
        if key == keys::S { Some(chars::MARK_SAC) }
        else if key == keys::F { Some(chars::MARK_HUYEN) }
        else if key == keys::R { Some(chars::MARK_HOI) }
        else if key == keys::X { Some(chars::MARK_NGA) }
        else if key == keys::J { Some(chars::MARK_NANG) }
        else { None }
    } else if method == METHOD_VNI {
        if key == keys::N1 { Some(chars::MARK_SAC) }
        else if key == keys::N2 { Some(chars::MARK_HUYEN) }
        else if key == keys::N3 { Some(chars::MARK_HOI) }
        else if key == keys::N4 { Some(chars::MARK_NGA) }
        else if key == keys::N5 { Some(chars::MARK_NANG) }
        else { None }
    } else {
        None
    }
}

fn is_stroke_key(method: u8, key: u16) -> (r: bool)
    ensures
        r == stroke_key_spec(method, key),
{
    (method == METHOD_TELEX && key == keys::D) || (method == METHOD_VNI && key == keys::N9)
}

fn is_remove_key(method: u8, key: u16) -> (r: bool)
    ensures
        r == remove_key_spec(method, key),
{
    (method == METHOD_TELEX && key == keys::Z) || (method == METHOD_VNI && key == keys::N0)
}

/// Keys that end a word: return, tab and the semicolon key.
pub open spec fn break_key(key: u16) -> bool {
    key == keys::RETURN || key == keys::TAB || key == keys::SEMICOLON
}

// ── Display ──────────────────────────────────────────────────────────────────

/// The character a composed character shows.
pub open spec fn display(c: Char) -> Option<char> {
    if c.key == keys::D && c.stroke {
        Some(if c.caps { 'Đ' } else { 'đ' })
    } else {
        chars::to_char_spec(c.key, c.caps, c.tone, c.mark)
    }
}

/// A plain letter shows as the character of its key.
proof fn lemma_plain_letter_display(key: u16, caps: bool)
    requires
        keys::letter_of(key) is Some,
    ensures
        display(Char { key, caps, tone: 0, mark: 0, stroke: false }) == keys::key_char_spec(key, caps),
{
    chars::lemma_plain_char(key, caps);
}

/// The characters a run of composed characters shows (those that show nothing are skipped).
pub open spec fn rendered(s: Seq<Char>) -> Seq<char>
    decreases s.len(),
{
    if s.len() == 0 {
        Seq::empty()
    } else {
        rendered(s.drop_last()) + match display(s.last()) {
            Some(c) => seq![c],
            None => Seq::<char>::empty(),
        }
    }
}

proof fn lemma_rendered_len(s: Seq<Char>)
    ensures
        rendered(s).len() <= s.len(),
    decreases s.len(),
{
    if s.len() > 0 {
        lemma_rendered_len(s.drop_last());
    }
}

fn show(c: Char) -> (r: Option<char>)
    ensures
        r == display(c),
{
    if c.key == keys::D && c.stroke {
        Some(if c.caps { 'Đ' } else { 'đ' })
    } else {
        chars::to_char(c.key, c.caps, c.tone, c.mark)
    }
}

/// What the characters of `buf` from `from` on show.
fn render_from(buf: &Buffer, from: usize) -> (r: Vec<char>)
    requires
        from <= buf@.len(),
    ensures
        r@ == rendered(buf@.subrange(from as int, buf@.len() as int)),
{
    let n = buf.len();
    let mut out: Vec<char> = Vec::new();
    let mut i: usize = from;
    while i < n
        invariant
            n == buf@.len(),
            from <= i <= n,
            out@ == rendered(buf@.subrange(from as int, i as int)),
        decreases n - i,
    {
        let c = buf.get(i).unwrap();
        let ghost before = buf@.subrange(from as int, i as int);
        match show(c) {
            Some(ch) => out.push(ch),
            None => {},
        }
        i = i + 1;
        assert(buf@.subrange(from as int, i as int).drop_last() =~= before);
    }
    out
}

pub open spec fn is_none(r: ImeResult) -> bool {
    r.action == ACTION_NONE && r.backspace == 0 && r.count == 0 && r.chars@.len() == 0
}

pub open spec fn is_send(r: ImeResult, backspace: int, out: Seq<char>) -> bool {
    r.action == ACTION_SEND && r.backspace == backspace && r.chars@ == out && r.count == out.len()
}

// ── Syllable rules for diacritics ────────────────────────────────────────────

/// Consonant keys that may end a syllable on their own: c, m, n, p, t.
pub open spec fn final_key(k: u16) -> bool {
    k == keys::C || k == keys::M || k == keys::N || k == keys::P || k == keys::T
}

/// Two-letter syllable endings: ch, ng, nh.
pub open spec fn final_pair(a: u16, b: u16) -> bool {
    (a == keys::C && b == keys::H) || (a == keys::N && (b == keys::G || b == keys::H))
}

fn is_final_key(k: u16) -> (r: bool)
    ensures
        r == final_key(k),
{
    k == keys::C || k == keys::M || k == keys::N || k == keys::P || k == keys::T
}

/// Whether a vowel stands before `i`.
pub open spec fn vowel_before(s: Seq<Char>, i: int) -> bool {
    exists|j: int| 0 <= j < i && keys::is_vowel_key(#[trigger] s[j].key)
}

/// A diacritic may go on the character at `pos`: not on a vowel that a final consonant
/// closes (unless, applied backward, that consonant ends the word, or a two-letter ending
/// ends it), and not on a vowel that starts a new syllable after a closed one.
pub open spec fn diacritic_allowed(s: Seq<Char>, pos: int, backward: bool) -> bool {
    if pos >= s.len() || !keys::is_vowel_key(s[pos].key) {
        true
    } else if pos + 1 < s.len() && !keys::is_vowel_key(s[pos + 1].key) && final_key(s[pos + 1].key) {
        if pos + 2 >= s.len() {
            backward
        } else {
            final_pair(s[pos + 1].key, s[pos + 2].key) && pos + 3 >= s.len()
        }
    } else if pos > 0 && !keys::is_vowel_key(s[pos - 1].key) && final_key(s[pos - 1].key) {
        !vowel_before(s, pos - 1)
    } else {
        true
    }
}

/// Index of the last character from `i` down with a tone mark or modifier (per `tone_not_mark`), or -1.
pub open spec fn last_marked(s: Seq<Char>, i: int) -> int
    decreases i + 1,
{
    if i < 0 {
        -1
    } else if keys::is_vowel_key(s[i].key) && s[i].mark > 0 {
        i
    } else {
        last_marked(s, i - 1)
    }
}

/// Index of the last vowel from `i` down with a tone modifier, or -1.
pub open spec fn last_toned(s: Seq<Char>, i: int) -> int
    decreases i + 1,
{
    if i < 0 {
        -1
    } else if keys::is_vowel_key(s[i].key) && s[i].tone > 0 {
        i
    } else {
        last_toned(s, i - 1)
    }
}

/// The plain characters that raw keystrokes stand for.
pub open spec fn plain_chars(raw: Seq<(u16, bool)>) -> Seq<Char> {
    raw.map_values(|p: (u16, bool)| Char { key: p.0, caps: p.1, tone: 0, mark: 0, stroke: false })
}

/// The characters of a restored word: each character of `cs` that parses, split into parts.
pub open spec fn parsed_word(cs: Seq<char>) -> Seq<Char>
    decreases cs.len(),
{
    if cs.len() == 0 {
        Seq::empty()
    } else {
        parsed_word(cs.drop_last()) + match chars::parse_spec(cs.last()) {
            Some(p) => seq![Char { key: p.key, caps: p.caps, tone: p.tone, mark: p.mark, stroke: p.stroke }],
            None => Seq::<Char>::empty(),
        }
    }
}

/// The plain letters (no diacritics) the characters show.
pub open spec fn plain_rendered(s: Seq<Char>) -> Seq<char>
    decreases s.len(),
{
    if s.len() == 0 {
        Seq::empty()
    } else {
        plain_rendered(s.drop_last()) + match keys::key_char_spec(s.last().key, s.last().caps) {
            Some(c) => seq![c],
            None => Seq::<char>::empty(),
        }
    }
}

proof fn lemma_plain_rendered_len(s: Seq<Char>)
    ensures
        plain_rendered(s).len() <= s.len(),
    decreases s.len(),
{
    if s.len() > 0 {
        lemma_plain_rendered_len(s.drop_last());
    }
}

/// What the characters of `buf` from `from` on show as plain letters.
fn plain_from(buf: &Buffer, from: usize) -> (r: Vec<char>)
    requires
        from <= buf@.len(),
    ensures
        r@ == plain_rendered(buf@.subrange(from as int, buf@.len() as int)),
{
    let n = buf.len();
    let mut out: Vec<char> = Vec::new();
    let mut i: usize = from;
    while i < n
        invariant
            n == buf@.len(),
            from <= i <= n,
            out@ == plain_rendered(buf@.subrange(from as int, i as int)),
        decreases n - i,
    {
        let c = buf.get(i).unwrap();
        let ghost before = buf@.subrange(from as int, i as int);
        match keys::key_to_char(c.key, c.caps) {
            Some(ch) => out.push(ch),
            None => {},
        }
        i = i + 1;
        assert(buf@.subrange(from as int, i as int).drop_last() =~= before);
    }
    out
}

/// `s` with one more plain character, unless it is full.
pub open spec fn pushed(s: Seq<Char>, key: u16, caps: bool) -> Seq<Char> {
    if s.len() < MAX { s.push(Char { key, caps, tone: 0, mark: 0, stroke: false }) } else { s }
}

/// Result of undoing a transform at `pos` by retyping the key: delete from `pos` to the end,
/// then type the letters from `pos` on, the new key included.
pub open spec fn retyped(before: Seq<Char>, after: Seq<Char>, pos: int, r: ImeResult) -> bool {
    let out = plain_rendered(after.subrange(pos, after.len() as int));
    &&& r.action == ACTION_SEND
    &&& r.backspace == before.len() - pos
    &&& r.chars@ == out
    &&& r.count == out.len()
}


proof fn lemma_last_marked_range(s: Seq<Char>, i: int)
    requires
        i < s.len(),
    ensures
        last_marked(s, i) < 0 || (0 <= last_marked(s, i) <= i && s[last_marked(s, i)].mark > 0),
    decreases i + 1,
{
    if i >= 0 {
        lemma_last_marked_range(s, i - 1);
    }
}

proof fn lemma_last_toned_range(s: Seq<Char>, i: int)
    requires
        i < s.len(),
    ensures
        last_toned(s, i) < 0 || (0 <= last_toned(s, i) <= i && s[last_toned(s, i)].tone > 0),
    decreases i + 1,
{
    if i >= 0 {
        lemma_last_toned_range(s, i - 1);
    }
}

proof fn lemma_none_marked(s: Seq<Char>, i: int)
    requires
        i < s.len(),
        forall|j: int| 0 <= j <= i ==> !(keys::is_vowel_key(#[trigger] s[j].key) && (s[j].mark > 0 || s[j].tone > 0)),
    ensures
        last_marked(s, i) < 0,
        last_toned(s, i) < 0,
    decreases i + 1,
{
    if i >= 0 {
        assert(!(keys::is_vowel_key(s[i].key) && (s[i].mark > 0 || s[i].tone > 0)));
        lemma_none_marked(s, i - 1);
    }
}


proof fn lemma_rendered_nonempty(s: Seq<Char>)
    requires
        s.len() > 0,
        display(s[0]) is Some,
    ensures
        rendered(s).len() > 0,
    decreases s.len(),
{
    if s.len() > 1 {
        assert(s.drop_last()[0] == s[0]);
        lemma_rendered_nonempty(s.drop_last());
    }
}

/// The keys (with case) of the characters are the same in both.
pub open spec fn same_keys(a: Seq<Char>, b: Seq<Char>) -> bool {
    &&& a.len() == b.len()
    &&& forall|i: int| 0 <= i < a.len() ==> (#[trigger] a[i]).key == b[i].key && a[i].caps == b[i].caps
}

/// Base keys of the characters.
pub open spec fn keys_of(s: Seq<Char>) -> Seq<u16> {
    s.map_values(|c: Char| c.key)
}

/// Tone modifiers of the characters.
pub open spec fn tones_of(s: Seq<Char>) -> Seq<u8> {
    s.map_values(|c: Char| c.tone)
}

fn buffer_keys(buf: &Buffer) -> (r: (Vec<u16>, Vec<u8>))
    ensures
        r.0@ == keys_of(buf@),
        r.1@ == tones_of(buf@),
{
    let n = buf.len();
    let mut ks: Vec<u16> = Vec::new();
    let mut ts: Vec<u8> = Vec::new();
    let mut i: usize = 0;
    while i < n
        invariant
            n == buf@.len(),
            i <= n,
            ks@ == keys_of(buf@).take(i as int),
            ts@ == tones_of(buf@).take(i as int),
        decreases n - i,
    {
        let c = buf.get(i).unwrap();
        ks.push(c.key);
        ts.push(c.tone);
        i = i + 1;
        assert(ks@ =~= keys_of(buf@).take(i as int));
        assert(ts@ =~= tones_of(buf@).take(i as int));
    }
    assert(ks@ =~= keys_of(buf@));
    assert(ts@ =~= tones_of(buf@));
    (ks, ts)
}

proof fn lemma_repositioned_keys(s: Seq<Char>)
    ensures
        same_keys(tone_positioning::repositioned(s).1, s),
        tones_of(tone_positioning::repositioned(s).1) == tones_of(s),
{
    let r = tone_positioning::repositioned(s).1;
    assert(tones_of(r) =~= tones_of(s));
}

/// The history after committing a word: it joins at the end, the oldest leaves when full.
pub open spec fn history_pushed(h: Seq<(Seq<Char>, Seq<(u16, bool)>)>, w: (Seq<Char>, Seq<(u16, bool)>))
    -> Seq<(Seq<Char>, Seq<(u16, bool)>)>
{
    if h.len() < HISTORY_CAPACITY { h.push(w) } else { h.drop_first().push(w) }
}

/// Key codes of raw keystrokes.
pub open spec fn raw_keys(raw: Seq<(u16, bool)>) -> Seq<u16> {
    raw.map_values(|p: (u16, bool)| p.0)
}

fn raw_key_list(raw: &RawInputBuffer) -> (r: Vec<u16>)
    ensures
        r@ == raw_keys(raw@),
{
    let n = raw.len();
    let mut out: Vec<u16> = Vec::new();
    let mut i: usize = 0;
    while i < n
        invariant
            n == raw@.len(),
            i <= n,
            out@ == raw_keys(raw@).take(i as int),
        decreases n - i,
    {
        out.push(raw.get(i).0);
        i = i + 1;
        assert(out@ =~= raw_keys(raw@).take(i as int));
    }
    assert(out@ =~= raw_keys(raw@));
    out
}

fn raw_pairs(raw: &RawInputBuffer) -> (r: Vec<(u16, bool)>)
    ensures
        r@ == raw@,
{
    let n = raw.len();
    let mut out: Vec<(u16, bool)> = Vec::new();
    let mut i: usize = 0;
    while i < n
        invariant
            n == raw@.len(),
            i <= n,
            out@ == raw@.take(i as int),
        decreases n - i,
    {
        out.push(raw.get(i));
        i = i + 1;
        assert(out@ =~= raw@.take(i as int));
    }
    assert(out@ =~= raw@);
    out
}

/// The keystrokes after one more key is recorded.
pub open spec fn raw_pushed(raw: Seq<(u16, bool)>, key: u16, caps: bool) -> Seq<(u16, bool)> {
    if raw.len() < crate::buffer::RAW_CAPACITY { raw.push((key, caps)) } else { raw.drop_first().push((key, caps)) }
}

/// Number of layers that scored.
pub open spec fn scored_layers(sc: Seq<u8>) -> int
    decreases sc.len(),
{
    if sc.len() == 0 { 0 } else { scored_layers(sc.drop_last()) + (if sc.last() > 0 { 1int } else { 0 }) }
}

/// The tone keys of the input methods and the engine agree: the mark a Telex letter or a VNI
/// digit writes in the engine is the mark of the tone that key stands for.
pub proof fn lemma_tone_keys_agree(key: u16)
    ensures
        keys::letter_of(key) is Some && crate::input::telex_tone(keys::letter_of(key).unwrap()) is Some
            ==> mark_key_spec(METHOD_TELEX, key)
                == Some(crate::transform::tone_mark(crate::input::telex_tone(keys::letter_of(key).unwrap()).unwrap())),
        keys::digit_of(key) is Some && crate::input::vni_tone(keys::digit_of(key).unwrap()) is Some
            ==> mark_key_spec(METHOD_VNI, key)
                == Some(crate::transform::tone_mark(crate::input::vni_tone(keys::digit_of(key).unwrap()).unwrap())),
{
}

/// A modifier key of the method: tone, mark, stroke or remove.
pub open spec fn modifier_key(method: u8, key: u16) -> bool {
    tone_key_spec(method, key) is Some || mark_key_spec(method, key) is Some
        || stroke_key_spec(method, key) || remove_key_spec(method, key)
}

proof fn lemma_set_tone_keys(s: Seq<Char>, i: int, t: u8)
    requires
        0 <= i < s.len(),
    ensures
        same_keys(s.update(i, Char { tone: t, ..s[i] }), s),
{
}

/// The modifiers with every unmodified e and o given the circumflex (`hat`), or every
/// unmodified u and o given the horn.
pub open spec fn filled_tones(ks: Seq<u16>, ts: Seq<u8>, hat: bool) -> Seq<u8> {
    Seq::new(ts.len(), |i: int|
        if ts[i] != 0 || i >= ks.len() { ts[i] }
        else if hat && (ks[i] == keys::E || ks[i] == keys::O) { chars::TONE_CIRCUMFLEX }
        else if !hat && (ks[i] == keys::U || ks[i] == keys::O) { chars::TONE_HORN }
        else { ts[i] })
}

/// The word is, or can still become by adding modifiers, a Vietnamese syllable.
pub open spec fn may_be_vietnamese(ks: Seq<u16>, ts: Seq<u8>) -> bool {
    keys_form_syllable(ks, ts) || keys_form_syllable(ks, filled_tones(ks, ts, true))
        || keys_form_syllable(ks, filled_tones(ks, ts, false))
}

fn fill_tones(ks: &[u16], ts: &[u8], hat: bool) -> (r: Vec<u8>)
    requires
        ks@.len() == ts@.len(),
    ensures
        r@ == filled_tones(ks@, ts@, hat),
{
    let mut out: Vec<u8> = Vec::new();
    let mut i: usize = 0;
    while i < ts.len()
        invariant
            ks@.len() == ts@.len(),
            i <= ts@.len(),
            out@ == filled_tones(ks@, ts@, hat).take(i as int),
        decreases ts@.len() - i,
    {
        let k = ks[i];
        let v = if ts[i] != 0 { ts[i] }
            else if hat && (k == keys::E || k == keys::O) { chars::TONE_CIRCUMFLEX }
            else if !hat && (k == keys::U || k == keys::O) { chars::TONE_HORN }
            else { ts[i] };
        out.push(v);
        i = i + 1;
        assert(out@ =~= filled_tones(ks@, ts@, hat).take(i as int));
    }
    assert(out@ =~= filled_tones(ks@, ts@, hat));
    out
}

fn may_be_syllable(ks: &[u16], ts: &[u8]) -> (r: bool)
    requires
        ks@.len() == ts@.len(),
    ensures
        r == may_be_vietnamese(ks@, ts@),
{
    if VietnameseSyllableValidator::validate_with_tones(ks, ts).is_valid {
        return true;
    }
    let hat = fill_tones(ks, ts, true);
    if VietnameseSyllableValidator::validate_with_tones(ks, hat.as_slice()).is_valid {
        return true;
    }
    let horn = fill_tones(ks, ts, false);
    VietnameseSyllableValidator::validate_with_tones(ks, horn.as_slice()).is_valid
}

/// Restore confidence from an English confidence and a syllable check: the mean of the
/// English confidence and the Vietnamese doubt, at most 100.
pub open spec fn confidence_for(english: int, v: ValidationResult) -> int {
    let doubt = if v.confidence <= 100 { 100 - v.confidence } else { 0 };
    let m = (english + doubt) / 2;
    if m < 100 { m } else { 100 }
}

/// The keystrokes that type the characters of a word (their keys and case).
pub open spec fn raw_of_word(s: Seq<Char>) -> Seq<(u16, bool)> {
    s.map_values(|c: Char| (c.key, c.caps))
}

/// The keys of a word for the syllable check: w and f right after a vowel (Telex modifiers)
/// left out.
pub open spec fn cleaned_keys(s: Seq<Char>) -> Seq<u16>
    decreases s.len(),
{
    if s.len() == 0 {
        Seq::empty()
    } else {
        let k = s.last().key;
        let skip = (k == keys::W || k == keys::F) && s.len() > 1 && keys::is_vowel_key(s[s.len() - 2].key);
        cleaned_keys(s.drop_last()) + (if skip { Seq::<u16>::empty() } else { seq![k] })
    }
}

/// A u and an o side by side both carry the horn.
pub open spec fn complete_uo(s: Seq<Char>) -> bool {
    exists|i: int| 1 <= i < s.len() && #[trigger] s[i].key == keys::O && s[i - 1].key == keys::U
        && s[i].tone == chars::TONE_HORN && s[i - 1].tone == chars::TONE_HORN
}

/// Some character carries a tone mark.
pub open spec fn has_mark(s: Seq<Char>) -> bool {
    exists|i: int| 0 <= i < s.len() && (#[trigger] s[i]).mark > 0
}

/// The restore decision over an analysis's confidence and matched-layer mask.
pub open spec fn restore_wanted(confidence: int, mask: u8, v: ValidationResult, transformed: bool) -> bool {
    &&& transformed
    &&& !v.is_valid
    &&& (confidence > 75 && v.confidence < 50)
        || (crate::phonotactic::layer_count(mask) >= 3 && v.confidence < 30)
        || confidence >= 80
}

/// The restore of a word to its raw keys, with `offset` characters fewer deleted: nothing
/// without a transform or keys that type nothing; otherwise delete as many characters as the
/// word and the keys both have (at most 255, less `offset`) and type the keys.
pub open spec fn restore_result(word: Seq<Char>, raw: Seq<(u16, bool)>, offset: int, r: ImeResult) -> bool {
    let nothing = raw.len() == 0 || word.len() == 0 || !restore::any_transform(word) || restore::typed(raw).len() == 0;
    let full = restore::min3(word.len() as int, raw.len() as int, 255);
    &&& nothing ==> is_none(r)
    &&& !nothing ==> {
        &&& r.action == ACTION_SEND
        &&& r.backspace == (if full > offset { full - offset } else { 0 })
        &&& r.chars@ == restore::typed(raw).take(
            if restore::typed(raw).len() < RESULT_MAX { restore::typed(raw).len() as int } else { RESULT_MAX as int })
        &&& r.count == r.chars@.len()
    }
}

/// Index of the last plain (unstroked) d at or before `i`, or -1.
pub open spec fn last_plain_d(s: Seq<Char>, i: int) -> int
    decreases i + 1,
{
    if i < 0 { -1 } else if s[i].key == keys::D && !s[i].stroke { i } else { last_plain_d(s, i - 1) }
}

/// Index of the first plain d at or after `i`, or -1.
pub open spec fn first_plain_d(s: Seq<Char>, i: int) -> int
    decreases s.len() - i,
{
    if i >= s.len() || i < 0 { -1 } else if s[i].key == keys::D && !s[i].stroke { i } else { first_plain_d(s, i + 1) }
}

/// The d the stroke key turns into đ: the last plain one under Telex, the first under VNI.
pub open spec fn stroke_target(s: Seq<Char>, telex: bool) -> int {
    if telex { last_plain_d(s, s.len() - 1) } else { first_plain_d(s, 0) }
}

proof fn lemma_last_plain_d(s: Seq<Char>, i: int)
    requires
        i < s.len(),
    ensures
        last_plain_d(s, i) < 0 || (0 <= last_plain_d(s, i) <= i && s[last_plain_d(s, i)].key == keys::D
            && !s[last_plain_d(s, i)].stroke),
    decreases i + 1,
{
    if i >= 0 { lemma_last_plain_d(s, i - 1); }
}

proof fn lemma_first_plain_d(s: Seq<Char>, i: int)
    requires
        0 <= i,
    ensures
        first_plain_d(s, i) < 0 || (i <= first_plain_d(s, i) < s.len() && s[first_plain_d(s, i)].key == keys::D
            && !s[first_plain_d(s, i)].stroke),
    decreases s.len() - i,
{
    if i < s.len() { lemma_first_plain_d(s, i + 1); }
}

/// Index of the last vowel at or before `i` that the tone key targets and that carries a
/// different modifier, or -1.
pub open spec fn switch_target(s: Seq<Char>, method: u8, key: u16, tv: u8, i: int) -> int
    decreases i + 1,
{
    if i < 0 { -1 }
    else if tone_target(method, key, s[i].key) && s[i].tone != 0 && s[i].tone != tv { i }
    else { switch_target(s, method, key, tv, i - 1) }
}

/// Index of the last vowel at or before `i` that the tone key targets and that carries no
/// modifier, or -1.
pub open spec fn plain_target(s: Seq<Char>, method: u8, key: u16, i: int) -> int
    decreases i + 1,
{
    if i < 0 { -1 }
    else if tone_target(method, key, s[i].key) && s[i].tone == 0 { i }
    else { plain_target(s, method, key, i - 1) }
}

/// Where a tone key applies: a target vowel to switch, else the last plain target vowel.
pub open spec fn tone_position(s: Seq<Char>, method: u8, key: u16, tv: u8) -> int {
    let sw = switch_target(s, method, key, tv, s.len() - 1);
    if sw >= 0 { sw } else { plain_target(s, method, key, s.len() - 1) }
}

/// Telex w after a plain a is left to the ă rule, unless the a follows u (not after q).
pub open spec fn w_left_for_breve(s: Seq<Char>, method: u8, key: u16) -> bool {
    &&& method == METHOD_TELEX && key == keys::W && s.len() > 0
    &&& s.last().key == keys::A && s.last().tone == chars::TONE_NONE && s.last().mark == chars::MARK_NONE
    &&& !(s.len() >= 2 && s[s.len() - 2].key == keys::U && !(s.len() >= 3 && s[s.len() - 3].key == keys::Q))
}

proof fn lemma_switch_target(s: Seq<Char>, method: u8, key: u16, tv: u8, i: int)
    requires
        -1 <= i < s.len(),
    ensures
        switch_target(s, method, key, tv, i) <= i,
        switch_target(s, method, key, tv, i) >= 0 ==> tone_target(method, key, s[switch_target(s, method, key, tv, i)].key)
            && s[switch_target(s, method, key, tv, i)].tone != tv,
    decreases i + 1,
{
    if i >= 0 { lemma_switch_target(s, method, key, tv, i - 1); }
}

proof fn lemma_plain_target(s: Seq<Char>, method: u8, key: u16, i: int)
    requires
        -1 <= i < s.len(),
    ensures
        plain_target(s, method, key, i) <= i,
        plain_target(s, method, key, i) >= 0 ==> tone_target(method, key, s[plain_target(s, method, key, i)].key)
            && s[plain_target(s, method, key, i)].tone == 0,
    decreases i + 1,
{
    if i >= 0 { lemma_plain_target(s, method, key, i - 1); }
}

proof fn lemma_same_keys_trans(a: Seq<Char>, b: Seq<Char>, c: Seq<Char>)
    requires
        same_keys(a, b),
        same_keys(b, c),
    ensures
        same_keys(a, c),
{
    assert forall|i: int| 0 <= i < a.len() implies (#[trigger] a[i]).key == c[i].key && a[i].caps == c[i].caps by {
        assert(a[i].key == b[i].key && b[i].key == c[i].key);
    }
}

/// Index (from `i` on) of the first plain o right after a ư, or -1.
pub open spec fn first_uo(s: Seq<Char>, i: int) -> int
    decreases s.len() - i,
{
    if i >= s.len() || i < 1 { -1 }
    else if s[i - 1].key == keys::U && s[i - 1].tone == chars::TONE_HORN && s[i].key == keys::O
        && s[i].tone == chars::TONE_NONE { i }
    else { first_uo(s, i + 1) }
}

/// The word with its first ư followed by a plain o turned into ươ.
pub open spec fn uo_normalized(s: Seq<Char>) -> Seq<Char> {
    let k = first_uo(s, 1);
    if k >= 0 { s.update(k, Char { tone: chars::TONE_HORN, ..s[k] }) } else { s }
}

proof fn lemma_first_uo(s: Seq<Char>, i: int)
    requires
        1 <= i,
    ensures
        first_uo(s, i) < 0 || (i <= first_uo(s, i) < s.len()),
    decreases s.len() - i,
{
    if i < s.len() { lemma_first_uo(s, i + 1); }
}

/// English is detected in a transformed word: the raw keys spell a dictionary word, or the
/// English confidence reaches 95 (when the word may still be Vietnamese) or 60 (when it
/// cannot, and not in strict mode).
pub open spec fn english_due(w: Seq<Char>, dict: bool, conf: int, strict: bool) -> bool {
    restore::any_transform(w) && (dict
        || (if may_be_vietnamese(keys_of(w), tones_of(w)) { conf >= 95 } else { !strict && conf >= 60 }))
}

/// `r` deletes the characters of `s` from `from` on and types them as they now show
/// (nothing when they show nothing).
pub open spec fn rebuilt(s: Seq<Char>, from: int, backspace: int, r: ImeResult) -> bool {
    let out = rendered(s.subrange(from, s.len() as int));
    &&& out.len() == 0 ==> is_none(r)
    &&& out.len() > 0 ==> is_send(r, backspace, out)
}

/// `r` deletes the `n - from` characters a word of `n` characters showed from `from` on and
/// types what `s` now shows from there.
pub open spec fn rebuilt_since(s: Seq<Char>, n: int, from: int, r: ImeResult) -> bool {
    rebuilt(s, from, n - from, r)
}

/// A mark key takes effect on the word `w`: it is a mark key only (under Telex or VNI), it
/// does not repeat the last mark, the word (with ư before o made ươ) has vowels and the vowel
/// the placement rules pick, and it may still be Vietnamese; nor is it then restored as a
/// dictionary word (`dict_restore`).
pub open spec fn mark_applies(w: Seq<Char>, last: Option<Transform>, method: u8, key: u16, dict_restore: bool) -> bool {
    let w1 = uo_normalized(w);
    let vs = tone_positioning::vowels_of(w1);
    let p = tone_positioning::mark_position(vs) as int;
    &&& method == METHOD_TELEX || method == METHOD_VNI
    &&& mark_key_spec(method, key) is Some
    &&& tone_key_spec(method, key) is None && !stroke_key_spec(method, key) && !remove_key_spec(method, key)
    &&& keys::digit_of(key) is None
    &&& w.len() > 0
    &&& !(last matches Some(Transform::Mark(k, _)) && k == key)
    &&& vs.len() > 0 && p < w.len()
    &&& may_be_vietnamese(keys_of(w1), tones_of(w1))
    &&& !(w.len() > 1 && dict_restore)
}

/// The word and the screen edit after a mark key that takes effect.
pub open spec fn mark_effect(w: Seq<Char>, method: u8, key: u16, after: Seq<Char>, r: ImeResult) -> bool {
    let w1 = uo_normalized(w);
    let p = tone_positioning::mark_position(tone_positioning::vowels_of(w1)) as int;
    let k = first_uo(w, 1);
    let from = if k >= 0 && k < p { k } else { p };
    &&& after == w1.update(p, Char { mark: mark_key_spec(method, key).unwrap(), ..w1[p] })
    &&& rebuilt(after, from, w.len() - from, r)
}

/// The keystrokes `raw` of the word `w` are clearly English: they start with e, x, or the
/// word cannot become a Vietnamese syllable and the English analysis is sure (95) or found a
/// foreign initial.
pub open spec fn definite_english_of(w: Seq<Char>, raw: Seq<(u16, bool)>) -> bool {
    &&& raw.len() > 0
    &&& (raw.len() >= 2 && raw[0].0 == keys::E && raw[1].0 == keys::X)
        || (!may_be_vietnamese(keys_of(w), tones_of(w))
            && (overall_confidence(layer_scores_of(raw)) >= 95 || layer_scores_of(raw)[0] > 0))
}

/// The keystrokes `raw` of the word `w` look English: a dictionary word, or, when the word
/// with the last key cannot become a Vietnamese syllable, an analysis at 95, or one that
/// matched and is at 80 or scored on two layers. Never for a complete ươ with a tone mark.
pub open spec fn english_pattern_of(w: Seq<Char>, raw: Seq<(u16, bool)>, method: u8) -> bool {
    let sc = layer_scores_of(raw);
    let conf = overall_confidence(sc);
    &&& raw.len() > 0
    &&& !(complete_uo(w) && has_mark(w))
    &&& (dict_word_of(raw, method) || (!may_be_vietnamese(keys_of(w).push(raw.last().0),
            tones_of(w).push(chars::TONE_NONE))
            && (conf >= 95 || (mask_of(sc) > 0 && (conf >= 80 || scored_layers(sc) >= 2)))))
}

/// A letter makes the word English under Telex and VNI: f, j or z typed first, or, from the
/// second key on, a dictionary word, or (the word not yet English) a clear or likely English
/// pattern.
pub open spec fn english_trigger_of(w: Seq<Char>, raw: Seq<(u16, bool)>, method: u8, english: bool) -> bool {
    &&& method == METHOD_TELEX || method == METHOD_VNI
    &&& (raw.len() == 1 && (raw[0].0 == keys::F || raw[0].0 == keys::J || raw[0].0 == keys::Z))
        || (raw.len() >= 2 && (dict_word_of(raw, method)
            || (!english && (definite_english_of(w, raw) || english_pattern_of(w, raw, method)))))
}

/// A letter joins the word `w` (keystrokes `raw`, the key already among them) as a plain
/// character when the word has room, no o follows a w typed as ư, the English word has not
/// lost keys to transforms and no ươ forms: the word grows by the letter and nothing is sent;
/// when the tone mark then has to move, it moves and the word is typed again from where it
/// stood (the new letter not yet shown); unless the word is then due for an English restore
/// (`restore_on`), which types the keys as they were.
pub open spec fn letter_step(w: Seq<Char>, raw: Seq<(u16, bool)>, last: Option<Transform>, english: bool,
    restore_on: bool, method: u8, key: u16, caps: bool, after: Seq<Char>, r: ImeResult) -> bool {
    let pw = pushed(w, key, caps);
    let rp = tone_positioning::repositioned(pw);
    let conf = overall_confidence(layer_scores_of(raw));
    let due = restore_on && english_due(rp.1, dict_word_of(raw, method), conf, false);
    keys::letter_of(key) is Some && !(key == keys::O && last == Some(Transform::WAsVowel))
        && w.len() < MAX && !(english && raw.len() > w.len() + 1)
        && !(key == keys::O && first_uo(pw, 1) >= 0) ==> {
        &&& due ==> after == plain_chars(raw) && restore_result(rp.1, raw, 1, r)
        &&& !due && rp.0 is None ==> after == pw && is_none(r)
        &&& !due && rp.0 is Some ==> after == rp.1 && (rp.0.unwrap().0 < pw.len() ==>
            rebuilt(rp.1, rp.0.unwrap().0 as int, pw.len() - 1 - rp.0.unwrap().0, r))
    }
}

/// A letter that is no modifier of the method (nor the Telex w) is typed as a plain letter,
/// the English flag first set when the letter makes the word English; unless the word is
/// then restored to English at once.
pub open spec fn typed_letter(w: Seq<Char>, raw: Seq<(u16, bool)>, last: Option<Transform>, english: bool,
    restore_on: bool, method: u8, key: u16, caps: bool, after: Seq<Char>, r: ImeResult) -> bool {
    let trig = english_trigger_of(w, raw, method, english);
    keys::letter_of(key) is Some && !modifier_key(method, key) && !(method == METHOD_TELEX && key == keys::W)
        && !(trig && raw.len() >= 2 && restore_on && restore::any_transform(w))
        ==> letter_step(w, raw, last, english || trig, restore_on, method, key, caps, after, r)
}

/// The raw keys spell a dictionary word (under Telex, not while the last key is w, which may
/// still be a modifier).
pub open spec fn dict_word_of(raw: Seq<(u16, bool)>, method: u8) -> bool {
    english_keys(raw_keys(raw)) && !(method == METHOD_TELEX && raw.len() > 0 && raw.last().0 == keys::W)
}

// ── The engine ───────────────────────────────────────────────────────────────

/// The last transform a key applied; typing the same key again undoes it.
#[derive(Debug, Clone, Copy, PartialEq, Eq, Structural)]
pub enum Transform {
    Tone(u16, u8),
    Mark(u16, u8),
    Stroke(u16),
    WAsVowel,
    WShortcutSkipped,
}

/// The Vietnamese typing engine.
pub struct Engine {
    buf: Buffer,
    raw_input: RawInputBuffer,
    word_history: Vec<(Buffer, RawInputBuffer)>,
    shortcuts: ShortcutRepo,
    method: u8,
    enabled: bool,
    last_transform: Option<Transform>,
    shortcuts_enabled: bool,
    has_non_letter_prefix: bool,
    skip_w_shortcut: bool,
    esc_restore_enabled: bool,
    free_tone_enabled: bool,
    modern_tone: bool,
    instant_restore_enabled: bool,
    spaces_after_commit: u8,
    break_after_commit: u8,
    is_english_word: bool,
}

/// The settings and flags of an engine, as plain values.
pub struct EngineFlags {
    pub method: u8,
    pub enabled: bool,
    pub skip_w_shortcut: bool,
    pub esc_restore: bool,
    pub free_tone: bool,
    pub modern_tone: bool,
    pub english_auto_restore: bool,
}

/// What a key press does, as far as it is stated: `before` and `after` are the engine
/// before and after the key, `r` what the platform is told.
pub open spec fn key_step(before: &Engine, after: &Engine, key: u16, caps: bool, ctrl: bool, shift: bool, r: ImeResult) -> bool {
    &&& (!before.flags().enabled || ctrl ==> is_none(r) && after.word() == Seq::<Char>::empty()
        && after.raw() == Seq::<(u16, bool)>::empty()
        && after.history() == Seq::<(Seq<Char>, Seq<(u16, bool)>)>::empty()
        && after.spaces() == 0)
    &&& (before.flags().enabled && !ctrl && key == keys::SPACE ==> {
        &&& after.word() == Seq::<Char>::empty()
        &&& after.raw() == Seq::<(u16, bool)>::empty()
        &&& !after.english()
        &&& before.word().len() > 0 ==> after.history()
            == history_pushed(before.history(), (before.word(), before.raw()))
            && after.spaces() == 1
        &&& before.word().len() == 0 ==> after.history() == before.history()
    })
    &&& (before.flags().enabled && !ctrl && key == keys::ESC ==> {
        &&& after.word() == Seq::<Char>::empty()
        &&& after.raw() == Seq::<(u16, bool)>::empty()
        &&& after.history() == Seq::<(Seq<Char>, Seq<(u16, bool)>)>::empty()
        &&& !after.english()
        &&& !before.flags().esc_restore ==> is_none(r)
        &&& before.flags().esc_restore && !(restore::any_transform(before.word())
            && before.raw().len() > 0 && restore::typed(before.raw()).len() > 0) ==> is_none(r)
        &&& before.flags().esc_restore && restore::any_transform(before.word())
            && before.raw().len() > 0 && restore::typed(before.raw()).len() > 0 ==> {
            &&& r.action == ACTION_SEND
            &&& r.chars@ == restore::typed(before.raw()).take(
                if restore::typed(before.raw()).len() < RESULT_MAX { restore::typed(before.raw()).len() as int }
                else { RESULT_MAX as int })
        }
    })
    &&& (before.flags().enabled && !ctrl && key == keys::DELETE && !shift && before.word().len() == 0 ==> {
        &&& is_none(r)
        &&& after.word() == before.word()
        &&& after.raw() == before.raw()
        &&& before.spaces() > 0 ==> after.spaces() == before.spaces() - 1
            && (before.spaces() == 1 ==> after.history() == Seq::<(Seq<Char>, Seq<(u16, bool)>)>::empty())
    })
    &&& (before.flags().enabled && !ctrl && key == keys::DELETE && !shift && before.last_key_plain() ==> {
        &&& is_send(r, 1, Seq::empty())
        &&& after.word() == before.word().drop_last()
        &&& after.history() == before.history()
    })
    &&& (before.flags().enabled && !ctrl && key == keys::DELETE && !shift && before.word().len() > 0
        && !before.last_key_plain() ==> {
        &&& r.action == ACTION_SEND
        &&& r.backspace == rendered(before.word()).len()
        &&& r.chars@ == rendered(after.word())
        &&& r.count == r.chars@.len()
    })
    &&& (before.flags().enabled && !ctrl && key == keys::DELETE && shift ==> {
        &&& before.word().len() > 0 ==> after.word() == Seq::<Char>::empty()
            && is_send(r, (if rendered(before.word()).len() < 255 { rendered(before.word()).len() as int } else { 255 }), Seq::empty())
        &&& before.word().len() == 0 ==> is_none(r) && after.word() == before.word()
    })
    &&& (before.flags().enabled && !ctrl && keys::letter_of(key) is Some ==> {
        &&& after.raw() == raw_pushed(before.raw(), key, caps)
        &&& typed_letter(before.word(), raw_pushed(before.raw(), key, caps), before.last(), before.english(),
            before.flags().english_auto_restore, before.flags().method, key, caps, after.word(), r)
    })
    &&& (before.flags().enabled && !ctrl && !modifier_key(before.flags().method, key)
        && (break_key(key) || keys::digit_of(key) is Some) ==> {
        &&& is_none(r)
        &&& after.word() == Seq::<Char>::empty()
        &&& after.raw() == Seq::<(u16, bool)>::empty()
        &&& before.word().len() > 0 ==> after.history()
            == history_pushed(before.history(), (before.word(), before.raw()))
    })
    &&& (before.flags().enabled && !ctrl && (keys::letter_of(key) is Some || keys::digit_of(key) is Some)
        && mark_applies(before.word(), before.last(), before.flags().method, key,
            before.flags().english_auto_restore && dict_word_of(raw_pushed(before.raw(), key, caps), before.flags().method))
        ==> mark_effect(before.word(), before.flags().method, key, after.word(), r) && !after.english())
}

/// The letter `key` reaches the word as a plain letter: the engine is on, the key is no
/// modifier of the method (nor the Telex w), the word has room, no English restore follows, no
/// ươ forms and no tone mark moves.
pub open spec fn plain_letter_key(before: &Engine, key: u16, caps: bool) -> bool {
    let w = before.word();
    let raw = raw_pushed(before.raw(), key, caps);
    let method = before.flags().method;
    let restore_on = before.flags().english_auto_restore;
    let trig = english_trigger_of(w, raw, method, before.english());
    let pw = pushed(w, key, caps);
    &&& before.flags().enabled
    &&& keys::letter_of(key) is Some
    &&& !modifier_key(method, key)
    &&& !(method == METHOD_TELEX && key == keys::W)
    &&& !(trig && raw.len() >= 2 && restore_on && restore::any_transform(w))
    &&& !(key == keys::O && before.last() == Some(Transform::WAsVowel))
    &&& w.len() < MAX
    &&& !((before.english() || trig) && raw.len() > w.len() + 1)
    &&& !(key == keys::O && first_uo(pw, 1) >= 0)
    &&& tone_positioning::repositioned(pw).0 is None
    &&& !(restore_on && english_due(pw, dict_word_of(raw, method), overall_confidence(layer_scores_of(raw)), false))
}

/// The screen follows the word: a letter that reaches the word as a plain letter is left to
/// the system to type (nothing is sent), and the word then shows what it showed before
/// followed by that letter.
pub proof fn lemma_plain_letter_on_screen(before: &Engine, after: &Engine, key: u16, caps: bool, r: ImeResult)
    requires
        key_step(before, after, key, caps, false, false, r),
        plain_letter_key(before, key, caps),
    ensures
        is_none(r),
        after.word() == before.word().push(Char { key, caps, tone: 0, mark: 0, stroke: false }),
        rendered(after.word()) == rendered(before.word()).push(keys::key_char_spec(key, caps).unwrap()),
{
    lemma_plain_letter_display(key, caps);
    assert(after.word().drop_last() =~= before.word());
}

/// The screen follows the word: Delete on a last letter typed plain takes back one character
/// and sends nothing else, and the word then shows what it showed before but its last letter.
pub proof fn lemma_delete_on_screen(before: &Engine, after: &Engine, caps: bool, r: ImeResult)
    requires
        key_step(before, after, keys::DELETE, caps, false, false, r),
        before.flags().enabled,
        before.last_key_plain(),
        keys::letter_of(before.word().last().key) is Some,
    ensures
        is_send(r, 1, Seq::empty()),
        rendered(after.word()) == rendered(before.word()).drop_last(),
{
    let c = before.word().last();
    assert(c == Char { key: c.key, caps: c.caps, tone: 0, mark: 0, stroke: false });
    lemma_plain_letter_display(c.key, c.caps);
}

/// Every character of `s` shows on the screen.
pub open spec fn shows_all(s: Seq<Char>) -> bool {
    forall|i: int| 0 <= i < s.len() ==> (#[trigger] display(s[i])) is Some
}

proof fn lemma_rendered_all_len(s: Seq<Char>)
    requires
        shows_all(s),
    ensures
        rendered(s).len() == s.len(),
    decreases s.len(),
{
    if s.len() > 0 {
        let t = s.drop_last();
        assert forall|i: int| 0 <= i < t.len() implies (#[trigger] display(t[i])) is Some by {
            assert(t[i] == s[i]);
        }
        lemma_rendered_all_len(t);
        assert(display(s[s.len() - 1]) is Some);
    }
}

proof fn lemma_rendered_split(s: Seq<Char>, i: int)
    requires
        0 <= i <= s.len(),
    ensures
        rendered(s) == rendered(s.take(i)) + rendered(s.subrange(i, s.len() as int)),
    decreases s.len(),
{
    if i == s.len() {
        assert(s.take(i) =~= s);
        assert(s.subrange(i, s.len() as int) =~= Seq::<Char>::empty());
        assert(rendered(s) + Seq::<char>::empty() =~= rendered(s));
    } else {
        let t = s.drop_last();
        lemma_rendered_split(t, i);
        assert(t.take(i) =~= s.take(i));
        let u = s.subrange(i, s.len() as int);
        assert(u.drop_last() =~= t.subrange(i, t.len() as int));
        assert(u.last() == s.last());
        let tail = match display(s.last()) {
            Some(c) => seq![c],
            None => Seq::<char>::empty(),
        };
        assert(rendered(s) == rendered(t) + tail);
        assert(rendered(u) == rendered(t.subrange(i, t.len() as int)) + tail);
        assert(rendered(s.take(i)) + rendered(t.subrange(i, t.len() as int)) + tail
            =~= rendered(s.take(i)) + (rendered(t.subrange(i, t.len() as int)) + tail));
    }
}

/// The screen follows the word: after a mark key that takes effect, the screen keeps what the
/// word showed before the first character that changed, and the edit types what the word now
/// shows from there, so the screen shows the new word (where every character shows).
pub proof fn lemma_mark_on_screen(before: &Engine, after: &Engine, key: u16, caps: bool, r: ImeResult)
    requires
        key_step(before, after, key, caps, false, false, r),
        before.flags().enabled,
        keys::letter_of(key) is Some || keys::digit_of(key) is Some,
        mark_applies(before.word(), before.last(), before.flags().method, key,
            before.flags().english_auto_restore && dict_word_of(raw_pushed(before.raw(), key, caps), before.flags().method)),
        shows_all(before.word()),
        shows_all(after.word()),
    ensures
        r.action == ACTION_SEND,
        r.backspace <= rendered(before.word()).len(),
        rendered(after.word()) == rendered(before.word()).take(rendered(before.word()).len() - r.backspace) + r.chars@,
{
    let w = before.word();
    let a = after.word();
    let w1 = uo_normalized(w);
    let p = tone_positioning::mark_position(tone_positioning::vowels_of(w1)) as int;
    let k = first_uo(w, 1);
    let from = if k >= 0 && k < p { k } else { p };
    lemma_first_uo(w, 1);
    assert(a.len() == w.len());
    assert(0 <= from < w.len());
    lemma_rendered_all_len(w);
    lemma_rendered_all_len(a);
    lemma_rendered_split(w, from);
    lemma_rendered_split(a, from);
    assert(a.take(from) =~= w.take(from));
    let out = rendered(a.subrange(from, a.len() as int));
    lemma_rendered_all_len(a.take(from));
    assert forall|i: int| 0 <= i < a.take(from).len() implies (#[trigger] display(a.take(from)[i])) is Some by {
        assert(a.take(from)[i] == a[i]);
    }
    assert forall|i: int| 0 <= i < a.subrange(from, a.len() as int).len()
        implies (#[trigger] display(a.subrange(from, a.len() as int)[i])) is Some by {
        assert(a.subrange(from, a.len() as int)[i] == a[from + i]);
    }
    lemma_rendered_all_len(a.subrange(from, a.len() as int));
    assert(out.len() > 0);
    assert(rendered(w).take(from) =~= rendered(w.take(from)));
}

impl Engine {
    /// The characters of the word being typed.
    pub closed spec fn word(&self) -> Seq<Char> {
        self.buf@
    }

    /// The raw keystrokes of the word being typed.
    pub closed spec fn raw(&self) -> Seq<(u16, bool)> {
        self.raw_input@
    }

    /// The committed words kept for backspace-after-space, oldest first.
    pub closed spec fn history(&self) -> Seq<(Seq<Char>, Seq<(u16, bool)>)> {
        self.word_history@.map_values(|p: (Buffer, RawInputBuffer)| (p.0@, p.1@))
    }

    pub closed spec fn flags(&self) -> EngineFlags {
        EngineFlags {
            method: self.method,
            enabled: self.enabled,
            skip_w_shortcut: self.skip_w_shortcut,
            esc_restore: self.esc_restore_enabled,
            free_tone: self.free_tone_enabled,
            modern_tone: self.modern_tone,
            english_auto_restore: self.instant_restore_enabled,
        }
    }

    /// Whether shortcuts expand at word boundaries.
    pub closed spec fn shortcuts_on(&self) -> bool {
        self.shortcuts_enabled
    }

    /// Whether something other than a letter was typed (or deleted past the word's start)
    /// before the word; shortcuts do not expand then.
    pub closed spec fn non_letter_prefix(&self) -> bool {
        self.has_non_letter_prefix
    }

    /// Whether the word being typed was recognised as English.
    pub closed spec fn english(&self) -> bool {
        self.is_english_word
    }

    pub closed spec fn last(&self) -> Option<Transform> {
        self.last_transform
    }

    pub closed spec fn spaces(&self) -> u8 {
        self.spaces_after_commit
    }

    pub closed spec fn breaks(&self) -> u8 {
        self.break_after_commit
    }

    pub closed spec fn shortcut_list(&self) -> Seq<crate::shortcut::Shortcut> {
        self.shortcuts@
    }

    /// Buffers within their capacities, at most `HISTORY_CAPACITY` committed words.
    pub closed spec fn wf(&self) -> bool {
        &&& self.buf.wf()
        &&& self.raw_input.wf()
        &&& self.shortcuts.wf()
        &&& self.word_history@.len() <= HISTORY_CAPACITY
        &&& forall|i: int| 0 <= i < self.word_history@.len() ==> (#[trigger] self.word_history@[i]).0.wf()
            && self.word_history@[i].1.wf()
    }

    /// A new engine: Telex, enabled, default shortcuts, free tone placement, modern
    /// orthography, English auto-restore on, ESC restore off, w at word start kept as w.
    pub fn new() -> (r: Engine)
        ensures
            r.wf(),
            r.word() == Seq::<Char>::empty(),
            r.raw() == Seq::<(u16, bool)>::empty(),
            r.history() == Seq::<(Seq<Char>, Seq<(u16, bool)>)>::empty(),
            r.flags() == (EngineFlags {
                method: METHOD_TELEX, enabled: true, skip_w_shortcut: true, esc_restore: false,
                free_tone: true, modern_tone: true, english_auto_restore: true,
            }),
            r.shortcuts_on(),
            !r.english(),
            r.last() is None,
            r.spaces() == 0,
            r.breaks() == 0,
    {
        let e = Engine {
            buf: Buffer::new(),
            raw_input: RawInputBuffer::new(),
            word_history: Vec::new(),
            shortcuts: ShortcutRepo::with_defaults(),
            method: METHOD_TELEX,
            enabled: true,
            last_transform: None,
            shortcuts_enabled: true,
            has_non_letter_prefix: false,
            skip_w_shortcut: true,
            esc_restore_enabled: false,
            free_tone_enabled: true,
            modern_tone: true,
            instant_restore_enabled: true,
            spaces_after_commit: 0,
            break_after_commit: 0,
            is_english_word: false,
        };
        assert(e.history() =~= Seq::<(Seq<Char>, Seq<(u16, bool)>)>::empty());
        e
    }

    /// The settings, shortcuts and word history are the same in both.
    pub open spec fn keeps_settings(&self, other: &Engine) -> bool {
        &&& self.flags() == other.flags()
        &&& self.shortcut_list() == other.shortcut_list()
        &&& self.shortcuts_on() == other.shortcuts_on()
    }

    /// Number of characters of the word being typed.
    pub fn buffer_len(&self) -> (r: usize)
        ensures
            r == self.word().len(),
    {
        self.buf.len()
    }

    /// The characters of the word being typed.
    pub fn word_chars(&self) -> (r: Vec<Char>)
        ensures
            r@ == self.word(),
    {
        let n = self.buf.len();
        let mut out: Vec<Char> = Vec::new();
        let mut i: usize = 0;
        while i < n
            invariant
                n == self.buf@.len(),
                i <= n,
                out@ == self.buf@.take(i as int),
            decreases n - i,
        {
            out.push(self.buf.get(i).unwrap());
            i = i + 1;
            assert(out@ =~= self.buf@.take(i as int));
        }
        assert(out@ =~= self.buf@);
        out
    }

    /// Number of keystrokes recorded for the word.
    pub fn raw_input_len(&self) -> (r: usize)
        ensures
            r == self.raw().len(),
    {
        self.raw_input.len()
    }

    /// Spaces typed since the last committed word.
    pub fn spaces_after_commit(&self) -> (r: u8)
        ensures
            r == self.spaces(),
    {
        self.spaces_after_commit
    }

    /// Number of committed words kept.
    pub fn history_len(&self) -> (r: usize)
        ensures
            r == self.history().len(),
    {
        self.word_history.len()
    }

    /// ESC restore of the word: its raw keys replace it when a transform was applied.
    pub fn restore_to_raw(&self) -> (r: ImeResult)
        ensures
            !restore::any_transform(self.word()) ==> r.action == ACTION_NONE,
            restore::any_transform(self.word()) && self.raw().len() > 0
                && restore::typed(self.raw()).len() > 0 ==> r.action == ACTION_SEND
                && r.chars@ == restore::typed(self.raw()).take(
                    if restore::typed(self.raw()).len() < RESULT_MAX { restore::typed(self.raw()).len() as int } else { RESULT_MAX as int }),
    {
        restore::restore_to_raw(&self.buf, &self.raw_input)
    }

    /// Whether the word being typed was recognised as English.
    pub fn is_english_word(&self) -> (r: bool)
        ensures
            r == self.english(),
    {
        self.is_english_word
    }

    /// The raw keys spell a dictionary word (under Telex, not while the last key is w, which may
    /// still be a modifier).
    pub open spec fn dictionary_word(&self) -> bool {
        dict_word_of(self.raw(), self.flags().method)
    }

    /// The keystrokes are clearly English: they start with e, x, or the word cannot become a
    /// Vietnamese syllable and the English analysis is sure (95) or found a foreign initial.
    pub open spec fn definite_english(&self) -> bool {
        definite_english_of(self.word(), self.raw())
    }

    /// The keystrokes look English: a dictionary word, or, when the word with the last key
    /// cannot become a Vietnamese syllable, an analysis at 95, or one that matched and is at 80
    /// or scored on two layers. Never for a complete ươ with a tone mark.
    pub open spec fn english_word_pattern(&self) -> bool {
        english_pattern_of(self.word(), self.raw(), self.flags().method)
    }

    /// Everything but the word being typed is the same in both.
    pub closed spec fn same_but_word(&self, other: &Engine) -> bool {
        &&& self.raw_input@ == other.raw_input@
        &&& self.raw_input.wf() == other.raw_input.wf()
        &&& self.word_history@ == other.word_history@
        &&& self.shortcuts@ == other.shortcuts@
        &&& self.shortcuts.wf() == other.shortcuts.wf()
        &&& self.flags() == other.flags()
        &&& self.shortcuts_enabled == other.shortcuts_enabled
        &&& self.has_non_letter_prefix == other.has_non_letter_prefix
        &&& self.last_transform == other.last_transform
        &&& self.is_english_word == other.is_english_word
        &&& self.spaces_after_commit == other.spaces_after_commit
        &&& self.break_after_commit == other.break_after_commit
    }

    /// The word being typed, as it shows.
    pub fn get_buffer(&self) -> (r: String)
        ensures
            r@ == rendered(self.word()),
    {
        let v = render_from(&self.buf, 0);
        assert(self.buf@.subrange(0, self.buf@.len() as int) =~= self.buf@);
        string_of(v.as_slice())
    }

    pub fn set_method(&mut self, method: u8)
        requires
            old(self).wf(),
        ensures
            final(self).wf(),
            final(self).flags() == (EngineFlags { method, ..old(self).flags() }),
            final(self).word() == old(self).word(),
            final(self).raw() == old(self).raw(),
            final(self).history() == old(self).history(),
    {
        self.method = method;
    }

    /// Turns the engine on or off; turning it off drops the word and the history.
    pub fn set_enabled(&mut self, enabled: bool)
        requires
            old(self).wf(),
        ensures
            final(self).wf(),
            final(self).flags() == (EngineFlags { enabled, ..old(self).flags() }),
            enabled ==> final(self).word() == old(self).word() && final(self).history() == old(self).history()
                && final(self).spaces() == old(self).spaces(),
            !enabled ==> final(self).word() == Seq::<Char>::empty()
                && final(self).history() == Seq::<(Seq<Char>, Seq<(u16, bool)>)>::empty()
                && final(self).spaces() == 0,
            final(self).raw() == old(self).raw(),
    {
        self.enabled = enabled;
        if !enabled {
            self.buf.clear();
            self.word_history = Vec::new();
            self.spaces_after_commit = 0;
            assert(self.history() =~= Seq::<(Seq<Char>, Seq<(u16, bool)>)>::empty());
        }
    }

    pub fn set_skip_w_shortcut(&mut self, skip: bool)
        requires
            old(self).wf(),
        ensures
            final(self).wf(),
            final(self).flags() == (EngineFlags { skip_w_shortcut: skip, ..old(self).flags() }),
            final(self).word() == old(self).word(),
    {
        self.skip_w_shortcut = skip;
    }

    pub fn set_esc_restore(&mut self, enabled: bool)
        requires
            old(self).wf(),
        ensures
            final(self).wf(),
            final(self).flags() == (EngineFlags { esc_restore: enabled, ..old(self).flags() }),
            final(self).word() == old(self).word(),
    {
        self.esc_restore_enabled = enabled;
    }

    pub fn set_free_tone(&mut self, enabled: bool)
        requires
            old(self).wf(),
        ensures
            final(self).wf(),
            final(self).flags() == (EngineFlags { free_tone: enabled, ..old(self).flags() }),
            final(self).word() == old(self).word(),
    {
        self.free_tone_enabled = enabled;
    }

    pub fn set_modern_tone(&mut self, modern: bool)
        requires
            old(self).wf(),
        ensures
            final(self).wf(),
            final(self).flags() == (EngineFlags { modern_tone: modern, ..old(self).flags() }),
            final(self).word() == old(self).word(),
    {
        self.modern_tone = modern;
    }

    pub fn set_english_auto_restore(&mut self, enabled: bool)
        requires
            old(self).wf(),
        ensures
            final(self).wf(),
            final(self).flags() == (EngineFlags { english_auto_restore: enabled, ..old(self).flags() }),
            final(self).word() == old(self).word(),
    {
        self.instant_restore_enabled = enabled;
    }

    /// Turns shortcut expansion on or off.
    pub fn set_shortcuts_enabled(&mut self, enabled: bool)
        requires
            old(self).wf(),
        ensures
            final(self).wf(),
            final(self).shortcuts_on() == enabled,
            final(self).flags() == old(self).flags(),
            final(self).word() == old(self).word(),
    {
        self.shortcuts_enabled = enabled;
    }

    pub fn shortcuts(&self) -> (r: &ShortcutRepo)
        ensures
            r@ == self.shortcut_list(),
    {
        &self.shortcuts
    }

    /// The shortcut repository, for changes; the engine holds what it holds afterwards.
    pub fn shortcuts_mut(&mut self) -> (r: &mut ShortcutRepo)
        requires
            old(self).wf(),
        ensures
            r@ == old(self).shortcut_list(),
            r.wf(),
            final(self).shortcut_list() == final(r)@,
            final(r).wf() ==> final(self).wf(),
            final(self).word() == old(self).word(),
            final(self).flags() == old(self).flags(),
    {
        &mut self.shortcuts
    }

    /// Forgets the word being typed (keystrokes, transform, English flag); the settings and
    /// the word history stay.
    pub fn clear(&mut self)
        requires
            old(self).wf(),
        ensures
            final(self).wf(),
            final(self).word() == Seq::<Char>::empty(),
            final(self).raw() == Seq::<(u16, bool)>::empty(),
            final(self).last() is None,
            !final(self).english(),
            !final(self).non_letter_prefix(),
            final(self).history() == old(self).history(),
            final(self).spaces() == old(self).spaces(),
            final(self).breaks() == old(self).breaks(),
            final(self).keeps_settings(old(self)),
    {
        self.buf.clear();
        self.raw_input.clear();
        self.has_non_letter_prefix = false;
        self.last_transform = None;
        self.is_english_word = false;
    }

    /// Forgets the word and the word history too.
    pub fn clear_all(&mut self)
        requires
            old(self).wf(),
        ensures
            final(self).wf(),
            final(self).word() == Seq::<Char>::empty(),
            final(self).raw() == Seq::<(u16, bool)>::empty(),
            final(self).history() == Seq::<(Seq<Char>, Seq<(u16, bool)>)>::empty(),
            final(self).spaces() == 0,
            final(self).breaks() == old(self).breaks(),
            final(self).last() is None,
            !final(self).english(),
            !final(self).non_letter_prefix(),
            final(self).keeps_settings(old(self)),
    {
        self.clear();
        self.word_history = Vec::new();
        self.spaces_after_commit = 0;
        assert(self.history() =~= Seq::<(Seq<Char>, Seq<(u16, bool)>)>::empty());
    }

    /// Deletes the characters of the word from `from` on and types them as they now show.
    fn rebuild_from(&self, from: usize) -> (r: ImeResult)
        requires
            self.wf(),
            from <= self.word().len(),
        ensures
            rendered(self.word().subrange(from as int, self.word().len() as int)).len() == 0 ==> is_none(r),
            rendered(self.word().subrange(from as int, self.word().len() as int)).len() > 0 ==>
                is_send(r, self.word().len() - from, rendered(self.word().subrange(from as int, self.word().len() as int))),
    {
        let out = render_from(&self.buf, from);
        proof {
            lemma_rendered_len(self.buf@.subrange(from as int, self.buf@.len() as int));
            assert(self.buf@.len() <= MAX);
            let sub = self.buf@.subrange(from as int, self.buf@.len() as int);
            assert(sub.len() == self.buf@.len() - from);
            assert(out@.len() <= sub.len());
            assert(out@.len() <= RESULT_MAX);
        }
        if out.len() == 0 {
            ImeResult::none()
        } else {
            let bs = (self.buf.len() - from) as u8;
            let r = ImeResult::send(bs, out.as_slice());
            assert(out@.take(out@.len() as int) =~= out@);
            r
        }
    }

    /// Whether a diacritic may go on the character at `target_pos`.
    fn can_apply_diacritical(&self, target_pos: usize, is_backward_application: bool) -> (r: bool)
        ensures
            r == diacritic_allowed(self.word(), target_pos as int, is_backward_application),
    {
        let n = self.buf.len();
        if target_pos >= n {
            return true;
        }
        let target = self.buf.get(target_pos).unwrap();
        if !keys::is_vowel(target.key) {
            return true;
        }
        if target_pos + 1 < n {
            let next = self.buf.get(target_pos + 1).unwrap();
            if !keys::is_vowel(next.key) && is_final_key(next.key) {
                if target_pos + 2 >= n {
                    return is_backward_application;
                }
                let after = self.buf.get(target_pos + 2).unwrap();
                let pair = (next.key == keys::C && after.key == keys::H)
                    || (next.key == keys::N && (after.key == keys::G || after.key == keys::H));
                assert(pair == final_pair(self.buf@[target_pos + 1].key, self.buf@[target_pos + 2].key));
                return pair && target_pos + 3 >= n;
            }
        }
        if target_pos > 0 {
            let prev = self.buf.get(target_pos - 1).unwrap();
            if !keys::is_vowel(prev.key) && is_final_key(prev.key) {
                let mut j: usize = 0;
                while j < target_pos - 1
                    invariant
                        n == self.buf@.len(),
                        0 < target_pos < n,
                        j <= target_pos - 1,
                        forall|k: int| 0 <= k < j ==> !keys::is_vowel_key(#[trigger] self.buf@[k].key),
                        keys::is_vowel_key(self.buf@[target_pos as int].key),
                        !(target_pos + 1 < n && !keys::is_vowel_key(self.buf@[target_pos + 1].key)
                            && final_key(self.buf@[target_pos + 1].key)),
                        !keys::is_vowel_key(self.buf@[target_pos - 1].key),
                        final_key(self.buf@[target_pos - 1].key),
                    decreases target_pos - 1 - j,
                {
                    let c = self.buf.get(j).unwrap();
                    if keys::is_vowel(c.key) {
                        assert(keys::is_vowel_key(self.buf@[j as int].key));
                        assert(vowel_before(self.buf@, target_pos - 1));
                        return false;
                    }
                    j = j + 1;
                }
                return true;
            }
        }
        true
    }

    /// Replaces the word by plain characters for the raw keystrokes.
    fn sync_buffer_with_raw_input(&mut self)
        requires
            old(self).wf(),
        ensures
            final(self).wf(),
            final(self).word() == (if old(self).raw().len() <= MAX { plain_chars(old(self).raw()) }
                else { plain_chars(old(self).raw()).take(MAX as int) }),
            final(self).raw() == old(self).raw(),
            final(self).history() == old(self).history(),
            final(self).keeps_settings(old(self)),
            final(self).last() == old(self).last(),
            final(self).english() == old(self).english(),
            final(self).spaces() == old(self).spaces(),
            final(self).breaks() == old(self).breaks(),
    {
        self.buf.clear();
        let n = self.raw_input.len();
        let mut i: usize = 0;
        while i < n
            invariant
                n == self.raw_input@.len(),
                i <= n,
                self.same_but_word(old(self)),
                old(self).wf(),
                self.buf.wf(),
                self.buf@ == (if i <= MAX { plain_chars(self.raw_input@).take(i as int) }
                    else { plain_chars(self.raw_input@).take(MAX as int) }),
            decreases n - i,
        {
            let (k, c) = self.raw_input.get(i);
            self.buf.push(Char::new(k, c));
            i = i + 1;
            proof {
                if i <= MAX {
                    assert(self.buf@ =~= plain_chars(self.raw_input@).take(i as int));
                }
            }
        }
        proof {
            if n <= MAX {
                assert(plain_chars(self.raw_input@).take(n as int) =~= plain_chars(self.raw_input@));
            }
        }
    }

    /// Undoes a transform at `pos`: the typed key joins the word as a plain letter and the
    /// letters from `pos` on are typed again.
    fn revert_and_rebuild(&mut self, pos: usize, key: u16, caps: bool) -> (r: ImeResult)
        requires
            old(self).wf(),
            pos < old(self).word().len(),
        ensures
            final(self).wf(),
            final(self).word() == pushed(old(self).word(), key, caps),
            retyped(old(self).word(), final(self).word(), pos as int, r),
            final(self).raw() == old(self).raw(),
            final(self).history() == old(self).history(),
            final(self).keeps_settings(old(self)),
            final(self).last() == old(self).last(),
            final(self).english() == old(self).english(),
            final(self).spaces() == old(self).spaces(),
            final(self).breaks() == old(self).breaks(),
    {
        let backspace = (self.buf.len() - pos) as u8;
        self.buf.push(Char::new(key, caps));
        let out = plain_from(&self.buf, pos);
        proof {
            lemma_plain_rendered_len(self.buf@.subrange(pos as int, self.buf@.len() as int));
            assert(out@.len() <= RESULT_MAX);
            assert(out@.take(out@.len() as int) =~= out@);
        }
        ImeResult::send(backspace, out.as_slice())
    }

    /// Position of the last vowel with a tone mark, scanning from `from` down.
    fn find_last_marked(&self) -> (r: Option<usize>)
        ensures
            last_marked(self.word(), self.word().len() - 1) < 0 ==> r is None,
            last_marked(self.word(), self.word().len() - 1) >= 0 ==>
                r == Some(last_marked(self.word(), self.word().len() - 1) as usize),
    {
        let mut i = self.buf.len();
        while i > 0
            invariant
                i <= self.buf@.len(),
                last_marked(self.buf@, self.buf@.len() - 1) == last_marked(self.buf@, i - 1),
            decreases i,
        {
            let c = self.buf.get(i - 1).unwrap();
            if keys::is_vowel(c.key) && c.mark > 0 {
                return Some(i - 1);
            }
            i = i - 1;
        }
        None
    }

    fn find_last_toned(&self) -> (r: Option<usize>)
        ensures
            last_toned(self.word(), self.word().len() - 1) < 0 ==> r is None,
            last_toned(self.word(), self.word().len() - 1) >= 0 ==>
                r == Some(last_toned(self.word(), self.word().len() - 1) as usize),
    {
        let mut i = self.buf.len();
        while i > 0
            invariant
                i <= self.buf@.len(),
                last_toned(self.buf@, self.buf@.len() - 1) == last_toned(self.buf@, i - 1),
            decreases i,
        {
            let c = self.buf.get(i - 1).unwrap();
            if keys::is_vowel(c.key) && c.tone > 0 {
                return Some(i - 1);
            }
            i = i - 1;
        }
        None
    }

    /// Undoes the last tone modifier: it is removed from the last vowel carrying one, the key
    /// is typed as a letter and the word counts as English. With no such vowel nothing happens.
    fn revert_tone(&mut self, key: u16, caps: bool) -> (r: ImeResult)
        requires
            old(self).wf(),
        ensures
            final(self).wf(),
            final(self).last() is None,
            final(self).raw() == old(self).raw(),
            final(self).history() == old(self).history(),
            final(self).keeps_settings(old(self)),
            ({
                let p = last_toned(old(self).word(), old(self).word().len() - 1);
                &&& p < 0 ==> is_none(r) && final(self).word() == old(self).word() && !final(self).english()
                &&& p >= 0 ==> {
                    let cleared = old(self).word().update(p, Char { tone: 0, ..old(self).word()[p] });
                    &&& final(self).word() == pushed(cleared, key, caps)
                    &&& retyped(cleared, final(self).word(), p, r)
                    &&& final(self).english()
                }
            }),
    {
        self.last_transform = None;
        match self.find_last_toned() {
            Some(pos) => {
                proof { lemma_last_toned_range(self.buf@, self.buf@.len() - 1); }
                self.buf.set_tone(pos, 0);
                let r = self.revert_and_rebuild(pos, key, caps);
                self.is_english_word = true;
                r
            },
            None => {
                self.is_english_word = false;
                ImeResult::none()
            },
        }
    }

    /// Undoes the last tone mark in the same way.
    fn revert_mark(&mut self, key: u16, caps: bool) -> (r: ImeResult)
        requires
            old(self).wf(),
        ensures
            final(self).wf(),
            final(self).last() is None,
            final(self).raw() == old(self).raw(),
            final(self).history() == old(self).history(),
            final(self).keeps_settings(old(self)),
            ({
                let p = last_marked(old(self).word(), old(self).word().len() - 1);
                &&& p < 0 ==> is_none(r) && final(self).word() == old(self).word() && !final(self).english()
                &&& p >= 0 ==> {
                    let cleared = old(self).word().update(p, Char { mark: 0, ..old(self).word()[p] });
                    &&& final(self).word() == pushed(cleared, key, caps)
                    &&& retyped(cleared, final(self).word(), p, r)
                    &&& final(self).english()
                }
            }),
    {
        self.last_transform = None;
        match self.find_last_marked() {
            Some(pos) => {
                proof { lemma_last_marked_range(self.buf@, self.buf@.len() - 1); }
                self.buf.set_mark(pos, 0);
                let r = self.revert_and_rebuild(pos, key, caps);
                self.is_english_word = true;
                r
            },
            None => {
                self.is_english_word = false;
                ImeResult::none()
            },
        }
    }

    /// Removes the last tone mark, or else the last tone modifier, and retypes the word from
    /// there; `None` when no vowel carries either.
    fn try_remove(&mut self) -> (r: Option<ImeResult>)
        requires
            old(self).wf(),
        ensures
            final(self).wf(),
            final(self).last() is None,
            final(self).raw() == old(self).raw(),
            final(self).history() == old(self).history(),
            final(self).keeps_settings(old(self)),
            final(self).english() == old(self).english(),
            r is None <==> final(self).word() == old(self).word(),
            r is None ==> last_marked(old(self).word(), old(self).word().len() - 1) < 0
                && last_toned(old(self).word(), old(self).word().len() - 1) < 0,
            r is Some ==> final(self).word().len() == old(self).word().len(),
    {
        let n = self.buf.len();
        let mut i = n;
        while i > 0
            invariant
                n == self.buf@.len(),
                i <= n,
                self.buf@ == old(self).buf@,
                self.same_but_word(old(self)),
                old(self).wf(),
                self.buf.wf(),
                forall|j: int| i <= j < n ==> !(keys::is_vowel_key(#[trigger] self.buf@[j].key)
                    && (self.buf@[j].mark > 0 || self.buf@[j].tone > 0)),
            decreases i,
        {
            let c = self.buf.get(i - 1).unwrap();
            if keys::is_vowel(c.key) && c.mark > 0 {
                self.buf.set_mark(i - 1, 0);
                self.last_transform = None;
                assert(self.buf@[i - 1] != old(self).buf@[i - 1]);
                return Some(self.rebuild_from(i - 1));
            }
            if keys::is_vowel(c.key) && c.tone > 0 {
                self.buf.set_tone(i - 1, 0);
                self.last_transform = None;
                assert(self.buf@[i - 1] != old(self).buf@[i - 1]);
                return Some(self.rebuild_from(i - 1));
            }
            i = i - 1;
        }
        proof {
            lemma_none_marked(self.buf@, n - 1);
        }
        self.last_transform = None;
        None
    }

    /// Position of the last (or, with `first`, the first) unstroked d.
    fn find_plain_d(&self, first: bool) -> (r: Option<usize>)
        ensures
            stroke_target(self.word(), !first) < 0 ==> r is None,
            stroke_target(self.word(), !first) >= 0 ==> r == Some(stroke_target(self.word(), !first) as usize),
            r is Some ==> r.unwrap() < self.word().len() && self.word()[r.unwrap() as int].key == keys::D
                && !self.word()[r.unwrap() as int].stroke,
    {
        let n = self.buf.len();
        if first {
            let mut i: usize = 0;
            while i < n
                invariant
                    n == self.buf@.len(),
                    i <= n,
                    first_plain_d(self.buf@, 0) == first_plain_d(self.buf@, i as int),
                    first,
                decreases n - i,
            {
                let c = self.buf.get(i).unwrap();
                if c.key == keys::D && !c.stroke {
                    return Some(i);
                }
                i = i + 1;
            }
            None
        } else {
            let mut i = n;
            while i > 0
                invariant
                    n == self.buf@.len(),
                    i <= n,
                    last_plain_d(self.buf@, n - 1) == last_plain_d(self.buf@, i - 1),
                    !first,
                decreases i,
            {
                let c = self.buf.get(i - 1).unwrap();
                if c.key == keys::D && !c.stroke {
                    return Some(i - 1);
                }
                i = i - 1;
            }
            None
        }
    }

    /// Position of the first stroked d.
    fn find_stroked_d(&self) -> (r: Option<usize>)
        ensures
            r is Some ==> r.unwrap() < self.word().len() && self.word()[r.unwrap() as int].key == keys::D
                && self.word()[r.unwrap() as int].stroke,
    {
        let n = self.buf.len();
        let mut i: usize = 0;
        while i < n
            invariant
                n == self.buf@.len(),
                i <= n,
            decreases n - i,
        {
            let c = self.buf.get(i).unwrap();
            if c.key == keys::D && c.stroke {
                return Some(i);
            }
            i = i + 1;
        }
        None
    }

    /// Undoes the stroke of the d at `pos`: the key is typed as a letter and the word counts
    /// as English; the characters from `pos` on are typed again.
    fn revert_stroke(&mut self, key: u16, pos: usize) -> (r: ImeResult)
        requires
            old(self).wf(),
            pos < old(self).word().len(),
            old(self).word()[pos as int].key == keys::D,
            old(self).word()[pos as int].stroke,
        ensures
            final(self).wf(),
            final(self).last() is None,
            final(self).english(),
            final(self).word() == pushed(
                old(self).word().update(pos as int, Char { stroke: false, ..old(self).word()[pos as int] }),
                key, old(self).word()[pos as int].caps),
            final(self).raw() == old(self).raw(),
            final(self).history() == old(self).history(),
            final(self).keeps_settings(old(self)),
            r.action == ACTION_SEND,
            r.backspace == rendered(old(self).word().subrange(pos as int, old(self).word().len() as int)).len(),
            r.chars@ == rendered(final(self).word().subrange(pos as int, final(self).word().len() as int)),
    {
        self.last_transform = None;
        let shown = render_from(&self.buf, pos);
        proof { lemma_rendered_len(self.buf@.subrange(pos as int, self.buf@.len() as int)); }
        let c = self.buf.get(pos).unwrap();
        self.buf.set(pos, Char { stroke: false, ..c });
        self.buf.push(Char::new(key, c.caps));
        self.is_english_word = true;
        let out = render_from(&self.buf, pos);
        proof {
            lemma_rendered_len(self.buf@.subrange(pos as int, self.buf@.len() as int));
            assert(out@.take(out@.len() as int) =~= out@);
        }
        ImeResult::send(shown.len() as u8, out.as_slice())
    }

    /// The stroke key: turns a d of the word into đ (Telex: the last plain d, VNI: the first),
    /// or undoes the stroke when the same key applied it just before. `None` when the word is
    /// empty or holds no plain d.
    #[verifier::spinoff_prover]
    #[verifier::rlimit(40)]
    fn try_stroke(&mut self, key: u16, caps: bool) -> (r: Option<ImeResult>)
        requires
            old(self).wf(),
        ensures
            final(self).wf(),
            final(self).raw() == old(self).raw(),
            final(self).history() == old(self).history(),
            final(self).keeps_settings(old(self)),
            r is None ==> final(self).word() == old(self).word(),
            old(self).word().len() > 0 && old(self).last() != Some(Transform::Stroke(key))
                && stroke_target(old(self).word(), old(self).flags().method == METHOD_TELEX) >= 0 ==> {
                let p = stroke_target(old(self).word(), old(self).flags().method == METHOD_TELEX);
                &&& r is Some
                &&& final(self).last() == Some(Transform::Stroke(key))
                &&& final(self).word() == old(self).word().update(p, Char { stroke: true, ..old(self).word()[p] })
            },
            r is Some && final(self).last() == Some(Transform::Stroke(key)) ==>
                exists|p: int| 0 <= p < old(self).word().len() && old(self).word()[p].key == keys::D
                    && !old(self).word()[p].stroke
                    && final(self).word() == old(self).word().update(p, Char { stroke: true, ..old(self).word()[p] })
                    && is_send(r.unwrap(), old(self).word().len() - p,
                        rendered(final(self).word().subrange(p, final(self).word().len() as int))),
    {
        if self.buf.is_empty() {
            return None;
        }
        if self.method == METHOD_TELEX {
            if let Some(Transform::Stroke(last_key)) = self.last_transform {
                if last_key == key {
                    if let Some(sp) = self.find_stroked_d() {
                        return Some(self.revert_stroke(key, sp));
                    }
                }
            }
        }
        let ghost w0 = self.buf@;
        let target = self.find_plain_d(self.method != METHOD_TELEX);
        proof {
            if self.method == METHOD_TELEX { lemma_last_plain_d(w0, w0.len() - 1); } else { lemma_first_plain_d(w0, 0); }
        }
        let pos = match target {
            Some(p) => p,
            None => { return None; },
        };
        assert(pos as int == stroke_target(w0, self.method == METHOD_TELEX));
        if self.method != METHOD_TELEX {
            if let Some(Transform::Stroke(last_key)) = self.last_transform {
                if last_key == key {
                    if let Some(sp) = self.find_stroked_d() {
                        return Some(self.revert_stroke(key, sp));
                    }
                }
            }
        }
        let c = self.buf.get(pos).unwrap();
        self.buf.set(pos, Char { stroke: true, ..c });
        self.last_transform = Some(Transform::Stroke(key));
        let r = self.rebuild_from(pos);
        proof {
            let s = self.buf@.subrange(pos as int, self.buf@.len() as int);
            assert(s.len() > 0);
            assert(display(s[0]) is Some);
            lemma_rendered_nonempty(s);
        }
        Some(r)
    }

    /// Turns ư followed by a plain o into ươ; the position of that o, if one changed.
    fn normalize_uo_compound(&mut self) -> (r: Option<usize>)
        requires
            old(self).wf(),
        ensures
            final(self).wf(),
            final(self).same_but_word(old(self)),
            same_keys(final(self).word(), old(self).word()),
            final(self).word() == uo_normalized(old(self).word()),
            first_uo(old(self).word(), 1) < 0 ==> r is None,
            first_uo(old(self).word(), 1) >= 0 ==> r == Some(first_uo(old(self).word(), 1) as usize),
            r is None ==> final(self).word() == old(self).word(),
            r is Some ==> 0 < r.unwrap() < old(self).word().len()
                && final(self).word() == old(self).word().update(r.unwrap() as int,
                    Char { tone: chars::TONE_HORN, ..old(self).word()[r.unwrap() as int] }),
    {
        let n = self.buf.len();
        proof { lemma_first_uo(self.buf@, 1); }
        let mut i: usize = 1;
        while i < n
            invariant
                n == self.buf@.len(),
                1 <= i,
                self.buf@ == old(self).buf@,
                self.same_but_word(old(self)),
                old(self).wf(),
                self.buf.wf(),
                first_uo(self.buf@, 1) == first_uo(self.buf@, i as int),
            decreases n - i,
        {
            let u = self.buf.get(i - 1).unwrap();
            let o = self.buf.get(i).unwrap();
            if u.key == keys::U && u.tone == chars::TONE_HORN && o.key == keys::O && o.tone == chars::TONE_NONE {
                self.buf.set_tone(i, chars::TONE_HORN);
                return Some(i);
            }
            i = i + 1;
        }
        None
    }

    /// Whether the word is a Vietnamese syllable once its modifiers are counted.
    fn word_is_vietnamese(&self) -> (r: bool)
        ensures
            r == keys_form_syllable(keys_of(self.word()), tones_of(self.word())),
    {
        let (ks, ts) = buffer_keys(&self.buf);
        VietnameseSyllableValidator::validate_with_tones(ks.as_slice(), ts.as_slice()).is_valid
    }

    /// Whether the word is, or can still become by adding modifiers, a Vietnamese syllable.
    fn word_may_be_vietnamese(&self) -> (r: bool)
        ensures
            r == may_be_vietnamese(keys_of(self.word()), tones_of(self.word())),
    {
        let (ks, ts) = buffer_keys(&self.buf);
        may_be_syllable(ks.as_slice(), ts.as_slice())
    }

    /// A tone mark key: the mark goes on the vowel the placement rules pick (ư before a plain
    /// o first becomes ươ), unless the word could then no longer become a Vietnamese syllable;
    /// the same key typed again undoes the mark.
    #[verifier::spinoff_prover]
    #[verifier::rlimit(100)]
    fn try_mark(&mut self, key: u16, caps: bool, mark_val: u8) -> (r: Option<ImeResult>)
        requires
            old(self).wf(),
        ensures
            final(self).wf(),
            final(self).raw() == old(self).raw(),
            final(self).history() == old(self).history(),
            final(self).keeps_settings(old(self)),
            old(self).word().len() == 0 ==> r is None && final(self).word() == old(self).word(),
            r is None ==> same_keys(final(self).word(), old(self).word()),
            ({
                let w = old(self).word();
                let w1 = uo_normalized(w);
                let vs = tone_positioning::vowels_of(w1);
                let p = tone_positioning::mark_position(vs) as int;
                w.len() > 0 && !(old(self).last() matches Some(Transform::Mark(k, _)) && k == key)
                    && vs.len() > 0 && p < w.len()
                    && may_be_vietnamese(keys_of(w1), tones_of(w1)) ==> {
                    &&& r is Some
                    &&& final(self).last() == Some(Transform::Mark(key, mark_val))
                    &&& final(self).word() == w1.update(p, Char { mark: mark_val, ..w1[p] })
                    &&& ({
                        let k = first_uo(w, 1);
                        let from = if k >= 0 && k < p { k } else { p };
                        rebuilt(final(self).word(), from, w.len() - from, r.unwrap())
                    })
                }
            }),
            r is Some && final(self).last() == Some(Transform::Mark(key, mark_val)) ==>
                same_keys(final(self).word(), old(self).word())
                && may_be_vietnamese(keys_of(final(self).word()), tones_of(final(self).word()))
                && exists|p: int| 0 <= p < final(self).word().len() && (#[trigger] final(self).word()[p]).mark == mark_val,
    {
        if self.buf.is_empty() {
            return None;
        }
        if let Some(Transform::Mark(last_key, _)) = self.last_transform {
            if last_key == key {
                return Some(self.revert_mark(key, caps));
            }
        }
        let ghost w = self.buf@;
        proof { lemma_first_uo(w, 1); }
        let compound = self.normalize_uo_compound();
        let ghost w1 = self.buf@;
        assert(w1 == uo_normalized(w));
        let vowels = tone_positioning::collect_vowels(&self.buf);
        if vowels.len() == 0 {
            return None;
        }
        let last_vowel_pos = vowels[vowels.len() - 1].pos;
        let has_final = tone_positioning::has_final_consonant(&self.buf, last_vowel_pos);
        let pos = tone_positioning::find_mark_position(vowels.as_slice(), has_final);
        assert(pos == tone_positioning::mark_position(tone_positioning::vowels_of(w1)));
        if pos >= self.buf.len() {
            return None;
        }
        let from = match compound {
            Some(cp) => if cp < pos { cp } else { pos },
            None => pos,
        };
        assert(from as int == (if first_uo(w, 1) >= 0 && first_uo(w, 1) < pos { first_uo(w, 1) } else { pos as int }));
        assert(keys_of(w1) == keys_of(self.buf@));
        self.place_mark(key, mark_val, pos, from)
    }

    /// Puts the mark on the character at `pos` when the word may still be a Vietnamese
    /// syllable, and retypes the word from `from`; otherwise the word may be restored to
    /// English, or the key is left for a letter.
    #[verifier::spinoff_prover]
    #[verifier::rlimit(60)]
    fn place_mark(&mut self, key: u16, mark_val: u8, pos: usize, from: usize) -> (r: Option<ImeResult>)
        requires
            old(self).wf(),
            pos < old(self).word().len(),
            from <= pos,
        ensures
            final(self).wf(),
            final(self).raw() == old(self).raw(),
            final(self).history() == old(self).history(),
            final(self).keeps_settings(old(self)),
            r is None ==> same_keys(final(self).word(), old(self).word()),
            ({
                let w = old(self).word();
                may_be_vietnamese(keys_of(w), tones_of(w)) ==> {
                    &&& r is Some
                    &&& final(self).last() == Some(Transform::Mark(key, mark_val))
                    &&& final(self).word() == w.update(pos as int, Char { mark: mark_val, ..w[pos as int] })
                    &&& rebuilt(final(self).word(), from as int, w.len() - from, r.unwrap())
                }
            }),
            r is Some && final(self).last() == Some(Transform::Mark(key, mark_val)) ==>
                same_keys(final(self).word(), old(self).word())
                && may_be_vietnamese(keys_of(final(self).word()), tones_of(final(self).word()))
                && exists|p: int| 0 <= p < final(self).word().len() && (#[trigger] final(self).word()[p]).mark == mark_val,
    {
        let before = self.buf.get(pos).unwrap().mark;
        let ghost w1 = self.buf@;
        self.buf.set_mark(pos, mark_val);
        assert(keys_of(self.buf@) =~= keys_of(w1));
        assert(tones_of(self.buf@) =~= tones_of(w1));
        self.last_transform = Some(Transform::Mark(key, mark_val));
        if !self.word_may_be_vietnamese() {
            self.buf.set_mark(pos, before);
            assert(self.buf@ =~= w1);
            if self.instant_restore_enabled && restore::has_vietnamese_transforms(&self.buf) {
                let r = restore::instant_restore_english(&self.buf, &self.raw_input);
                self.sync_buffer_with_raw_input();
                self.last_transform = None;
                return Some(r);
            }
            return None;
        }
        assert(self.buf@[pos as int].mark == mark_val);
        Some(self.rebuild_from(from))
    }

    /// Where a tone key applies: a vowel already carrying another modifier of this key's
    /// targets (switching it), else the last unmodified target vowel.
    fn find_tone_target(&self, key: u16, tone_val: u8) -> (r: Option<usize>)
        requires
            tone_val != 0,
        ensures
            tone_position(self.word(), self.flags().method, key, tone_val) < 0 ==> r is None,
            tone_position(self.word(), self.flags().method, key, tone_val) >= 0 ==>
                r == Some(tone_position(self.word(), self.flags().method, key, tone_val) as usize),
            r is Some ==> r.unwrap() < self.word().len()
                && tone_target(self.flags().method, key, self.word()[r.unwrap() as int].key)
                && self.word()[r.unwrap() as int].tone != tone_val,
    {
        let n = self.buf.len();
        proof {
            lemma_switch_target(self.buf@, self.method, key, tone_val, n - 1);
            lemma_plain_target(self.buf@, self.method, key, n - 1);
        }
        let mut i = n;
        while i > 0
            invariant
                n == self.buf@.len(),
                i <= n,
                switch_target(self.buf@, self.method, key, tone_val, n - 1)
                    == switch_target(self.buf@, self.method, key, tone_val, i - 1),
            decreases i,
        {
            let c = self.buf.get(i - 1).unwrap();
            if is_tone_target(self.method, key, c.key) && c.tone != chars::TONE_NONE && c.tone != tone_val {
                return Some(i - 1);
            }
            i = i - 1;
        }
        let mut j = n;
        while j > 0
            invariant
                n == self.buf@.len(),
                j <= n,
                tone_val != 0,
                switch_target(self.buf@, self.method, key, tone_val, n - 1) < 0,
                plain_target(self.buf@, self.method, key, n - 1) == plain_target(self.buf@, self.method, key, j - 1),
            decreases j,
        {
            let c = self.buf.get(j - 1).unwrap();
            if is_tone_target(self.method, key, c.key) && c.tone == chars::TONE_NONE {
                return Some(j - 1);
            }
            j = j - 1;
        }
        None
    }

    /// Gives the vowel at `pos` the modifier; with the horn, u and o side by side both take
    /// it. Returns the first position changed.
    #[verifier::spinoff_prover]
    #[verifier::rlimit(40)]
    fn set_modifier(&mut self, pos: usize, key: u16, tone_val: u8) -> (from: usize)
        requires
            old(self).wf(),
            pos < old(self).word().len(),
        ensures
            final(self).wf(),
            final(self).same_but_word(old(self)),
            same_keys(final(self).word(), old(self).word()),
            final(self).word()[pos as int].tone == tone_val,
            from <= pos,
    {
        let n = self.buf.len();
        let mut from = pos;
        let horn = tone_val == chars::TONE_HORN;
        let prev_u = horn && pos > 0 && {
            let prev = self.buf.get(pos - 1).unwrap();
            prev.key == keys::U && prev.tone == chars::TONE_NONE && is_tone_target(self.method, key, prev.key)
        };
        let cur_key = self.buf.get(pos).unwrap().key;
        let next_o = horn && pos + 1 < n && cur_key == keys::U && {
            let next = self.buf.get(pos + 1).unwrap();
            next.key == keys::O && next.tone == chars::TONE_NONE && is_tone_target(self.method, key, next.key)
        };
        self.buf.set_tone(pos, tone_val);
        proof { lemma_set_tone_keys(old(self).buf@, pos as int, tone_val); }
        if prev_u && cur_key == keys::O {
            let ghost b1 = self.buf@;
            self.buf.set_tone(pos - 1, tone_val);
            proof { lemma_set_tone_keys(b1, pos - 1, tone_val); }
            from = pos - 1;
        }
        if next_o {
            let ghost b2 = self.buf@;
            self.buf.set_tone(pos + 1, tone_val);
            proof { lemma_set_tone_keys(b2, pos + 1, tone_val); }
        }
        from
    }

    /// A modifier key (circumflex, horn or breve): the modifier goes on its target vowel,
    /// u and o side by side both take the horn, and the tone mark moves where the vowels now
    /// call for it. The same key typed again undoes it. `None` when nothing can take it.
    #[verifier::spinoff_prover]
    #[verifier::rlimit(40)]
    fn try_tone(&mut self, key: u16, caps: bool, tone_val: u8) -> (r: Option<ImeResult>)
        requires
            old(self).wf(),
            tone_val != chars::TONE_NONE,
        ensures
            final(self).wf(),
            final(self).raw() == old(self).raw(),
            final(self).history() == old(self).history(),
            final(self).keeps_settings(old(self)),
            r is None ==> final(self).word() == old(self).word(),
            ({
                let w = old(self).word();
                let p = tone_position(w, old(self).flags().method, key, tone_val);
                !w_left_for_breve(w, old(self).flags().method, key)
                    && !(old(self).last() matches Some(Transform::Tone(k, _)) && k == key)
                    && p >= 0 && diacritic_allowed(w, p, p + 1 < w.len()) ==> {
                    &&& r is Some
                    &&& final(self).last() == Some(Transform::Tone(key, tone_val))
                    &&& same_keys(final(self).word(), w)
                    &&& final(self).word()[p].tone == tone_val
                    &&& exists|f: int| 0 <= f <= p && #[trigger] rebuilt_since(final(self).word(), w.len() as int, f, r.unwrap())
                }
            }),
            r is Some && final(self).last() == Some(Transform::Tone(key, tone_val)) ==>
                same_keys(final(self).word(), old(self).word())
                && exists|p: int| 0 <= p < final(self).word().len() && (#[trigger] final(self).word()[p]).tone == tone_val
                    && tone_target(old(self).flags().method, key, final(self).word()[p].key),
    {
        let n = self.buf.len();
        if self.method == METHOD_TELEX && key == keys::W && n > 0 {
            let last = self.buf.get(n - 1).unwrap();
            if last.key == keys::A && last.tone == chars::TONE_NONE && last.mark == chars::MARK_NONE {
                let ua = n >= 2 && self.buf.get(n - 2).unwrap().key == keys::U;
                let qu = n >= 3 && self.buf.get(n - 3).unwrap().key == keys::Q;
                if !ua || qu {
                    return None;
                }
            }
        }
        if let Some(Transform::Tone(last_key, _)) = self.last_transform {
            if last_key == key {
                return Some(self.revert_tone(key, caps));
            }
        }
        let ghost w0 = self.buf@;
        let pos = match self.find_tone_target(key, tone_val) {
            Some(p) => p,
            None => { return None; },
        };
        proof {
            lemma_switch_target(w0, self.method, key, tone_val, w0.len() - 1);
            lemma_plain_target(w0, self.method, key, w0.len() - 1);
        }
        assert(pos as int == tone_position(w0, self.method, key, tone_val));
        let backward = pos + 1 < n;
        if !self.can_apply_diacritical(pos, backward) {
            return None;
        }
        let mut from = self.set_modifier(pos, key, tone_val);
        self.last_transform = Some(Transform::Tone(key, tone_val));
        let ghost toned = self.buf@;
        assert(toned[pos as int].tone == tone_val);
        proof { lemma_repositioned_keys(self.buf@); }
        let moved = tone_positioning::reposition_mark(&mut self.buf);
        if let Some((old_pos, _)) = moved {
            if old_pos < from {
                from = old_pos;
            }
        }
        assert(tones_of(self.buf@)[pos as int] == tones_of(toned)[pos as int]);
        assert(self.buf@[pos as int].tone == tone_val);
        proof { lemma_same_keys_trans(self.buf@, toned, w0); }
        let r = self.rebuild_from(from);
        assert(from <= pos);
        assert(rebuilt(self.buf@, from as int, w0.len() - from, r));
        assert(rebuilt_since(self.buf@, w0.len() as int, from as int, r));
        assert(w0 == old(self).word());
        assert(exists|f: int| 0 <= f <= pos as int && #[trigger] rebuilt_since(self.buf@, w0.len() as int, f, r));
        assert(Some(r).unwrap() == r);
        Some(r)
    }

    /// Saves the word being typed (characters and keystrokes) for backspace-after-space.
    fn push_history(&mut self)
        requires
            old(self).wf(),
        ensures
            final(self).wf(),
            final(self).history() == history_pushed(old(self).history(), (old(self).word(), old(self).raw())),
            final(self).word() == old(self).word(),
            final(self).raw() == old(self).raw(),
            final(self).keeps_settings(old(self)),
            final(self).last() == old(self).last(),
            final(self).english() == old(self).english(),
            final(self).spaces() == old(self).spaces(),
            final(self).breaks() == old(self).breaks(),
    {
        let b = self.buf.duplicate();
        let r = self.raw_input.duplicate();
        let ghost h = self.history();
        if self.word_history.len() >= HISTORY_CAPACITY {
            self.word_history.remove(0);
        }
        self.word_history.push((b, r));
        proof {
            if h.len() < HISTORY_CAPACITY {
                assert(self.history() =~= h.push((self.buf@, self.raw_input@)));
            } else {
                assert(self.history() =~= h.drop_first().push((self.buf@, self.raw_input@)));
            }
        }
    }

    /// Takes back the last saved word, if any.
    fn pop_history(&mut self) -> (r: Option<(Buffer, RawInputBuffer)>)
        requires
            old(self).wf(),
        ensures
            final(self).wf(),
            old(self).history().len() == 0 ==> r is None && final(self).history() == old(self).history(),
            old(self).history().len() > 0 ==> r is Some && final(self).history() == old(self).history().drop_last()
                && (r.unwrap().0@, r.unwrap().1@) == old(self).history().last()
                && r.unwrap().0.wf() && r.unwrap().1.wf(),
            final(self).word() == old(self).word(),
            final(self).raw() == old(self).raw(),
            final(self).keeps_settings(old(self)),
            final(self).last() == old(self).last(),
            final(self).english() == old(self).english(),
            final(self).spaces() == old(self).spaces(),
            final(self).breaks() == old(self).breaks(),
    {
        let ghost h = self.history();
        let r = self.word_history.pop();
        proof {
            if h.len() > 0 {
                assert(self.history() =~= h.drop_last());
                assert(old(self).word_history@[old(self).word_history@.len() - 1].0.wf());
            }
        }
        r
    }

    fn clear_history(&mut self)
        requires
            old(self).wf(),
        ensures
            final(self).wf(),
            final(self).history() == Seq::<(Seq<Char>, Seq<(u16, bool)>)>::empty(),
            final(self).word() == old(self).word(),
            final(self).raw() == old(self).raw(),
            final(self).keeps_settings(old(self)),
            final(self).last() == old(self).last(),
            final(self).english() == old(self).english(),
            final(self).spaces() == old(self).spaces(),
            final(self).breaks() == old(self).breaks(),
    {
        self.word_history = Vec::new();
        assert(self.history() =~= Seq::<(Seq<Char>, Seq<(u16, bool)>)>::empty());
    }

    /// Whether any character of the word carries a modifier, a tone mark or a stroke.
    pub fn has_vietnamese_transforms(&self) -> (r: bool)
        ensures
            r == restore::any_transform(self.word()),
    {
        restore::has_vietnamese_transforms(&self.buf)
    }

    /// Whether the raw keys spell a known English word.
    fn is_english_dictionary_word(&self) -> (r: bool)
        ensures
            r == self.dictionary_word(),
    {
        let n = self.raw_input.len();
        if self.method == METHOD_TELEX && n > 0 && self.raw_input.get(n - 1).0 == keys::W {
            return false;
        }
        let ks = raw_key_list(&self.raw_input);
        Dictionary::is_english(ks.as_slice())
    }

    /// The English analysis of the raw keystrokes.
    pub fn analyze_phonotactic_english(&self) -> (r: PhonotacticResult)
        ensures
            r.layer_scores@ == layer_scores_of(self.raw()),
            r.english_confidence == overall_confidence(layer_scores_of(self.raw())),
            r.matched_layers == mask_of(layer_scores_of(self.raw())),
    {
        let ks = raw_pairs(&self.raw_input);
        PhonotacticEngine::analyze(ks.as_slice())
    }

    /// Whether the base keys of the word spell a Vietnamese syllable.
    pub fn validate_vietnamese_syllable(&self) -> (r: ValidationResult)
        ensures
            r == result_of(keys_form_syllable(keys_of(self.word()), Seq::empty())),
    {
        let (ks, _) = buffer_keys(&self.buf);
        VietnameseSyllableValidator::validate(ks.as_slice())
    }

    /// Restores the word to its raw keys when English is detected: always when the raw keys
    /// spell a dictionary word and the word carries a transform; otherwise by the English
    /// confidence of the keystrokes: 95 when the word is or can still become a Vietnamese
    /// syllable, 60 when it cannot (never in strict mode). `offset` characters fewer are deleted. Nothing happens with auto-restore off.
    #[verifier::spinoff_prover]
    #[verifier::rlimit(40)]
    fn check_and_restore_english(&mut self, offset: u8, strict_mode: bool) -> (r: Option<ImeResult>)
        requires
            old(self).wf(),
        ensures
            final(self).wf(),
            final(self).raw() == old(self).raw(),
            final(self).history() == old(self).history(),
            final(self).keeps_settings(old(self)),
            ({
                let w = old(self).word();
                let conf = overall_confidence(layer_scores_of(old(self).raw()));
                let first = offset == 0 && old(self).english() && old(self).raw().len() > w.len();
                let english = restore::any_transform(w) && (old(self).dictionary_word()
                    || (if may_be_vietnamese(keys_of(w), tones_of(w)) { conf >= 95 } else { !strict_mode && conf >= 60 }));
                &&& r is Some <==> old(self).flags().english_auto_restore && (first || english)
                &&& r is Some ==> restore_result(w, old(self).raw(), if first { 0 } else { offset as int }, r.unwrap())
                &&& r is Some && !first ==> final(self).english()
            }),
            r is None ==> final(self).word() == old(self).word() && final(self).english() == old(self).english(),
            r is Some ==> final(self).word() == plain_chars(old(self).raw()) && final(self).last() is None,
    {
        if !self.instant_restore_enabled {
            return None;
        }
        if offset == 0 && self.is_english_word && self.raw_input.len() > self.buf.len() {
            let result = restore::instant_restore_english(&self.buf, &self.raw_input);
            self.sync_buffer_with_raw_input();
            self.last_transform = None;
            return Some(result);
        }
        if !self.has_vietnamese_transforms() {
            return None;
        }
        let is_dict = self.is_english_dictionary_word();
        let should_restore = if is_dict {
            true
        } else {
            let phon = self.analyze_phonotactic_english();
            if self.word_may_be_vietnamese() {
                phon.english_confidence >= 95
            } else if strict_mode {
                false
            } else {
                phon.english_confidence >= 60
            }
        };
        if should_restore {
            self.is_english_word = true;
            let mut result = restore::instant_restore_english(&self.buf, &self.raw_input);
            result.backspace = if result.backspace > offset { result.backspace - offset } else { 0 };
            self.sync_buffer_with_raw_input();
            self.last_transform = None;
            return Some(result);
        }
        None
    }

    /// The w key typed as a vowel (Telex): after a plain a it makes ă (again: back to aw,
    /// English); at the start of a word it is kept as w when that is set; otherwise it types ư
    /// when the word stays a Vietnamese syllable; a second w turns that ư back into w.
    #[verifier::spinoff_prover]
    #[verifier::rlimit(40)]
    fn try_w_as_vowel(&mut self, caps: bool) -> (r: Option<ImeResult>)
        requires
            old(self).wf(),
        ensures
            final(self).wf(),
            final(self).raw() == old(self).raw(),
            final(self).history() == old(self).history(),
            final(self).keeps_settings(old(self)),
            old(self).english() ==> r is None,
            r is None ==> final(self).word() == old(self).word(),
            old(self).word().len() == 0 && old(self).flags().skip_w_shortcut ==> r is None,
            !old(self).english() && old(self).word().len() > 0 && ({
                let l = old(self).word().last();
                l.key == keys::A && l.tone == chars::TONE_NONE && l.mark == chars::MARK_NONE
            }) ==> {
                let n = old(self).word().len() - 1;
                let l = old(self).word().last();
                &&& final(self).word() == old(self).word().update(n, Char { tone: chars::TONE_HORN, ..l })
                &&& final(self).last() == Some(Transform::Mark(keys::W, chars::TONE_HORN))
                &&& r is Some && is_send(r.unwrap(), 1, seq![if l.caps { 'Ă' } else { 'ă' }])
            },
            ({
                let w = old(self).word();
                let uw = Char { key: keys::U, caps, tone: chars::TONE_HORN, mark: 0, stroke: false };
                let fast = w.len() == 0 || (w.len() == 1 && !keys::is_vowel_key(w[0].key));
                !old(self).english()
                    && !(w.len() > 0 && w.last().key == keys::A && w.last().mark == chars::MARK_NONE
                        && (w.last().tone == chars::TONE_NONE || w.last().tone == chars::TONE_HORN))
                    && !(w.len() == 0 && old(self).flags().skip_w_shortcut)
                    && old(self).last() != Some(Transform::WShortcutSkipped)
                    && !(old(self).last() == Some(Transform::WAsVowel) && w.len() > 0)
                    && w.len() < MAX
                    && (fast || keys_form_syllable(keys_of(w.push(uw)), tones_of(w.push(uw)))) ==> {
                    &&& final(self).word() == w.push(uw)
                    &&& final(self).last() == Some(Transform::WAsVowel)
                    &&& r is Some && is_send(r.unwrap(), 0, seq![if caps { 'Ư' } else { 'ư' }])
                }
            }),
    {
        if self.is_english_word {
            return None;
        }
        let n = self.buf.len();
        if n > 0 {
            let last = self.buf.get(n - 1).unwrap();
            if last.key == keys::A && last.tone == chars::TONE_HORN && last.mark == chars::MARK_NONE {
                self.buf.set_tone(n - 1, chars::TONE_NONE);
                let r = self.revert_and_rebuild(n - 1, keys::W, caps);
                self.last_transform = None;
                self.is_english_word = true;
                return Some(r);
            }
            if last.key == keys::A && last.tone == chars::TONE_NONE && last.mark == chars::MARK_NONE {
                self.buf.set_tone(n - 1, chars::TONE_HORN);
                self.last_transform = Some(Transform::Mark(keys::W, chars::TONE_HORN));
                let breve = if last.caps { 'Ă' } else { 'ă' };
                let arr = [breve];
                let r = ImeResult::send(1, &arr);
                assert(arr@.take(1) =~= seq![breve]);
                assert(r.chars@ =~= seq![breve]);
                return Some(r);
            }
        }
        if self.skip_w_shortcut && n == 0 {
            return None;
        }
        if self.last_transform == Some(Transform::WShortcutSkipped) {
            return None;
        }
        if self.last_transform == Some(Transform::WAsVowel) && n > 0 {
            let last = self.buf.get(n - 1).unwrap();
            self.last_transform = Some(Transform::WShortcutSkipped);
            self.buf.pop();
            self.buf.push(Char::new(keys::W, last.caps));
            let w = if last.caps { 'W' } else { 'w' };
            return Some(ImeResult::send(1, &[w]));
        }
        if n >= MAX {
            return None;
        }
        let fast = n == 0 || (n == 1 && !keys::is_vowel(self.buf.get(0).unwrap().key));
        self.buf.push(Char { key: keys::U, caps, tone: chars::TONE_HORN, mark: 0, stroke: false });
        let uw = if caps { 'Ư' } else { 'ư' };
        if fast || self.word_is_vietnamese() {
            self.last_transform = Some(Transform::WAsVowel);
            let arr = [uw];
            let r = ImeResult::send(0, &arr);
            assert(arr@.take(1) =~= seq![uw]);
            assert(r.chars@ =~= seq![uw]);
            return Some(r);
        }
        self.buf.pop();
        None
    }

    /// Deletes the characters from `from` on that showed before the last one joined, and
    /// types them as they now show, the new one included.
    fn rebuild_from_after_insert(&self, from: usize) -> (r: ImeResult)
        requires
            self.wf(),
            from < self.word().len(),
        ensures
            rendered(self.word().subrange(from as int, self.word().len() as int)).len() == 0 ==> is_none(r),
            rendered(self.word().subrange(from as int, self.word().len() as int)).len() > 0 ==>
                is_send(r, self.word().len() - 1 - from, rendered(self.word().subrange(from as int, self.word().len() as int))),
    {
        let out = render_from(&self.buf, from);
        proof {
            lemma_rendered_len(self.buf@.subrange(from as int, self.buf@.len() as int));
            assert(out@.len() <= RESULT_MAX);
        }
        if out.len() == 0 {
            ImeResult::none()
        } else {
            let bs = (self.buf.len() - 1 - from) as u8;
            assert(out@.take(out@.len() as int) =~= out@);
            ImeResult::send(bs, out.as_slice())
        }
    }

    /// A key that types a character of its own: o after a w typed as ư makes ươ; a letter
    /// joins the word (after a revert in an English word the whole word is retyped from its
    /// keys), ư before o becomes ươ, the tone mark moves where the vowels now call for it, and
    /// the English flag follows the dictionary and the clear English patterns; any other key marks the word as having a
    /// non-letter prefix. Then the word may be restored to English.
    #[verifier::spinoff_prover]
    #[verifier::rlimit(100)]
    fn handle_normal_letter(&mut self, key: u16, caps: bool, shift: bool) -> (r: ImeResult)
        requires
            old(self).wf(),
        ensures
            final(self).wf(),
            final(self).raw() == old(self).raw(),
            final(self).history() == old(self).history(),
            final(self).keeps_settings(old(self)),
            key == keys::O && old(self).last() == Some(Transform::WAsVowel) && old(self).word().len() < MAX ==> {
                &&& final(self).word() == old(self).word().push(
                    Char { key: keys::O, caps, tone: chars::TONE_HORN, mark: 0, stroke: false })
                &&& is_send(r, 0, seq![if caps { 'Ơ' } else { 'ơ' }])
                &&& final(self).last() is None
            },
            keys::letter_of(key) is None && !(key == keys::O && old(self).last() == Some(Transform::WAsVowel)) ==>
                final(self).word() == old(self).word() || final(self).word() == plain_chars(old(self).raw()),
            letter_step(old(self).word(), old(self).raw(), old(self).last(), old(self).english(),
                old(self).flags().english_auto_restore, old(self).flags().method, key, caps, final(self).word(), r),
    {
        if key == keys::O && self.last_transform == Some(Transform::WAsVowel) && self.buf.len() < MAX {
            self.buf.push(Char { key: keys::O, caps, tone: chars::TONE_HORN, mark: 0, stroke: false });
            self.last_transform = None;
            let o = if caps { 'Ơ' } else { 'ơ' };
            let arr = [o];
            assert(arr@ =~= seq![o]);
            let r = ImeResult::send(0, &arr);
            assert(arr@.take(1) =~= seq![o]);
            assert(r.chars@ =~= seq![o]);
            return r;
        }
        self.last_transform = None;
        if keys::letter(key).is_some() {
            self.buf.push(Char::new(key, caps));
            let n = self.buf.len();
            if self.is_english_word && self.raw_input.len() > n {
                let displayed = (n - 1) as u8;
                let raw_chars = restore::build_raw_output(&self.raw_input);
                self.sync_buffer_with_raw_input();
                return ImeResult::send(displayed, raw_chars.as_slice());
            }
            if key == keys::O {
                let formed = self.normalize_uo_compound();
                if formed.is_some() {
                    let moved = tone_positioning::reposition_mark(&mut self.buf);
                    if let Some(restored) = self.check_and_restore_english(1, false) {
                        return restored;
                    }
                    match moved {
                        Some((old_pos, _)) => {
                            if old_pos < self.buf.len() {
                                return self.rebuild_from_after_insert(old_pos);
                            }
                            return ImeResult::none();
                        },
                        None => {
                            let o = if caps { 'Ơ' } else { 'ơ' };
                            return ImeResult::send(0, &[o]);
                        },
                    }
                }
            }
            return self.settle_letter();
        } else {
            self.is_english_word = false;
            self.has_non_letter_prefix = true;
        }
        if let Some(restored) = self.check_and_restore_english(1, false) {
            return restored;
        }
        ImeResult::none()
    }

    /// The input method shortcuts are looked up under.
    fn current_input_method(&self) -> (r: crate::domain::InputMethodId)
        ensures
            self.flags().method == METHOD_TELEX ==> r == crate::domain::InputMethodId::Telex,
            self.flags().method == METHOD_VNI ==> r == crate::domain::InputMethodId::Vni,
            self.flags().method > METHOD_VNI ==> r == crate::domain::InputMethodId::Plain,
    {
        if self.method == METHOD_TELEX {
            crate::domain::InputMethodId::Telex
        } else if self.method == METHOD_VNI {
            crate::domain::InputMethodId::Vni
        } else {
            crate::domain::InputMethodId::Plain
        }
    }

    /// At a space: when shortcuts are on and the word (typed from its start) is a trigger,
    /// deletes it and types the replacement and the space.
    fn try_word_boundary_shortcut(&self) -> (r: ImeResult)
        requires
            self.wf(),
        ensures
            !self.shortcuts_on() || self.word().len() == 0 ==> is_none(r),
    {
        if !self.shortcuts_enabled || self.has_non_letter_prefix || self.buf.is_empty() {
            return ImeResult::none();
        }
        let text = self.get_buffer();
        let method = self.current_input_method();
        match self.shortcuts.try_match_for_method(text.as_str(), Some(' '), true, method) {
            Some(m) => {
                let out = str_chars(m.output.as_str());
                let bs: u8 = if m.backspace_count < 255 { m.backspace_count as u8 } else { 255 };
                ImeResult::send(bs, out.as_slice())
            },
            None => ImeResult::none(),
        }
    }

    /// A key that ends a word (punctuation, a digit that is not a modifier): the word is saved
    /// for backspace and forgotten; a run of such keys is counted.
    fn commit_and_break_sequence(&mut self) -> (r: ImeResult)
        requires
            old(self).wf(),
        ensures
            final(self).wf(),
            is_none(r),
            final(self).word() == Seq::<Char>::empty(),
            final(self).raw() == Seq::<(u16, bool)>::empty(),
            !final(self).english(),
            final(self).spaces() == 0,
            final(self).keeps_settings(old(self)),
            old(self).word().len() > 0 ==> final(self).history()
                == history_pushed(old(self).history(), (old(self).word(), old(self).raw()))
                && final(self).breaks() == 1,
            old(self).word().len() == 0 && old(self).breaks() > 0 ==> final(self).history() == old(self).history()
                && final(self).breaks() == (if old(self).breaks() < 255 { old(self).breaks() + 1 } else { 255 }),
            old(self).word().len() == 0 && old(self).breaks() == 0 ==>
                final(self).history() == Seq::<(Seq<Char>, Seq<(u16, bool)>)>::empty() && final(self).breaks() == 0,
    {
        if !self.buf.is_empty() {
            self.push_history();
            self.break_after_commit = 1;
        } else if self.break_after_commit > 0 {
            self.break_after_commit = if self.break_after_commit < 255 { self.break_after_commit + 1 } else { 255 };
        } else {
            self.clear_history();
            self.break_after_commit = 0;
        }
        self.clear();
        self.spaces_after_commit = 0;
        ImeResult::none()
    }

    /// Shift+Backspace: deletes the whole word being typed (as many characters as it shows);
    /// nothing happens when no word is being typed.
    #[verifier::spinoff_prover]
    #[verifier::rlimit(40)]
    pub fn handle_shift_backspace(&mut self) -> (r: ImeResult)
        requires
            old(self).wf(),
        ensures
            final(self).wf(),
            final(self).keeps_settings(old(self)),
            final(self).history() == old(self).history(),
            final(self).spaces() == old(self).spaces(),
            final(self).breaks() == old(self).breaks(),
            old(self).word().len() > 0 ==> {
                &&& final(self).word() == Seq::<Char>::empty()
                &&& final(self).raw() == Seq::<(u16, bool)>::empty()
                &&& !final(self).english()
                &&& final(self).last() is None
                &&& is_send(r, (if rendered(old(self).word()).len() < 255 { rendered(old(self).word()).len() as int } else { 255 }), Seq::empty())
            },
            old(self).word().len() == 0 ==> is_none(r) && final(self).word() == old(self).word()
                && final(self).raw() == old(self).raw(),
    {
        if self.buf.is_empty() {
            return ImeResult::none();
        }
        let shown = render_from(&self.buf, 0);
        assert(self.buf@.subrange(0, self.buf@.len() as int) =~= self.buf@);
        let n = shown.len();
        let count: u8 = if n < 255 { n as u8 } else { 255 };
        self.buf.clear();
        self.raw_input.clear();
        self.last_transform = None;
        self.is_english_word = false;
        self.has_non_letter_prefix = false;
        let r = ImeResult::send(count, &[]);
        assert(r.chars@ =~= Seq::<char>::empty());
        r
    }

    /// The word's keys and modifiers with the last raw key added, as the syllable check sees
    /// them.
    fn keys_with_last_raw(&self) -> (r: (Vec<u16>, Vec<u8>))
        ensures
            r.0@.len() == r.1@.len(),
            self.raw().len() > 0 ==> r.0@ == keys_of(self.word()).push(self.raw().last().0)
                && r.1@ == tones_of(self.word()).push(chars::TONE_NONE),
    {
        let (mut ks, mut ts) = buffer_keys(&self.buf);
        let n = self.raw_input.len();
        if n > 0 {
            ks.push(self.raw_input.get(n - 1).0);
            ts.push(chars::TONE_NONE);
        }
        (ks, ts)
    }

    /// Number of layers of an analysis that scored.
    fn layers_matched(p: &PhonotacticResult) -> (r: usize)
        ensures
            r == scored_layers(p.layer_scores@),
    {
        let mut c: usize = 0;
        let mut i: usize = 0;
        while i < p.layer_scores.len()
            invariant
                i <= p.layer_scores@.len(),
                c <= i,
                c == scored_layers(p.layer_scores@.take(i as int)),
            decreases p.layer_scores@.len() - i,
        {
            assert(p.layer_scores@.take(i + 1).drop_last() =~= p.layer_scores@.take(i as int));
            if p.layer_scores[i] > 0 {
                c = c + 1;
            }
            i = i + 1;
        }
        assert(p.layer_scores@.take(i as int) =~= p.layer_scores@);
        c
    }

    /// Clearly English: the keys start with "ex", or the word cannot become a Vietnamese
    /// syllable and
    /// the analysis is sure (95) or found a foreign initial.
    fn has_definite_english_pattern(&self) -> (r: bool)
        ensures
            r == self.definite_english(),
    {
        let n = self.raw_input.len();
        if n == 0 {
            return false;
        }
        if n >= 2 && self.raw_input.get(0).0 == keys::E && self.raw_input.get(1).0 == keys::X {
            return true;
        }
        if self.word_may_be_vietnamese() {
            return false;
        }
        let phon = self.analyze_phonotactic_english();
        let initial = phon.layer_scores.len() > 0 && phon.layer_scores[0] > 0;
        phon.english_confidence >= 95 || initial
    }

    /// Looks English: a dictionary word, or (when the word with the key cannot become a
    /// Vietnamese syllable) an analysis at 95, or a match at 80 or on two layers. Never for a complete
    /// ươ with a tone mark.
    fn has_english_word_pattern(&self) -> (r: bool)
        ensures
            r == self.english_word_pattern(),
    {
        if self.raw_input.is_empty() {
            return false;
        }
        if self.has_complete_uo_compound() {
            let mut i: usize = 0;
            while i < self.buf.len()
                invariant
                    i <= self.buf@.len(),
                    forall|j: int| 0 <= j < i ==> (#[trigger] self.buf@[j]).mark == 0,
                    complete_uo(self.word()),
                decreases self.buf@.len() - i,
            {
                if self.buf.get(i).unwrap().mark > 0 {
                    assert(has_mark(self.word()) && complete_uo(self.word())) by {
                        assert(self.word()[i as int].mark > 0);
                    }
                    return false;
                }
                i = i + 1;
            }
        }
        if self.is_english_dictionary_word() {
            return true;
        }
        let (ks, ts) = self.keys_with_last_raw();
        if may_be_syllable(ks.as_slice(), ts.as_slice()) {
            return false;
        }
        let phon = self.analyze_phonotactic_english();
        if phon.english_confidence >= 95 {
            return true;
        }
        phon.matched_layers > 0 && (phon.english_confidence >= 80 || Self::layers_matched(&phon) >= 2)
    }

    /// Marks the word as English and restores it at once when it was transformed; otherwise
    /// the key is typed as a letter.
    fn english_detected(&mut self, key: u16, caps: bool, shift: bool) -> (r: ImeResult)
        requires
            old(self).wf(),
        ensures
            final(self).wf(),
            final(self).raw() == old(self).raw(),
            final(self).history() == old(self).history(),
            final(self).keeps_settings(old(self)),
            !(old(self).flags().english_auto_restore && restore::any_transform(old(self).word())) ==>
                letter_step(old(self).word(), old(self).raw(), old(self).last(), true,
                    old(self).flags().english_auto_restore, old(self).flags().method, key, caps, final(self).word(), r),
    {
        self.is_english_word = true;
        if self.instant_restore_enabled && self.has_vietnamese_transforms() {
            let r = restore::instant_restore_english(&self.buf, &self.raw_input);
            self.sync_buffer_with_raw_input();
            self.last_transform = None;
            return r;
        }
        self.handle_normal_letter(key, caps, shift)
    }

    /// Telex a, e, o act as circumflex keys only right after the same vowel, after another
    /// vowel, or after a final consonant when the same plain vowel stands earlier.
    fn should_check_tone(&self, key: u16) -> (r: bool) {
        if self.method != METHOD_TELEX || !(key == keys::A || key == keys::E || key == keys::O) {
            return true;
        }
        let n = self.buf.len();
        if n == 0 {
            return false;
        }
        let last = self.buf.get(n - 1).unwrap();
        if last.key == key {
            return true;
        }
        if n < 2 {
            return false;
        }
        if keys::is_vowel(last.key) {
            return true;
        }
        let prev = self.buf.get(n - 2).unwrap();
        let is_final = is_final_key(last.key)
            || (prev.key == keys::C && last.key == keys::H)
            || (prev.key == keys::N && (last.key == keys::G || last.key == keys::H));
        if !is_final || n < 3 {
            return false;
        }
        let mut i: usize = 0;
        while i < n - 1
            invariant
                n == self.buf@.len(),
                i <= n - 1,
            decreases n - 1 - i,
        {
            let c = self.buf.get(i).unwrap();
            if c.key == key && c.tone == chars::TONE_NONE {
                return true;
            }
            i = i + 1;
        }
        false
    }

    /// A Telex a, e or o that failed as a circumflex key was meant as one (it doubles the last
    /// letter, or the word has consonants on both ends): it is then typed as a plain letter.
    fn was_tone_attempt(&self, key: u16) -> (r: bool) {
        if !(key == keys::A || key == keys::E || key == keys::O) {
            return false;
        }
        let n = self.buf.len();
        if n == 0 {
            return false;
        }
        let last = self.buf.get(n - 1).unwrap();
        if last.key == key {
            return true;
        }
        n >= 3 && !keys::is_vowel(last.key) && !keys::is_vowel(self.buf.get(0).unwrap().key)
    }

    /// After a mark: a word whose raw keys spell a dictionary word is restored at once.
    fn restore_dictionary_word(&mut self) -> (r: Option<ImeResult>)
        requires
            old(self).wf(),
        ensures
            final(self).wf(),
            final(self).raw() == old(self).raw(),
            final(self).history() == old(self).history(),
            final(self).keeps_settings(old(self)),
            r is None ==> final(self).word() == old(self).word() && final(self).english() == old(self).english()
                && final(self).last() == old(self).last(),
            !(old(self).flags().english_auto_restore && restore::any_transform(old(self).word())
                && old(self).dictionary_word()) ==> r is None,
    {
        if self.instant_restore_enabled && self.has_vietnamese_transforms() && self.is_english_dictionary_word() {
            self.is_english_word = true;
            let r = restore::instant_restore_english(&self.buf, &self.raw_input);
            self.sync_buffer_with_raw_input();
            self.last_transform = None;
            return Some(r);
        }
        None
    }

    /// The processing of a key after it was recorded: English detection, the undo of a
    /// repeated modifier, the stroke, modifier, mark, remove and w-as-vowel keys, and plain
    /// letters.
    #[verifier::rlimit(50)]
    fn process(&mut self, key: u16, caps: bool, shift: bool) -> (r: ImeResult)
        requires
            old(self).wf(),
        ensures
            final(self).wf(),
            keys::letter_of(key) is Some ==> final(self).raw() == old(self).raw()
                && final(self).history() == old(self).history(),
            final(self).keeps_settings(old(self)),
            mark_applies(old(self).word(), old(self).last(), old(self).flags().method, key,
                old(self).flags().english_auto_restore && old(self).dictionary_word()) ==> {
                &&& mark_effect(old(self).word(), old(self).flags().method, key, final(self).word(), r)
                &&& !final(self).english()
            },
            typed_letter(old(self).word(), old(self).raw(), old(self).last(), old(self).english(),
                old(self).flags().english_auto_restore, old(self).flags().method, key, caps, final(self).word(), r),
    {
        let method = self.method;
        let is_mod = tone_key(method, key).is_some() || mark_key(method, key).is_some()
            || is_stroke_key(method, key) || is_remove_key(method, key);
        if (method == METHOD_TELEX || method == METHOD_VNI) && self.raw_input.len() >= 1
            && keys::letter(key).is_some() && !is_mod {
            if self.raw_input.len() == 1 {
                let first = self.raw_input.get(0).0;
                if first == keys::F || first == keys::J || first == keys::Z {
                    self.is_english_word = true;
                    return self.handle_normal_letter(key, caps, shift);
                }
            }
            if self.raw_input.len() >= 2 {
                if self.is_english_dictionary_word() {
                    return self.english_detected(key, caps, shift);
                }
                if !self.is_english_word {
                    if self.has_definite_english_pattern() || self.has_english_word_pattern() {
                        return self.english_detected(key, caps, shift);
                    }
                }
            }
        }
        if method != METHOD_TELEX && method != METHOD_VNI {
            return self.handle_normal_letter(key, caps, shift);
        }
        self.process_modifiers(key, caps, shift)
    }

    /// After a letter joined the word (no ươ formed): the tone mark moves where the vowels now
    /// call for it and the word is typed again from where the mark stood (the new letter not yet
    /// shown), or else the English flag follows the dictionary and the clear English patterns;
    /// then the word is restored to English when due.
    #[verifier::spinoff_prover]
    #[verifier::rlimit(60)]
    fn settle_letter(&mut self) -> (r: ImeResult)
        requires
            old(self).wf(),
            old(self).word().len() > 0,
        ensures
            final(self).wf(),
            final(self).raw() == old(self).raw(),
            final(self).history() == old(self).history(),
            final(self).keeps_settings(old(self)),
            ({
                let w = old(self).word();
                let rp = tone_positioning::repositioned(w);
                let conf = overall_confidence(layer_scores_of(old(self).raw()));
                let due = old(self).flags().english_auto_restore
                    && english_due(rp.1, old(self).dictionary_word(), conf, false);
                &&& due ==> final(self).word() == plain_chars(old(self).raw())
                    && restore_result(rp.1, old(self).raw(), 1, r)
                &&& !due && rp.0 is None ==> final(self).word() == w && is_none(r)
                &&& !due && rp.0 is Some ==> final(self).word() == rp.1 && (rp.0.unwrap().0 < w.len() ==>
                    rebuilt(rp.1, rp.0.unwrap().0 as int, w.len() - 1 - rp.0.unwrap().0, r))
            }),
    {
        proof { lemma_repositioned_keys(self.buf@); }
        let moved = tone_positioning::reposition_mark(&mut self.buf);
        if let Some((old_pos, _)) = moved {
            if let Some(restored) = self.check_and_restore_english(1, false) {
                return restored;
            }
            if old_pos < self.buf.len() {
                return self.rebuild_from_after_insert(old_pos);
            }
            return ImeResult::none();
        }
        self.is_english_word = self.is_english_dictionary_word() || self.has_definite_english_pattern();
        if let Some(restored) = self.check_and_restore_english(1, false) {
            return restored;
        }
        ImeResult::none()
    }

    /// The modifier keys of Telex and VNI: the undo of a repeated tone or mark key, then
    /// stroke, tone, mark, remove and w keys in turn; any key none of them takes is a letter.
    #[verifier::spinoff_prover]
    #[verifier::rlimit(60)]
    fn process_modifiers(&mut self, key: u16, caps: bool, shift: bool) -> (r: ImeResult)
        requires
            old(self).wf(),
        ensures
            final(self).wf(),
            keys::letter_of(key) is Some ==> final(self).raw() == old(self).raw()
                && final(self).history() == old(self).history(),
            final(self).keeps_settings(old(self)),
            mark_applies(old(self).word(), old(self).last(), old(self).flags().method, key,
                old(self).flags().english_auto_restore && old(self).dictionary_word()) ==> {
                &&& mark_effect(old(self).word(), old(self).flags().method, key, final(self).word(), r)
                &&& !final(self).english()
            },
            keys::letter_of(key) is Some && !modifier_key(old(self).flags().method, key)
                && !(old(self).flags().method == METHOD_TELEX && key == keys::W) ==>
                letter_step(old(self).word(), old(self).raw(), old(self).last(), old(self).english(),
                    old(self).flags().english_auto_restore, old(self).flags().method, key, caps, final(self).word(), r),
    {
        let method = self.method;
        let skip_modifiers = shift && keys::digit(key).is_some();
        if tone_key(method, key).is_some() {
            if let Some(Transform::Tone(last_key, _)) = self.last_transform {
                if last_key == key {
                    let r = self.revert_tone(key, caps);
                    if let Some(restored) = self.check_and_restore_english(1, true) {
                        return restored;
                    }
                    return r;
                }
            }
        }
        if mark_key(method, key).is_some() {
            if let Some(Transform::Mark(last_key, _)) = self.last_transform {
                if last_key == key {
                    let r = self.revert_mark(key, caps);
                    if let Some(restored) = self.check_and_restore_english(1, true) {
                        return restored;
                    }
                    return r;
                }
            }
        }
        if !skip_modifiers {
            if is_stroke_key(method, key) {
                if let Some(r) = self.try_stroke(key, caps) {
                    if let Some(restored) = self.check_and_restore_english(0, false) {
                        return restored;
                    }
                    return r;
                }
            }
            if let Some(tv) = tone_key(method, key) {
                if self.should_check_tone(key) {
                    if let Some(r) = self.try_tone(key, caps, tv) {
                        self.is_english_word = false;
                        if tv == chars::TONE_CIRCUMFLEX {
                            if let Some(restored) = self.check_and_restore_english(0, false) {
                                self.last_transform = None;
                                return restored;
                            }
                            if let Some(restored) = self.restore_dictionary_word() {
                                return restored;
                            }
                        }
                        return r;
                    }
                    if keys::digit(key).is_some() {
                        return self.commit_and_break_sequence();
                    }
                    if method == METHOD_TELEX && self.was_tone_attempt(key) {
                        self.buf.push(Char::new(key, caps));
                        return ImeResult::none();
                    }
                }
            }
            if let Some(mv) = mark_key(method, key) {
                if let Some(r) = self.apply_mark_key(key, caps, mv) {
                    return r;
                }
                if keys::digit(key).is_some() {
                    return self.commit_and_break_sequence();
                }
            }
            if is_remove_key(method, key) {
                if let Some(r) = self.try_remove() {
                    self.is_english_word = false;
                    return r;
                }
                if keys::digit(key).is_some() {
                    return self.commit_and_break_sequence();
                }
            }
        }
        if method == METHOD_TELEX && key == keys::W {
            if let Some(r) = self.try_w_as_vowel(caps) {
                return r;
            }
        }
        self.handle_normal_letter(key, caps, shift)
    }

    /// A mark key: the mark applies (and a transformed dictionary word of more than one
    /// character is restored at once); `None` when the mark does not apply.
    #[verifier::spinoff_prover]
    #[verifier::rlimit(60)]
    fn apply_mark_key(&mut self, key: u16, caps: bool, mv: u8) -> (r: Option<ImeResult>)
        requires
            old(self).wf(),
            mark_key_spec(old(self).flags().method, key) == Some(mv),
        ensures
            final(self).wf(),
            final(self).raw() == old(self).raw(),
            final(self).history() == old(self).history(),
            final(self).keeps_settings(old(self)),
            r is None ==> same_keys(final(self).word(), old(self).word()),
            mark_applies(old(self).word(), old(self).last(), old(self).flags().method, key,
                old(self).flags().english_auto_restore && old(self).dictionary_word()) ==> {
                &&& r is Some
                &&& mark_effect(old(self).word(), old(self).flags().method, key, final(self).word(), r.unwrap())
                &&& !final(self).english()
            },
    {
        if let Some(r) = self.try_mark(key, caps, mv) {
            self.is_english_word = false;
            if self.buf.len() > 1 {
                if let Some(restored) = self.restore_dictionary_word() {
                    return Some(restored);
                }
            }
            return Some(r);
        }
        None
    }

    /// Space: expands a shortcut, saves the word for backspace and starts a new one.
    fn commit_on_space(&mut self) -> (r: ImeResult)
        requires
            old(self).wf(),
        ensures
            final(self).wf(),
            final(self).keeps_settings(old(self)),
            final(self).word() == Seq::<Char>::empty(),
            final(self).raw() == Seq::<(u16, bool)>::empty(),
            !final(self).english(),
            old(self).word().len() > 0 ==> final(self).history()
                == history_pushed(old(self).history(), (old(self).word(), old(self).raw()))
                && final(self).spaces() == 1,
            old(self).word().len() == 0 ==> final(self).history() == old(self).history(),
    {
        let r = self.try_word_boundary_shortcut();
        if !self.buf.is_empty() {
            self.push_history();
            self.spaces_after_commit = 1;
        } else if self.spaces_after_commit > 0 {
            self.spaces_after_commit = if self.spaces_after_commit < 255 { self.spaces_after_commit + 1 } else { 255 };
        }
        self.clear();
        r
    }

    /// Whether the last keystroke typed the last character of the word as it stands (a plain
    /// letter): Backspace then only has to delete that character.
    pub open spec fn last_key_plain(&self) -> bool {
        &&& self.word().len() > 0
        &&& self.raw().len() > 0
        &&& self.raw().last().0 == self.word().last().key
        &&& !self.word().last().transformed()
    }

    /// Types the recorded keystrokes again into an empty word.
    fn replay_raw(&mut self)
        requires
            old(self).wf(),
        ensures
            final(self).wf(),
            final(self).keeps_settings(old(self)),
    {
        let saved = self.raw_input.duplicate();
        self.buf.clear();
        self.raw_input.clear();
        self.last_transform = None;
        self.is_english_word = false;
        let n = saved.len();
        let mut i: usize = 0;
        while i < n
            invariant
                n == saved@.len(),
                i <= n,
                self.wf(),
                self.keeps_settings(old(self)),
            decreases n - i,
        {
            let (k, c) = saved.get(i);
            self.raw_input.push(k, c);
            self.process(k, c, false);
            i = i + 1;
        }
    }

    /// Backspace. With no word: deletes a space or a break character typed after a committed
    /// word (forgetting the committed words once the last is deleted), or else marks the next
    /// word as following other text; nothing is sent. In a word whose last keystroke typed
    /// its last character: that character and keystroke go, and one character is deleted.
    /// Otherwise the last keystroke (a modifier) goes and the word is typed again from the
    /// remaining keystrokes, replacing what it showed.
    fn handle_backspace(&mut self) -> (r: ImeResult)
        requires
            old(self).wf(),
        ensures
            final(self).wf(),
            final(self).keeps_settings(old(self)),
            old(self).word().len() == 0 ==> {
                &&& is_none(r)
                &&& final(self).word() == old(self).word()
                &&& final(self).raw() == old(self).raw()
                &&& old(self).spaces() > 0 ==> final(self).spaces() == old(self).spaces() - 1
                    && (old(self).spaces() == 1 ==> final(self).history() == Seq::<(Seq<Char>, Seq<(u16, bool)>)>::empty())
                &&& old(self).spaces() == 0 && old(self).breaks() == 0 ==> final(self).non_letter_prefix()
            },
            old(self).last_key_plain() ==> {
                &&& is_send(r, 1, Seq::empty())
                &&& final(self).word() == old(self).word().drop_last()
                &&& old(self).word().len() > 1 ==> final(self).raw() == old(self).raw().drop_last()
                &&& final(self).history() == old(self).history()
            },
            old(self).word().len() > 0 && !old(self).last_key_plain() ==> {
                &&& r.action == ACTION_SEND
                &&& r.backspace == rendered(old(self).word()).len()
                &&& r.chars@ == rendered(final(self).word())
                &&& r.count == r.chars@.len()
            },
    {
        if self.buf.is_empty() {
            if self.spaces_after_commit > 0 {
                self.spaces_after_commit = self.spaces_after_commit - 1;
                if self.spaces_after_commit == 0 {
                    self.clear_history();
                }
                return ImeResult::none();
            }
            if self.break_after_commit > 0 {
                self.break_after_commit = self.break_after_commit - 1;
                if self.break_after_commit == 0 {
                    self.clear_history();
                }
                return ImeResult::none();
            }
            self.has_non_letter_prefix = true;
            return ImeResult::none();
        }
        let n = self.buf.len();
        let last = self.buf.get(n - 1).unwrap();
        let rn = self.raw_input.len();
        if rn > 0 && self.raw_input.get(rn - 1).0 == last.key && !last.has_transform() {
            self.buf.pop();
            self.raw_input.pop();
            self.last_transform = None;
            if self.buf.is_empty() {
                self.is_english_word = false;
                self.raw_input.clear();
                self.has_non_letter_prefix = false;
            }
            let r = ImeResult::send(1, &[]);
            assert(r.chars@ =~= Seq::<char>::empty());
            return r;
        }
        let shown = render_from(&self.buf, 0);
        assert(self.buf@.subrange(0, self.buf@.len() as int) =~= self.buf@);
        proof { lemma_rendered_len(self.buf@); }
        self.raw_input.pop();
        self.replay_raw();
        let out = render_from(&self.buf, 0);
        assert(self.buf@.subrange(0, self.buf@.len() as int) =~= self.buf@);
        proof {
            lemma_rendered_len(self.buf@);
            assert(out@.take(out@.len() as int) =~= out@);
        }
        ImeResult::send(shown.len() as u8, out.as_slice())
    }

    /// A key press (`ctrl` stands for Cmd, Ctrl or Alt, which bypass the engine).
    pub fn on_key(&mut self, key: u16, caps: bool, ctrl: bool) -> (r: ImeResult)
        requires
            old(self).wf(),
        ensures
            final(self).wf(),
            final(self).keeps_settings(old(self)),
            key_step(old(self), final(self), key, caps, ctrl, false, r),
    {
        self.on_key_ext(key, caps, ctrl, false)
    }

    /// A key press with Shift reported: Space commits the word (expanding a shortcut), ESC
    /// restores the raw keys when that is on, word-ending keys commit, Backspace deletes (a
    /// space after a committed word first, and that word is then forgotten), and every other key
    /// is recorded and processed.
    #[verifier::spinoff_prover]
    #[verifier::rlimit(40)]
    pub fn on_key_ext(&mut self, key: u16, caps: bool, ctrl: bool, shift: bool) -> (r: ImeResult)
        requires
            old(self).wf(),
        ensures
            final(self).wf(),
            final(self).keeps_settings(old(self)),
            key_step(old(self), final(self), key, caps, ctrl, shift, r),
    {
        if !self.enabled || ctrl {
            self.clear();
            self.clear_history();
            self.spaces_after_commit = 0;
            return ImeResult::none();
        }
        if key == keys::SPACE {
            return self.commit_on_space();
        }
        if key == keys::ESC {
            let r = if self.esc_restore_enabled {
                restore::restore_to_raw(&self.buf, &self.raw_input)
            } else {
                ImeResult::none()
            };
            self.clear();
            self.clear_history();
            self.spaces_after_commit = 0;
            return r;
        }
        let method = self.method;
        let is_mod = tone_key(method, key).is_some() || mark_key(method, key).is_some()
            || is_stroke_key(method, key) || is_remove_key(method, key);
        let is_break = key == keys::RETURN || key == keys::TAB || key == keys::SEMICOLON;
        if !is_mod && (is_break || keys::digit(key).is_some()) {
            return self.commit_and_break_sequence();
        }
        if key == keys::DELETE {
            if shift {
                return self.handle_shift_backspace();
            }
            return self.handle_backspace();
        }
        if keys::letter(key).is_some() || keys::digit(key).is_some() {
            self.raw_input.push(key, caps);
        }
        self.process(key, caps, shift)
    }

    /// Puts a displayed word back into the engine for editing: each character that parses
    /// becomes a character of the word and a keystroke; the word counts as English when its
    /// keys spell a dictionary word or look clearly English.
    pub fn restore_word(&mut self, word: &str)
        requires
            old(self).wf(),
        ensures
            final(self).wf(),
            final(self).keeps_settings(old(self)),
            final(self).history() == old(self).history(),
            parsed_word(word@).len() <= MAX ==> final(self).word() == parsed_word(word@)
                && final(self).raw() == raw_of_word(parsed_word(word@)),
            final(self).english() == (final(self).raw().len() >= 2
                && (final(self).dictionary_word() || final(self).definite_english())),
            final(self).last() is None,
    {
        self.clear();
        let cs = str_chars(word);
        let n = cs.len();
        let mut i: usize = 0;
        while i < n
            invariant
                n == cs@.len(),
                cs@ == word@,
                i <= n,
                self.wf(),
                self.keeps_settings(old(self)),
                self.history() == old(self).history(),
                parsed_word(cs@.take(i as int)).len() <= MAX ==> self.buf@ == parsed_word(cs@.take(i as int))
                    && self.raw_input@ == raw_of_word(parsed_word(cs@.take(i as int))),
                parsed_word(cs@.take(i as int)).len() > MAX ==> self.buf@.len() == MAX,
                !self.is_english_word,
                self.last_transform is None,
            decreases n - i,
        {
            let c = cs[i];
            assert(cs@.take(i as int + 1).drop_last() =~= cs@.take(i as int));
            match chars::parse_char(c) {
                Some(p) => {
                    self.buf.push(Char { key: p.key, caps: p.caps, tone: p.tone, mark: p.mark, stroke: p.stroke });
                    self.raw_input.push(p.key, p.caps);
                },
                None => {},
            }
            i = i + 1;
        }
        assert(cs@.take(n as int) =~= word@);
        if self.raw_input.len() >= 2 {
            let dict = self.is_english_dictionary_word();
            let definite = self.has_definite_english_pattern();
            self.is_english_word = dict || definite;
        }
    }

    /// The keys of the word for the syllable check, without w and f typed right after a vowel
    /// (there they were Telex modifiers).
    fn get_buffer_keys_for_validation(&self) -> (r: Vec<u16>)
        ensures
            r@ == cleaned_keys(self.word()),
    {
        let n = self.buf.len();
        let mut out: Vec<u16> = Vec::new();
        let mut i: usize = 0;
        while i < n
            invariant
                n == self.buf@.len(),
                i <= n,
                out@ == cleaned_keys(self.buf@.take(i as int)),
            decreases n - i,
        {
            let c = self.buf.get(i).unwrap();
            let skip = (c.key == keys::W || c.key == keys::F) && i > 0
                && keys::is_vowel(self.buf.get(i - 1).unwrap().key);
            let ghost before = self.buf@.take(i as int);
            if !skip {
                out.push(c.key);
            }
            i = i + 1;
            proof {
                let s = self.buf@.take(i as int);
                assert(s.drop_last() =~= before);
                assert(s.last() == c);
                if i > 1 { assert(s[s.len() - 2] == self.buf@[i - 2]); }
            }
        }
        assert(self.buf@.take(n as int) =~= self.buf@);
        out
    }

    /// Whether a u and an o side by side both carry the horn (ươ).
    fn has_complete_uo_compound(&self) -> (r: bool)
        ensures
            r == complete_uo(self.word()),
    {
        let n = self.buf.len();
        let mut i: usize = 1;
        while i < n
            invariant
                n == self.buf@.len(),
                1 <= i,
                forall|j: int| 1 <= j < i && j < n ==> !(#[trigger] self.buf@[j].key == keys::O && self.buf@[j - 1].key == keys::U
                    && self.buf@[j].tone == chars::TONE_HORN && self.buf@[j - 1].tone == chars::TONE_HORN),
            decreases n - i,
        {
            let u = self.buf.get(i - 1).unwrap();
            let o = self.buf.get(i).unwrap();
            if u.key == keys::U && o.key == keys::O && u.tone == chars::TONE_HORN && o.tone == chars::TONE_HORN {
                return true;
            }
            i = i + 1;
        }
        false
    }

    /// Whether the word should go back to its raw keys at a space: never when a vowel carries
    /// a tone mark, nor for a complete ươ with modifiers, nor for a transformed word that is a
    /// Vietnamese syllable; otherwise when the English analysis asks for it, or the raw keys
    /// spell a dictionary word.
    pub fn should_auto_restore(&self) -> (r: bool)
        requires
            self.wf(),
        ensures
            ({
                let transformed = restore::any_transform(self.word());
                let v = result_of(keys_form_syllable(cleaned_keys(self.word()), Seq::empty()));
                let sc = layer_scores_of(self.raw());
                r == (!has_mark(self.word()) && !(complete_uo(self.word()) && transformed)
                    && !(transformed && v.is_valid)
                    && (restore_wanted(overall_confidence(sc), mask_of(sc) as u8, v, transformed) || self.dictionary_word()))
            }),
    {
        let n = self.buf.len();
        let mut i: usize = 0;
        while i < n
            invariant
                n == self.buf@.len(),
                i <= n,
                forall|j: int| 0 <= j < i ==> (#[trigger] self.buf@[j]).mark == 0,
            decreases n - i,
        {
            if self.buf.get(i).unwrap().mark > 0 {
                return false;
            }
            i = i + 1;
        }
        assert(!has_mark(self.buf@));
        let transformed = self.has_vietnamese_transforms();
        if self.has_complete_uo_compound() && transformed {
            return false;
        }
        let cleaned = self.get_buffer_keys_for_validation();
        let validation = VietnameseSyllableValidator::validate(cleaned.as_slice());
        if transformed && validation.is_valid {
            return false;
        }
        let phon = self.analyze_phonotactic_english();
        if AutoRestoreDecider::should_restore(&phon, &validation, transformed) {
            return true;
        }
        if self.is_english_dictionary_word() {
            if transformed && validation.is_valid {
                return phon.english_confidence >= 90;
            }
            return true;
        }
        false
    }

    /// Confidence (0-100) that the word should be restored: the analysis against the
    /// syllable check, raised to 100 by a dictionary match when it is under 80.
    pub fn auto_restore_confidence(&self) -> (r: u8)
        ensures
            ({
                let english = overall_confidence(layer_scores_of(self.raw()));
                let viet = result_of(keys_form_syllable(keys_of(self.word()), Seq::empty()));
                let c = confidence_for(english, viet);
                r == (if c >= 80 { c } else if english_keys(raw_keys(self.raw())) { 100 } else { c })
            }),
    {
        let phon = self.analyze_phonotactic_english();
        let validation = self.validate_vietnamese_syllable();
        let c = AutoRestoreDecider::confidence(&phon, &validation);
        if c >= 80 {
            return c;
        }
        let ks = raw_key_list(&self.raw_input);
        if Dictionary::is_english(ks.as_slice()) {
            return 100;
        }
        c
    }
}

impl Default for Engine {
    fn default() -> (r: Engine)
        ensures
            r.wf(),
            r.word() == Seq::<Char>::empty(),
            r.flags().method == METHOD_TELEX,
    {
        Engine::new()
    }
}

/// A new engine with the default settings.
pub fn init() -> (r: Engine)
    ensures
        r.wf(),
        r.word() == Seq::<Char>::empty(),
        r.raw() == Seq::<(u16, bool)>::empty(),
        r.flags().method == METHOD_TELEX,
        r.flags().enabled,
{
    Engine::new()
}

}
