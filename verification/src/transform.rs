//! Vowel modifiers (circumflex, horn, breve) and tone marks applied to text, keeping the
//! other diacritics of each character.

use vstd::prelude::*;
use crate::chars;
use crate::domain::ToneType;
use crate::keys;
use crate::syllable::Syllable;
use crate::text::{concat3, str_chars, string_of, CharSequence};
use crate::tone_positioning::{last_diacritic, mark_position, modifier_of, Modifier, Vowel};

verus! {

/// Outcome of a transformation: unchanged, or the text to write after deleting
/// `backspace_count` characters.
#[derive(Debug)]
pub struct TransformResult {
    pub modified: bool,
    pub backspace: u8,
    pub text: CharSequence,
}

impl TransformResult {
    /// No change.
    pub fn none() -> (r: TransformResult)
        ensures
            !r.modified,
            r.backspace == 0,
            r.text@ == Seq::<char>::empty(),
    {
        TransformResult { modified: false, backspace: 0, text: CharSequence::empty() }
    }

    /// Delete `backspace` characters and write `text`.
    pub fn replace(backspace: u8, text: String) -> (r: TransformResult)
        ensures
            r.modified,
            r.backspace == backspace,
            r.text@ == text@,
    {
        TransformResult { modified: true, backspace, text: CharSequence::from_string(text) }
    }

    pub fn is_modified(&self) -> (r: bool)
        ensures
            r == self.modified,
    {
        self.modified
    }

    pub fn is_none(&self) -> (r: bool)
        ensures
            r == !self.modified,
    {
        !self.modified
    }

    pub fn new_text(&self) -> (r: &CharSequence)
        ensures
            r@ == self.text@,
    {
        &self.text
    }

    pub fn backspace_count(&self) -> (r: u8)
        ensures
            r == self.backspace,
    {
        self.backspace
    }
}

/// The result spec: `None` for no change, `Some((n, text))` for a replacement.
pub open spec fn result_matches(r: TransformResult, expected: Option<(u8, Seq<char>)>) -> bool {
    match expected {
        None => !r.modified,
        Some((n, t)) => r.modified && r.backspace == n && r.text@ == t,
    }
}

/// Vowel modifiers.
#[derive(Debug, Clone, Copy, PartialEq, Eq, Structural)]
pub enum MarkType {
    /// â ê ô
    Circumflex,
    /// ơ ư
    Horn,
    /// ă
    Breve,
}

/// Tone value a modifier gives a vowel key, when it applies to it.
pub open spec fn mark_tone(mark: MarkType, key: u16) -> Option<u8> {
    match mark {
        MarkType::Circumflex => if key == keys::A || key == keys::E || key == keys::O {
            Some(chars::TONE_CIRCUMFLEX)
        } else {
            None
        },
        MarkType::Horn => if key == keys::O || key == keys::U { Some(chars::TONE_HORN) } else { None },
        MarkType::Breve => if key == keys::A { Some(chars::TONE_HORN) } else { None },
    }
}

fn map_mark_to_tone_modifier(mark: MarkType, key: u16) -> (r: Option<u8>)
    ensures
        r == mark_tone(mark, key),
{
    match mark {
        MarkType::Circumflex => if key == keys::A || key == keys::E || key == keys::O {
            Some(chars::TONE_CIRCUMFLEX)
        } else {
            None
        },
        MarkType::Horn => if key == keys::O || key == keys::U { Some(chars::TONE_HORN) } else { None },
        MarkType::Breve => if key == keys::A { Some(chars::TONE_HORN) } else { None },
    }
}

/// Text after applying a modifier at `pos`: `None` when out of range, when the character
/// does not parse, when the modifier does not apply to its key, or when it already has it.
pub open spec fn applied_mark(cs: Seq<char>, mark: MarkType, pos: int) -> Option<Seq<char>> {
    if pos < 0 || pos >= cs.len() {
        None
    } else {
        match chars::parse_spec(cs[pos]) {
            None => None,
            Some(p) => match mark_tone(mark, p.key) {
                None => None,
                Some(t) => if t == p.tone {
                    None
                } else {
                    match chars::to_char_spec(p.key, p.caps, t, p.mark) {
                        Some(c) => Some(cs.update(pos, c)),
                        None => None,
                    }
                },
            },
        }
    }
}

/// Text after removing the modifier at `pos`: `None` when out of range, when the character
/// does not parse, or when it has no modifier.
pub open spec fn removed_mark(cs: Seq<char>, pos: int) -> Option<Seq<char>> {
    if pos < 0 || pos >= cs.len() {
        None
    } else {
        match chars::parse_spec(cs[pos]) {
            None => None,
            Some(p) => if p.tone == chars::TONE_NONE {
                None
            } else {
                match chars::to_char_spec(p.key, p.caps, chars::TONE_NONE, p.mark) {
                    Some(c) => Some(cs.update(pos, c)),
                    None => None,
                }
            },
        }
    }
}

/// Replacement of the whole text by `new` (deleting every old character), if any.
pub open spec fn replacement(cs: Seq<char>, new: Option<Seq<char>>) -> Option<(u8, Seq<char>)> {
    match new {
        Some(t) => Some((cs.len() as u8, t)),
        None => None,
    }
}

fn replaced_at(cs: &[char], pos: usize, c: char) -> (r: String)
    requires
        pos < cs@.len(),
    ensures
        r@ == cs@.update(pos as int, c),
{
    let mut v: Vec<char> = Vec::new();
    let mut i: usize = 0;
    while i < cs.len()
        invariant
            i <= cs@.len(),
            pos < cs@.len(),
            v@ == cs@.update(pos as int, c).subrange(0, i as int),
        decreases cs@.len() - i,
    {
        if i == pos {
            v.push(c);
        } else {
            v.push(cs[i]);
        }
        i = i + 1;
        assert(v@ =~= cs@.update(pos as int, c).subrange(0, i as int));
    }
    assert(v@ =~= cs@.update(pos as int, c));
    string_of(v.as_slice())
}

/// Applies and removes vowel modifiers, keeping tone marks.
#[derive(Debug, Clone, Default)]
pub struct VietnameseMarkAdapter;

impl VietnameseMarkAdapter {
    pub fn new() -> (r: VietnameseMarkAdapter) {
        VietnameseMarkAdapter
    }

    /// Gives the character at `position` the modifier; the result replaces the whole text.
    pub fn apply_mark(&self, text: &CharSequence, mark: MarkType, position: usize) -> (r: TransformResult)
        ensures
            result_matches(r, replacement(text@, applied_mark(text@, mark, position as int))),
    {
        let cs = text.chars();
        if position >= cs.len() {
            return TransformResult::none();
        }
        let parsed = match chars::parse_char(cs[position]) {
            Some(p) => p,
            None => return TransformResult::none(),
        };
        let tone = match map_mark_to_tone_modifier(mark, parsed.key) {
            Some(t) => t,
            None => return TransformResult::none(),
        };
        if tone == parsed.tone {
            return TransformResult::none();
        }
        let c = match chars::to_char(parsed.key, parsed.caps, tone, parsed.mark) {
            Some(c) => c,
            None => return TransformResult::none(),
        };
        let new_text = replaced_at(cs.as_slice(), position, c);
        TransformResult::replace(text.len() as u8, new_text)
    }

    /// Takes the modifier off the character at `position`; the result replaces the whole text.
    pub fn remove_mark(&self, text: &CharSequence, position: usize) -> (r: TransformResult)
        ensures
            result_matches(r, replacement(text@, removed_mark(text@, position as int))),
    {
        let cs = text.chars();
        if position >= cs.len() {
            return TransformResult::none();
        }
        let parsed = match chars::parse_char(cs[position]) {
            Some(p) => p,
            None => return TransformResult::none(),
        };
        if parsed.tone == chars::TONE_NONE {
            return TransformResult::none();
        }
        let c = match chars::to_char(parsed.key, parsed.caps, chars::TONE_NONE, parsed.mark) {
            Some(c) => c,
            None => return TransformResult::none(),
        };
        let new_text = replaced_at(cs.as_slice(), position, c);
        TransformResult::replace(text.len() as u8, new_text)
    }
}

// ── Tone marks ───────────────────────────────────────────────────────────────

/// Where tone marks go.
#[derive(Debug, Clone, Copy, PartialEq, Eq, Structural)]
pub enum ToneStrategy {
    /// Mark on the main vowel (hoá).
    Modern,
    /// Mark on the first of two plain vowels in an open syllable (hóa).
    Traditional,
    /// The modern rule.
    Auto,
}

impl Default for ToneStrategy {
    fn default() -> (r: ToneStrategy)
        ensures
            r == ToneStrategy::Modern,
    {
        ToneStrategy::Modern
    }
}

/// Tone mark value of a tone.
pub open spec fn tone_mark(tone: ToneType) -> u8 {
    match tone {
        ToneType::Ngang => chars::MARK_NONE,
        ToneType::Sac => chars::MARK_SAC,
        ToneType::Huyen => chars::MARK_HUYEN,
        ToneType::Hoi => chars::MARK_HOI,
        ToneType::Nga => chars::MARK_NGA,
        ToneType::Nang => chars::MARK_NANG,
    }
}

fn map_tone_to_mark(tone: ToneType) -> (r: u8)
    ensures
        r == tone_mark(tone),
{
    match tone {
        ToneType::Ngang => chars::MARK_NONE,
        ToneType::Sac => chars::MARK_SAC,
        ToneType::Huyen => chars::MARK_HUYEN,
        ToneType::Hoi => chars::MARK_HOI,
        ToneType::Nga => chars::MARK_NGA,
        ToneType::Nang => chars::MARK_NANG,
    }
}

/// The characters of a vowel string that parse, as vowels at their index.
pub open spec fn vowel_list(cs: Seq<char>) -> Seq<Vowel>
    decreases cs.len(),
{
    if cs.len() == 0 {
        Seq::empty()
    } else {
        let rest = vowel_list(cs.drop_last());
        match chars::parse_spec(cs.last()) {
            Some(p) => rest.push(Vowel { key: p.key, modifier: modifier_of(p.tone), pos: (cs.len() - 1) as usize }),
            None => rest,
        }
    }
}

/// Position of the tone mark: by the placement rules, except that the traditional rule puts
/// it on the first of two plain vowels in an open syllable.
pub open spec fn tone_position(vs: Seq<Vowel>, has_final: bool, modern: bool) -> usize {
    if !modern && vs.len() == 2 && !has_final && last_diacritic(vs, 2) < 0 {
        vs[0].pos
    } else {
        mark_position(vs)
    }
}

/// Character `c` with tone mark `m`, keeping key, case and modifier (unchanged when it does
/// not parse or the result does not exist).
pub open spec fn with_tone_mark(c: char, m: u8) -> char {
    match chars::parse_spec(c) {
        Some(p) => match chars::to_char_spec(p.key, p.caps, p.tone, m) {
            Some(d) => d,
            None => c,
        },
        None => c,
    }
}

/// Mark that position `i` should carry: `m` at `pos`, none elsewhere.
pub open spec fn mark_for(i: int, pos: int, m: u8) -> u8 {
    if i == pos { m } else { chars::MARK_NONE }
}

/// Vowel string with mark `m` at `pos` and no mark elsewhere.
pub open spec fn remarked(cs: Seq<char>, pos: int, m: u8) -> Seq<char> {
    Seq::new(cs.len(), |i: int| with_tone_mark(cs[i], mark_for(i, pos, m)))
}

/// Some character that parses would change its mark.
pub open spec fn marks_change(cs: Seq<char>, pos: int, m: u8) -> bool {
    exists|i: int| 0 <= i < cs.len() && #[trigger] chars::parse_spec(cs[i]) is Some
        && chars::parse_spec(cs[i]).unwrap().mark != mark_for(i, pos, m)
}

/// The syllable with its vowel string re-marked, or `None` when no mark changes; the
/// replacement deletes the whole syllable.
pub open spec fn remarked_syllable(s: &Syllable, pos: int, m: u8) -> Option<(u8, Seq<char>)> {
    if marks_change(s.vowel_spec(), pos, m) {
        Some((
            (s.initial_spec() + s.vowel_spec() + s.final_spec()).len() as u8,
            s.initial_spec() + remarked(s.vowel_spec(), pos, m) + s.final_spec(),
        ))
    } else {
        None
    }
}

/// Applying a tone: `None` without a vowel; otherwise the vowel string re-marked with the
/// tone at its position.
pub open spec fn applied_tone(s: &Syllable, strategy: ToneStrategy, tone: ToneType) -> Option<(u8, Seq<char>)> {
    let vs = vowel_list(s.vowel_spec());
    if vs.len() == 0 {
        None
    } else {
        let pos = tone_position(vs, s.final_spec().len() > 0, strategy != ToneStrategy::Traditional);
        remarked_syllable(s, pos as int, tone_mark(tone))
    }
}

fn build_vowel_list(cs: &[char]) -> (r: Vec<Vowel>)
    ensures
        r@ == vowel_list(cs@),
{
    let mut out: Vec<Vowel> = Vec::new();
    let mut i: usize = 0;
    while i < cs.len()
        invariant
            i <= cs@.len(),
            out@ == vowel_list(cs@.subrange(0, i as int)),
        decreases cs@.len() - i,
    {
        assert(cs@.subrange(0, i + 1).drop_last() =~= cs@.subrange(0, i as int));
        match chars::parse_char(cs[i]) {
            Some(p) => {
                let modifier = if p.tone == chars::TONE_CIRCUMFLEX {
                    Modifier::Circumflex
                } else if p.tone == chars::TONE_HORN {
                    Modifier::Horn
                } else {
                    Modifier::Plain
                };
                out.push(Vowel { key: p.key, modifier, pos: i });
            },
            None => {},
        }
        i = i + 1;
    }
    assert(cs@.subrange(0, cs@.len() as int) =~= cs@);
    out
}

/// Re-marks the vowel string: mark `m` at `pos` (`pos` past the end for none); returns the
/// new string and whether any mark changed.
fn remark(cs: &[char], pos: usize, m: u8) -> (r: (Vec<char>, bool))
    ensures
        r.0@ == remarked(cs@, pos as int, m),
        r.1 == marks_change(cs@, pos as int, m),
{
    let mut out: Vec<char> = Vec::new();
    let mut changed = false;
    let mut i: usize = 0;
    while i < cs.len()
        invariant
            i <= cs@.len(),
            out@.len() == i,
            forall|j: int| 0 <= j < i ==> out@[j] == with_tone_mark(cs@[j], mark_for(j, pos as int, m)),
            changed == (exists|j: int| 0 <= j < i && #[trigger] chars::parse_spec(cs@[j]) is Some
                && chars::parse_spec(cs@[j]).unwrap().mark != mark_for(j, pos as int, m)),
        decreases cs@.len() - i,
    {
        let c = cs[i];
        let want = if i == pos { m } else { chars::MARK_NONE };
        match chars::parse_char(c) {
            Some(p) => {
                if want != p.mark {
                    changed = true;
                }
                match chars::to_char(p.key, p.caps, p.tone, want) {
                    Some(d) => out.push(d),
                    None => out.push(c),
                }
            },
            None => out.push(c),
        }
        i = i + 1;
    }
    assert(out@ =~= remarked(cs@, pos as int, m));
    (out, changed)
}

/// Places and removes tone marks on syllables.
#[derive(Debug, Clone)]
pub struct VietnameseToneAdapter {
    strategy: ToneStrategy,
}

impl VietnameseToneAdapter {
    pub fn new(strategy: ToneStrategy) -> (r: VietnameseToneAdapter)
        ensures
            r.strategy_spec() == strategy,
    {
        VietnameseToneAdapter { strategy }
    }

    pub closed spec fn strategy_spec(&self) -> ToneStrategy {
        self.strategy
    }

    pub fn strategy(&self) -> (r: ToneStrategy)
        ensures
            r == self.strategy_spec(),
    {
        self.strategy
    }

    fn rebuild(syllable: &Syllable, pos: usize, m: u8) -> (r: TransformResult)
        ensures
            result_matches(r, remarked_syllable(syllable, pos as int, m)),
    {
        let initial = syllable.initial().as_str();
        let vowel = syllable.vowel().as_str();
        let fin = syllable.final_consonant().as_str();
        let cs = str_chars(vowel);
        let (new_vowel, changed) = remark(cs.as_slice(), pos, m);
        if !changed {
            return TransformResult::none();
        }
        let nv = string_of(new_vowel.as_slice());
        let new_text = concat3(initial, nv.as_str(), fin);
        let before = concat3(initial, vowel, fin);
        let count = before.as_str().unicode_len();
        TransformResult::replace(count as u8, new_text)
    }

    /// Puts the tone's mark on the vowel the placement rules choose and clears the others.
    pub fn apply_tone(&self, syllable: &Syllable, tone: ToneType) -> (r: TransformResult)
        ensures
            result_matches(r, applied_tone(syllable, self.strategy_spec(), tone)),
    {
        self.transform_syllable(syllable, tone)
    }

    /// Clears every tone mark of the vowel string, keeping modifiers.
    pub fn remove_tone(&self, syllable: &Syllable) -> (r: TransformResult)
        ensures
            result_matches(r, remarked_syllable(syllable, -1, chars::MARK_NONE)),
    {
        self.clear_tone(syllable)
    }

    fn transform_syllable(&self, syllable: &Syllable, tone: ToneType) -> (r: TransformResult)
        ensures
            result_matches(r, applied_tone(syllable, self.strategy_spec(), tone)),
    {
        let cs = str_chars(syllable.vowel().as_str());
        let vowels = build_vowel_list(cs.as_slice());
        if vowels.len() == 0 {
            return TransformResult::none();
        }
        let has_final = !syllable.final_consonant().is_empty();
        let modern = match self.strategy {
            ToneStrategy::Traditional => false,
            _ => true,
        };
        let pos = if !modern && vowels.len() == 2 && !has_final
            && !crate::tone_positioning::is_diacritic_vowel(vowels[0].key, &vowels[0].modifier)
            && !crate::tone_positioning::is_diacritic_vowel(vowels[1].key, &vowels[1].modifier) {
            vowels[0].pos
        } else {
            crate::tone_positioning::find_mark_position(vowels.as_slice(), has_final)
        };
        proof {
            reveal_with_fuel(last_diacritic, 3);
            assert(pos == tone_position(vowels@, has_final, modern));
        }
        Self::rebuild(syllable, pos, map_tone_to_mark(tone))
    }

    fn clear_tone(&self, syllable: &Syllable) -> (r: TransformResult)
        ensures
            result_matches(r, remarked_syllable(syllable, -1, chars::MARK_NONE)),
    {
        let n = syllable.vowel().len();
        let r = Self::rebuild(syllable, n, chars::MARK_NONE);
        proof {
            assert(remarked(syllable.vowel_spec(), n as int, chars::MARK_NONE)
                =~= remarked(syllable.vowel_spec(), -1, chars::MARK_NONE));
            assert(marks_change(syllable.vowel_spec(), n as int, chars::MARK_NONE)
                == marks_change(syllable.vowel_spec(), -1, chars::MARK_NONE)) by {
                if marks_change(syllable.vowel_spec(), n as int, chars::MARK_NONE) {
                    let i = choose|i: int| 0 <= i < syllable.vowel_spec().len()
                        && #[trigger] chars::parse_spec(syllable.vowel_spec()[i]) is Some
                        && chars::parse_spec(syllable.vowel_spec()[i]).unwrap().mark
                            != mark_for(i, n as int, chars::MARK_NONE);
                    assert(mark_for(i, -1, chars::MARK_NONE) == chars::MARK_NONE);
                }
                if marks_change(syllable.vowel_spec(), -1, chars::MARK_NONE) {
                    let i = choose|i: int| 0 <= i < syllable.vowel_spec().len()
                        && #[trigger] chars::parse_spec(syllable.vowel_spec()[i]) is Some
                        && chars::parse_spec(syllable.vowel_spec()[i]).unwrap().mark
                            != mark_for(i, -1, chars::MARK_NONE);
                    assert(mark_for(i, n as int, chars::MARK_NONE) == chars::MARK_NONE);
                }
            }
        }
        r
    }
}

impl Default for VietnameseToneAdapter {
    fn default() -> (r: VietnameseToneAdapter)
        ensures
            r.strategy_spec() == ToneStrategy::Modern,
    {
        VietnameseToneAdapter::new(ToneStrategy::Modern)
    }
}

// ── Laws ─────────────────────────────────────────────────────────────────────

/// A modifier changes only the modifier: the new character has the old key, case and tone
/// mark, and the modifier that was asked for.
pub proof fn lemma_apply_mark_keeps_tone_mark(cs: Seq<char>, mark: MarkType, pos: int)
    requires
        applied_mark(cs, mark, pos) is Some,
    ensures
        ({
            let p = chars::parse_spec(cs[pos]).unwrap();
            chars::parse_spec(applied_mark(cs, mark, pos).unwrap()[pos]) == Some(chars::CharInfo {
                key: p.key,
                caps: p.caps,
                tone: mark_tone(mark, p.key).unwrap(),
                mark: p.mark,
                stroke: false,
            })
        }),
        applied_mark(cs, mark, pos).unwrap().len() == cs.len(),
        forall|i: int| 0 <= i < cs.len() && i != pos ==> applied_mark(cs, mark, pos).unwrap()[i] == cs[i],
{
    let p = chars::parse_spec(cs[pos]).unwrap();
    chars::lemma_render_parse(p.key, p.caps, mark_tone(mark, p.key).unwrap(), p.mark);
}

/// Removing a modifier undoes adding it to a character that had none.
pub proof fn lemma_remove_undoes_apply(cs: Seq<char>, mark: MarkType, pos: int)
    requires
        applied_mark(cs, mark, pos) is Some,
        chars::parse_spec(cs[pos]).unwrap().tone == chars::TONE_NONE,
        !chars::parse_spec(cs[pos]).unwrap().stroke,
    ensures
        removed_mark(applied_mark(cs, mark, pos).unwrap(), pos) == Some(cs),
{
    let p = chars::parse_spec(cs[pos]).unwrap();
    let t = applied_mark(cs, mark, pos).unwrap();
    lemma_apply_mark_keeps_tone_mark(cs, mark, pos);
    chars::lemma_parse_render(cs[pos]);
    assert(chars::to_char_spec(p.key, p.caps, chars::TONE_NONE, p.mark) == Some(cs[pos]));
    assert(t.update(pos, cs[pos]) =~= cs);
}

/// Re-marking keeps each character's key, case and modifier and gives it the mark it should
/// carry, wherever such a character exists.
pub proof fn lemma_remark_places_marks(cs: Seq<char>, pos: int, m: u8, i: int)
    requires
        0 <= i < cs.len(),
        chars::parse_spec(cs[i]) is Some,
        ({
            let p = chars::parse_spec(cs[i]).unwrap();
            chars::to_char_spec(p.key, p.caps, p.tone, mark_for(i, pos, m)) is Some
        }),
    ensures
        ({
            let p = chars::parse_spec(cs[i]).unwrap();
            chars::parse_spec(remarked(cs, pos, m)[i]) == Some(chars::CharInfo {
                key: p.key,
                caps: p.caps,
                tone: p.tone,
                mark: mark_for(i, pos, m),
                stroke: false,
            })
        }),
{
    let p = chars::parse_spec(cs[i]).unwrap();
    chars::lemma_render_parse(p.key, p.caps, p.tone, mark_for(i, pos, m));
}

/// Re-marking twice changes nothing the second time, when every character that parses can
/// carry the mark it should.
pub proof fn lemma_remark_settles(cs: Seq<char>, pos: int, m: u8)
    requires
        forall|i: int| 0 <= i < cs.len() && (#[trigger] chars::parse_spec(cs[i])) is Some ==>
            chars::to_char_spec(chars::parse_spec(cs[i]).unwrap().key, chars::parse_spec(cs[i]).unwrap().caps,
                chars::parse_spec(cs[i]).unwrap().tone, mark_for(i, pos, m)) is Some,
    ensures
        !marks_change(remarked(cs, pos, m), pos, m),
        remarked(remarked(cs, pos, m), pos, m) == remarked(cs, pos, m),
{
    let r = remarked(cs, pos, m);
    assert forall|i: int| 0 <= i < r.len() && #[trigger] chars::parse_spec(r[i]) is Some implies
        chars::parse_spec(r[i]).unwrap().mark == mark_for(i, pos, m)
        && with_tone_mark(r[i], mark_for(i, pos, m)) == r[i] by {
        if chars::parse_spec(cs[i]) is Some {
            lemma_remark_places_marks(cs, pos, m, i);
            let p = chars::parse_spec(cs[i]).unwrap();
            chars::lemma_parse_render(r[i]);
        }
    }
    assert(remarked(r, pos, m) =~= r);
}

/// A vowel letter, with or without a modifier or a tone mark.
pub open spec fn is_vowel_char(c: char) -> bool {
    chars::parse_spec(c) is Some
        && chars::row_of(chars::parse_spec(c).unwrap().key, chars::parse_spec(c).unwrap().tone) is Some
}

proof fn lemma_vowel_list_all(cs: Seq<char>)
    requires
        cs.len() <= usize::MAX,
        forall|i: int| 0 <= i < cs.len() ==> #[trigger] is_vowel_char(cs[i]),
    ensures
        vowel_list(cs).len() == cs.len(),
        forall|k: int| 0 <= k < cs.len() ==> (#[trigger] vowel_list(cs)[k]).pos == k,
    decreases cs.len(),
{
    if cs.len() > 0 {
        let t = cs.drop_last();
        assert forall|i: int| 0 <= i < t.len() implies #[trigger] is_vowel_char(t[i]) by {
            assert(t[i] == cs[i]);
        }
        lemma_vowel_list_all(t);
        assert(is_vowel_char(cs[cs.len() - 1]));
        let p = chars::parse_spec(cs.last()).unwrap();
        assert(vowel_list(cs) == vowel_list(t).push(
            Vowel { key: p.key, modifier: modifier_of(p.tone), pos: (cs.len() - 1) as usize }));
        assert forall|k: int| 0 <= k < cs.len() implies (#[trigger] vowel_list(cs)[k]).pos == k by {
            if k < t.len() {
                assert(vowel_list(cs)[k] == vowel_list(t)[k]);
            } else {
                assert(k == cs.len() - 1);
            }
        }
    }
}

proof fn lemma_tone_position_in_range(vs: Seq<Vowel>, has_final: bool, modern: bool)
    requires
        vs.len() > 0,
    ensures
        exists|k: int| 0 <= k < vs.len() && (#[trigger] vs[k]).pos == tone_position(vs, has_final, modern),
{
    crate::tone_positioning::lemma_last_diacritic(vs, vs.len() as int);
    let n = vs.len() as int;
    if !modern && vs.len() == 2 && !has_final && last_diacritic(vs, 2) < 0 {
        assert(vs[0].pos == tone_position(vs, has_final, modern));
    } else if n == 1 {
        assert(vs[0].pos == tone_position(vs, has_final, modern));
    } else if last_diacritic(vs, n) >= 0 {
        if n == 3 && crate::tone_positioning::is_diacritic(vs[1].key, vs[1].modifier) {
            assert(vs[1].pos == tone_position(vs, has_final, modern));
        } else {
            let d = last_diacritic(vs, n);
            assert(vs[d].pos == tone_position(vs, has_final, modern));
        }
    } else {
        assert(vs[n / 2].pos == tone_position(vs, has_final, modern));
    }
}

/// Applying a tone writes that tone's own mark: when `apply_tone` changes a syllable whose
/// vowel string holds vowels only, the initial and the final stay, every vowel keeps its
/// letter, case and modifier, and one vowel carries the mark read back from the text that
/// belongs to the tone (sắc for Sac, huyền for Huyen, hỏi for Hoi, ngã for Nga, nặng for Nang,
/// none for Ngang) while every other vowel carries none.
#[verifier::spinoff_prover]
#[verifier::rlimit(40)]
pub proof fn lemma_apply_tone_writes_its_mark(a: &VietnameseToneAdapter, s: &Syllable, tone: ToneType,
    r: TransformResult)
    requires
        result_matches(r, applied_tone(s, a.strategy_spec(), tone)),
        r.modified,
        s.vowel_spec().len() <= usize::MAX,
        forall|i: int| 0 <= i < s.vowel_spec().len() ==> #[trigger] is_vowel_char(s.vowel_spec()[i]),
    ensures
        ({
            let il = s.initial_spec().len() as int;
            let v = s.vowel_spec();
            let v2 = r.text@.subrange(il, il + v.len());
            &&& r.text@ == s.initial_spec() + v2 + s.final_spec()
            &&& forall|i: int| 0 <= i < v.len() ==> {
                &&& #[trigger] chars::parse_spec(v2[i]) is Some
                &&& chars::parse_spec(v2[i]).unwrap().key == chars::parse_spec(v[i]).unwrap().key
                &&& chars::parse_spec(v2[i]).unwrap().caps == chars::parse_spec(v[i]).unwrap().caps
                &&& chars::parse_spec(v2[i]).unwrap().tone == chars::parse_spec(v[i]).unwrap().tone
            }
            &&& exists|j: int| 0 <= j < v.len() && {
                let mj = chars::parse_spec(#[trigger] v2[j]).unwrap().mark;
                &&& forall|i: int| 0 <= i < v.len() && i != j ==> chars::parse_spec(v2[i]).unwrap().mark == chars::MARK_NONE
                &&& tone == ToneType::Ngang ==> mj == chars::MARK_NONE
                &&& tone == ToneType::Sac ==> mj == chars::MARK_SAC
                &&& tone == ToneType::Huyen ==> mj == chars::MARK_HUYEN
                &&& tone == ToneType::Hoi ==> mj == chars::MARK_HOI
                &&& tone == ToneType::Nga ==> mj == chars::MARK_NGA
                &&& tone == ToneType::Nang ==> mj == chars::MARK_NANG
            }
        }),
{
    let v = s.vowel_spec();
    let il = s.initial_spec().len() as int;
    let vs = vowel_list(v);
    lemma_vowel_list_all(v);
    let has_final = s.final_spec().len() > 0;
    let modern = a.strategy_spec() != ToneStrategy::Traditional;
    let pos = tone_position(vs, has_final, modern) as int;
    lemma_tone_position_in_range(vs, has_final, modern);
    let k = choose|k: int| 0 <= k < vs.len() && (#[trigger] vs[k]).pos == tone_position(vs, has_final, modern);
    assert(pos == k);
    let m = tone_mark(tone);
    let v2 = remarked(v, pos, m);
    assert(r.text@ == s.initial_spec() + v2 + s.final_spec());
    assert(r.text@.subrange(il, il + v.len()) =~= v2);
    assert forall|i: int| 0 <= i < v.len() implies {
        &&& #[trigger] chars::parse_spec(v2[i]) is Some
        &&& chars::parse_spec(v2[i]).unwrap() == chars::CharInfo {
            mark: mark_for(i, pos, m), ..chars::parse_spec(v[i]).unwrap() }
    } by {
        assert(is_vowel_char(v[i]));
        let p = chars::parse_spec(v[i]).unwrap();
        assert(!p.stroke) by { chars::lemma_parse_render(v[i]); }
        chars::lemma_render_parse(p.key, p.caps, p.tone, mark_for(i, pos, m));
    }
    assert(chars::parse_spec(v2[pos]) is Some);
}

/// Removing the tone leaves no mark: when `remove_tone` changes a syllable whose vowel string
/// holds vowels only, the initial and the final stay and every vowel keeps its letter, case and
/// modifier and carries no mark.
pub proof fn lemma_remove_tone_clears_marks(s: &Syllable, r: TransformResult)
    requires
        result_matches(r, remarked_syllable(s, -1, chars::MARK_NONE)),
        r.modified,
        forall|i: int| 0 <= i < s.vowel_spec().len() ==> #[trigger] is_vowel_char(s.vowel_spec()[i]),
    ensures
        ({
            let il = s.initial_spec().len() as int;
            let v = s.vowel_spec();
            let v2 = r.text@.subrange(il, il + v.len());
            &&& r.text@ == s.initial_spec() + v2 + s.final_spec()
            &&& forall|i: int| 0 <= i < v.len() ==> {
                &&& #[trigger] chars::parse_spec(v2[i]) is Some
                &&& chars::parse_spec(v2[i]).unwrap().key == chars::parse_spec(v[i]).unwrap().key
                &&& chars::parse_spec(v2[i]).unwrap().caps == chars::parse_spec(v[i]).unwrap().caps
                &&& chars::parse_spec(v2[i]).unwrap().tone == chars::parse_spec(v[i]).unwrap().tone
                &&& chars::parse_spec(v2[i]).unwrap().mark == chars::MARK_NONE
            }
        }),
{
    let v = s.vowel_spec();
    let il = s.initial_spec().len() as int;
    let v2 = remarked(v, -1, chars::MARK_NONE);
    assert(r.text@.subrange(il, il + v.len()) =~= v2);
    assert forall|i: int| 0 <= i < v.len() implies {
        &&& #[trigger] chars::parse_spec(v2[i]) is Some
        &&& chars::parse_spec(v2[i]).unwrap() == chars::CharInfo {
            mark: chars::MARK_NONE, ..chars::parse_spec(v[i]).unwrap() }
    } by {
        assert(is_vowel_char(v[i]));
        let p = chars::parse_spec(v[i]).unwrap();
        assert(!p.stroke) by { chars::lemma_parse_render(v[i]); }
        chars::lemma_render_parse(p.key, p.caps, p.tone, chars::MARK_NONE);
    }
}

proof fn lemma_last_diacritic_at_least(vs: Seq<Vowel>, n: int, j: int)
    requires
        0 <= j < n <= vs.len(),
        crate::tone_positioning::is_diacritic(vs[j].key, vs[j].modifier),
    ensures
        last_diacritic(vs, n) >= j,
    decreases n,
{
    if n - 1 > j {
        lemma_last_diacritic_at_least(vs, n - 1, j);
    }
}

/// The mark goes on the vowel with a diacritic: when exactly one vowel of the string carries
/// one (â ă ê ô ơ ư), applying a tone other than Ngang marks that vowel and no other.
#[verifier::spinoff_prover]
#[verifier::rlimit(40)]
pub proof fn lemma_apply_tone_on_diacritic_vowel(a: &VietnameseToneAdapter, s: &Syllable, tone: ToneType,
    r: TransformResult, j: int)
    requires
        result_matches(r, applied_tone(s, a.strategy_spec(), tone)),
        r.modified,
        tone != ToneType::Ngang,
        s.vowel_spec().len() <= usize::MAX,
        forall|i: int| 0 <= i < s.vowel_spec().len() ==> #[trigger] is_vowel_char(s.vowel_spec()[i]),
        0 <= j < s.vowel_spec().len(),
        chars::parse_spec(s.vowel_spec()[j]).unwrap().tone != chars::TONE_NONE,
        forall|i: int| 0 <= i < s.vowel_spec().len() && i != j
            ==> (#[trigger] chars::parse_spec(s.vowel_spec()[i])).unwrap().tone == chars::TONE_NONE,
    ensures
        chars::parse_spec(r.text@[s.initial_spec().len() + j]).unwrap().mark != chars::MARK_NONE,
        forall|i: int| 0 <= i < s.vowel_spec().len() && i != j
            ==> (#[trigger] chars::parse_spec(r.text@[s.initial_spec().len() + i])).unwrap().mark == chars::MARK_NONE,
{
    let v = s.vowel_spec();
    let il = s.initial_spec().len() as int;
    let has_final = s.final_spec().len() > 0;
    let modern = a.strategy_spec() != ToneStrategy::Traditional;
    lemma_diacritic_position(v, has_final, modern, j);
    let pos = j;
    let m = tone_mark(tone);
    let v2 = remarked(v, pos, m);
    assert(r.text@ == s.initial_spec() + v2 + s.final_spec());
    assert forall|i: int| 0 <= i < v.len() implies
        (#[trigger] chars::parse_spec(r.text@[il + i])).unwrap().mark == mark_for(i, pos, m) by {
        assert(r.text@[il + i] == v2[i]);
        assert(is_vowel_char(v[i]));
        let p = chars::parse_spec(v[i]).unwrap();
        assert(!p.stroke) by { chars::lemma_parse_render(v[i]); }
        chars::lemma_render_parse(p.key, p.caps, p.tone, mark_for(i, pos, m));
    }
    assert(chars::parse_spec(r.text@[il + j]).unwrap().mark == m);
}

proof fn lemma_vowel_list_item(cs: Seq<char>, i: int)
    requires
        cs.len() <= usize::MAX,
        forall|k: int| 0 <= k < cs.len() ==> #[trigger] is_vowel_char(cs[k]),
        0 <= i < cs.len(),
    ensures
        vowel_list(cs)[i].key == chars::parse_spec(cs[i]).unwrap().key,
        vowel_list(cs)[i].modifier == modifier_of(chars::parse_spec(cs[i]).unwrap().tone),
    decreases cs.len(),
{
    let t = cs.drop_last();
    assert forall|k: int| 0 <= k < t.len() implies #[trigger] is_vowel_char(t[k]) by {
        assert(t[k] == cs[k]);
    }
    lemma_vowel_list_all(t);
    assert(is_vowel_char(cs[cs.len() - 1]));
    if i < t.len() {
        lemma_vowel_list_item(t, i);
        assert(vowel_list(cs)[i] == vowel_list(t)[i]);
        assert(t[i] == cs[i]);
    }
}

/// The vowel letters with a modifier are exactly those with a diacritic.
proof fn lemma_modifier_diacritic(key: u16, tone: u8)
    requires
        chars::row_of(key, tone) is Some,
    ensures
        crate::tone_positioning::is_diacritic(key, modifier_of(tone)) <==> tone != chars::TONE_NONE,
{
}

proof fn lemma_diacritic_position(v: Seq<char>, has_final: bool, modern: bool, j: int)
    requires
        v.len() <= usize::MAX,
        forall|i: int| 0 <= i < v.len() ==> #[trigger] is_vowel_char(v[i]),
        0 <= j < v.len(),
        chars::parse_spec(v[j]).unwrap().tone != chars::TONE_NONE,
        forall|i: int| 0 <= i < v.len() && i != j
            ==> (#[trigger] chars::parse_spec(v[i])).unwrap().tone == chars::TONE_NONE,
    ensures
        tone_position(vowel_list(v), has_final, modern) == j,
{
    let vs = vowel_list(v);
    lemma_vowel_list_all(v);
    let n = vs.len() as int;
    assert forall|i: int| 0 <= i < n implies
        crate::tone_positioning::is_diacritic(#[trigger] vs[i].key, vs[i].modifier) <==> i == j by {
        lemma_vowel_list_item(v, i);
        assert(is_vowel_char(v[i]));
        lemma_modifier_diacritic(chars::parse_spec(v[i]).unwrap().key, chars::parse_spec(v[i]).unwrap().tone);
    }
    crate::tone_positioning::lemma_last_diacritic(vs, n);
    lemma_last_diacritic_at_least(vs, n, j);
    assert(vs[j].pos == j);
}

proof fn lemma_open_pair_position(v: Seq<char>, modern: bool)
    requires
        v.len() == 2,
        is_vowel_char(v[0]) && is_vowel_char(v[1]),
        chars::parse_spec(v[0]).unwrap().tone == chars::TONE_NONE,
        chars::parse_spec(v[1]).unwrap().tone == chars::TONE_NONE,
    ensures
        tone_position(vowel_list(v), false, modern) == (if modern { 1int } else { 0int }),
{
    let vs = vowel_list(v);
    lemma_vowel_list_all(v);
    lemma_vowel_list_item(v, 0);
    lemma_vowel_list_item(v, 1);
    lemma_modifier_diacritic(chars::parse_spec(v[0]).unwrap().key, chars::parse_spec(v[0]).unwrap().tone);
    lemma_modifier_diacritic(chars::parse_spec(v[1]).unwrap().key, chars::parse_spec(v[1]).unwrap().tone);
    reveal_with_fuel(last_diacritic, 3);
}

/// Two plain vowels in an open syllable (hoa, khoe, thuy): the traditional placement marks the
/// first (hòa), the modern one the second (hoà); the other stays unmarked.
#[verifier::spinoff_prover]
#[verifier::rlimit(40)]
pub proof fn lemma_apply_tone_open_pair(a: &VietnameseToneAdapter, s: &Syllable, tone: ToneType, r: TransformResult)
    requires
        result_matches(r, applied_tone(s, a.strategy_spec(), tone)),
        r.modified,
        tone != ToneType::Ngang,
        s.vowel_spec().len() == 2,
        s.final_spec().len() == 0,
        is_vowel_char(s.vowel_spec()[0]) && is_vowel_char(s.vowel_spec()[1]),
        chars::parse_spec(s.vowel_spec()[0]).unwrap().tone == chars::TONE_NONE,
        chars::parse_spec(s.vowel_spec()[1]).unwrap().tone == chars::TONE_NONE,
    ensures
        ({
            let il = s.initial_spec().len() as int;
            let marked = if a.strategy_spec() == ToneStrategy::Traditional { 0int } else { 1int };
            &&& chars::parse_spec(r.text@[il + marked]).unwrap().mark != chars::MARK_NONE
            &&& chars::parse_spec(r.text@[il + 1 - marked]).unwrap().mark == chars::MARK_NONE
        }),
{
    let v = s.vowel_spec();
    let il = s.initial_spec().len() as int;
    let modern = a.strategy_spec() != ToneStrategy::Traditional;
    lemma_open_pair_position(v, modern);
    let pos: int = if modern { 1 } else { 0 };
    let m = tone_mark(tone);
    let v2 = remarked(v, pos, m);
    assert(r.text@ == s.initial_spec() + v2 + s.final_spec());
    assert forall|i: int| 0 <= i < 2 implies
        (#[trigger] chars::parse_spec(r.text@[il + i])).unwrap().mark == mark_for(i, pos, m) by {
        assert(r.text@[il + i] == v2[i]);
        let p = chars::parse_spec(v[i]).unwrap();
        assert(!p.stroke) by { chars::lemma_parse_render(v[i]); }
        chars::lemma_render_parse(p.key, p.caps, p.tone, mark_for(i, pos, m));
    }
    assert(chars::parse_spec(r.text@[il + pos]).unwrap().mark == m);
    if modern {
        assert(chars::parse_spec(r.text@[il + 0]).unwrap().mark == chars::MARK_NONE);
    } else {
        assert(chars::parse_spec(r.text@[il + 1]).unwrap().mark == chars::MARK_NONE);
    }
}

} // verus!
