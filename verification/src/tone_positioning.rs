//! Where the tone mark of a syllable goes: on the vowel with a modifier (â ê ô ơ ư ă) when
//! there is one, otherwise on the second vowel; and moving a mark there after the vowels
//! change.

use vstd::prelude::*;
use crate::buffer::{Buffer, Char};
use crate::chars;
use crate::keys;

verus! {

/// Tone modifier of a vowel.
#[derive(Debug, Clone, Copy, PartialEq, Eq, Structural)]
pub enum Modifier {
    Plain,
    /// â ê ô
    Circumflex,
    /// ơ ư, and the breve of ă
    Horn,
}

/// A vowel of the buffer: base key, modifier and position.
#[derive(Debug, Clone, Copy, PartialEq, Eq, Structural)]
pub struct Vowel {
    pub key: u16,
    pub modifier: Modifier,
    pub pos: usize,
}

impl Vowel {
    pub fn new(key: u16, modifier: Modifier, pos: usize) -> (r: Vowel)
        ensures
            r == (Vowel { key, modifier, pos }),
    {
        Vowel { key, modifier, pos }
    }
}

/// The vowel carries a diacritic: â ê ô (circumflex) or ă ơ ư (horn / breve).
pub open spec fn is_diacritic(key: u16, modifier: Modifier) -> bool {
    match modifier {
        Modifier::Plain => false,
        Modifier::Circumflex => key == keys::A || key == keys::E || key == keys::O,
        Modifier::Horn => key == keys::A || key == keys::O || key == keys::U,
    }
}

/// Whether a vowel with this key and modifier carries a diacritic.
pub fn is_diacritic_vowel(key: u16, modifier: &Modifier) -> (r: bool)
    ensures
        r == is_diacritic(key, *modifier),
{
    match modifier {
        Modifier::Plain => false,
        Modifier::Circumflex => key == keys::A || key == keys::E || key == keys::O,
        Modifier::Horn => key == keys::A || key == keys::O || key == keys::U,
    }
}

/// Index of the last vowel among the first `n` that carries a diacritic, or -1.
pub open spec fn last_diacritic(vs: Seq<Vowel>, n: int) -> int
    decreases n,
{
    if n <= 0 {
        -1
    } else if is_diacritic(vs[n - 1].key, vs[n - 1].modifier) {
        n - 1
    } else {
        last_diacritic(vs, n - 1)
    }
}

/// Position of the tone mark for a vowel cluster. One vowel takes it. With diacritics, the
/// middle vowel of three takes it when it has one, otherwise the last vowel with one does.
/// Without diacritics the vowel at index `len / 2` takes it: the second of two or three.
pub open spec fn mark_position(vs: Seq<Vowel>) -> usize {
    let n = vs.len() as int;
    if n == 0 {
        0
    } else if n == 1 {
        vs[0].pos
    } else if last_diacritic(vs, n) >= 0 {
        if n == 3 && is_diacritic(vs[1].key, vs[1].modifier) {
            vs[1].pos
        } else {
            vs[last_diacritic(vs, n)].pos
        }
    } else {
        vs[n / 2].pos
    }
}

pub proof fn lemma_last_diacritic(vs: Seq<Vowel>, n: int)
    requires
        0 <= n <= vs.len(),
    ensures
        -1 <= last_diacritic(vs, n) < n,
        last_diacritic(vs, n) >= 0 ==> is_diacritic(vs[last_diacritic(vs, n)].key, vs[last_diacritic(vs, n)].modifier),
    decreases n,
{
    if n > 0 {
        lemma_last_diacritic(vs, n - 1);
    }
}

/// Buffer position where the tone mark goes in a vowel cluster.
pub fn find_mark_position(vowels: &[Vowel], has_final_consonant: bool) -> (r: usize)
    ensures
        r == mark_position(vowels@),
{
    let n = vowels.len();
    if n == 0 {
        return 0;
    }
    if n == 1 {
        return vowels[0].pos;
    }
    let mut last: Option<usize> = None;
    let mut middle = false;
    let mut i: usize = 0;
    while i < n
        invariant
            n == vowels@.len(),
            i <= n,
            last == (if last_diacritic(vowels@, i as int) >= 0 {
                Some(last_diacritic(vowels@, i as int) as usize)
            } else {
                None::<usize>
            }),
            middle == (n == 3 && i > 1 && is_diacritic(vowels@[1].key, vowels@[1].modifier)),
        decreases n - i,
    {
        proof {
            lemma_last_diacritic(vowels@, i as int);
        }
        if is_diacritic_vowel(vowels[i].key, &vowels[i].modifier) {
            last = Some(i);
            if n == 3 && i == 1 {
                middle = true;
            }
        }
        i = i + 1;
    }
    proof {
        lemma_last_diacritic(vowels@, n as int);
    }
    if let Some(idx) = last {
        if n == 3 && middle {
            return vowels[1].pos;
        }
        return vowels[idx].pos;
    }
    vowels[n / 2].pos
}

/// Modifier of a tone value.
pub open spec fn modifier_of(tone: u8) -> Modifier {
    if tone == chars::TONE_CIRCUMFLEX {
        Modifier::Circumflex
    } else if tone == chars::TONE_HORN {
        Modifier::Horn
    } else {
        Modifier::Plain
    }
}

/// The vowels of the buffer, in order, with their positions.
pub open spec fn vowels_of(s: Seq<Char>) -> Seq<Vowel>
    decreases s.len(),
{
    if s.len() == 0 {
        Seq::empty()
    } else {
        let rest = vowels_of(s.drop_last());
        let c = s.last();
        if keys::is_vowel_key(c.key) {
            rest.push(Vowel { key: c.key, modifier: modifier_of(c.tone), pos: (s.len() - 1) as usize })
        } else {
            rest
        }
    }
}

/// Some consonant stands after position `pos`.
pub open spec fn final_consonant_after(s: Seq<Char>, pos: int) -> bool {
    exists|j: int| pos < j < s.len() && !keys::is_vowel_key(#[trigger] s[j].key)
}

/// Index of the first character with a tone mark at or after `i`, or the length.
pub open spec fn first_mark_from(s: Seq<Char>, i: int) -> int
    decreases s.len() - i,
{
    if i < 0 || i >= s.len() || s[i].mark > 0 {
        i
    } else {
        first_mark_from(s, i + 1)
    }
}

fn modifier_of_tone(tone: u8) -> (r: Modifier)
    ensures
        r == modifier_of(tone),
{
    if tone == chars::TONE_CIRCUMFLEX {
        Modifier::Circumflex
    } else if tone == chars::TONE_HORN {
        Modifier::Horn
    } else {
        Modifier::Plain
    }
}

/// The buffer's vowels with their positions.
pub fn collect_vowels(buf: &Buffer) -> (r: Vec<Vowel>)
    ensures
        r@ == vowels_of(buf@),
{
    let n = buf.len();
    let mut out: Vec<Vowel> = Vec::new();
    let mut i: usize = 0;
    while i < n
        invariant
            n == buf@.len(),
            i <= n,
            out@ == vowels_of(buf@.subrange(0, i as int)),
        decreases n - i,
    {
        let c = buf.get(i).unwrap();
        assert(buf@.subrange(0, i + 1).drop_last() =~= buf@.subrange(0, i as int));
        if keys::is_vowel(c.key) {
            out.push(Vowel { key: c.key, modifier: modifier_of_tone(c.tone), pos: i });
        }
        i = i + 1;
    }
    assert(buf@.subrange(0, n as int) =~= buf@);
    out
}

/// Whether a consonant stands after position `pos`.
pub fn has_final_consonant(buf: &Buffer, pos: usize) -> (r: bool)
    ensures
        r == final_consonant_after(buf@, pos as int),
{
    let n = buf.len();
    let mut j: usize = pos;
    while j < n
        invariant
            n == buf@.len(),
            pos <= j,
            forall|k: int| pos < k < j ==> keys::is_vowel_key(#[trigger] buf@[k].key),
        decreases n - j,
    {
        if j > pos && !keys::is_vowel(buf.get(j).unwrap().key) {
            return true;
        }
        j = j + 1;
    }
    false
}

/// `s` with the tone mark of position `i` set to `m` (unchanged when `i` is out of range).
pub open spec fn with_mark(s: Seq<Char>, i: int, m: u8) -> Seq<Char> {
    if 0 <= i < s.len() { s.update(i, Char { mark: m, ..s[i] }) } else { s }
}

/// Outcome of repositioning: the move made, if any, and the characters after it. The first
/// marked character's mark moves to the place the vowels call for; nothing happens when no
/// character is marked, there is no vowel, or the mark is already in place.
pub open spec fn repositioned(s: Seq<Char>) -> (Option<(usize, usize)>, Seq<Char>) {
    let i = first_mark_from(s, 0);
    let vs = vowels_of(s);
    if i >= s.len() || vs.len() == 0 || mark_position(vs) == i {
        (None, s)
    } else {
        let np = mark_position(vs);
        (Some((i as usize, np)), with_mark(with_mark(s, i, 0), np as int, s[i].mark))
    }
}

fn first_mark(buf: &Buffer) -> (r: usize)
    ensures
        r == first_mark_from(buf@, 0),
        r <= buf@.len(),
{
    let n = buf.len();
    let mut i: usize = 0;
    while i < n && buf.get(i).unwrap().mark == 0
        invariant
            n == buf@.len(),
            i <= n,
            first_mark_from(buf@, i as int) == first_mark_from(buf@, 0),
        decreases n - i,
    {
        i = i + 1;
    }
    i
}

/// Moves the tone mark to where the vowels call for it after they changed; returns the old
/// and the new position when it moved.
pub fn reposition_mark(buf: &mut Buffer) -> (r: Option<(usize, usize)>)
    requires
        old(buf).wf(),
    ensures
        final(buf).wf(),
        r == repositioned(old(buf)@).0,
        final(buf)@ == repositioned(old(buf)@).1,
{
    let old_pos = first_mark(buf);
    if old_pos >= buf.len() {
        return None;
    }
    let mark_value = buf.get(old_pos).unwrap().mark;
    let vowels = collect_vowels(buf);
    if vowels.len() == 0 {
        return None;
    }
    let last_vowel_pos = vowels[vowels.len() - 1].pos;
    let has_final = has_final_consonant(buf, last_vowel_pos);
    let new_pos = find_mark_position(vowels.as_slice(), has_final);
    if new_pos != old_pos {
        buf.set_mark(old_pos, 0);
        buf.set_mark(new_pos, mark_value);
        return Some((old_pos, new_pos));
    }
    None
}

// ── Laws ─────────────────────────────────────────────────────────────────────

proof fn lemma_vowel_positions(s: Seq<Char>)
    ensures
        forall|k: int| 0 <= k < vowels_of(s).len() ==> #[trigger] vowels_of(s)[k].pos < s.len(),
    decreases s.len(),
{
    if s.len() > 0 {
        lemma_vowel_positions(s.drop_last());
    }
}

proof fn lemma_mark_position_in_range(s: Seq<Char>)
    requires
        vowels_of(s).len() > 0,
    ensures
        mark_position(vowels_of(s)) < s.len(),
{
    let vs = vowels_of(s);
    lemma_vowel_positions(s);
    lemma_last_diacritic(vs, vs.len() as int);
    let n = vs.len() as int;
    if n == 1 {
        assert(vs[0].pos < s.len());
    } else if last_diacritic(vs, n) >= 0 {
        assert(vs[1].pos < s.len());
        assert(vs[last_diacritic(vs, n)].pos < s.len());
    } else {
        assert(vs[n / 2].pos < s.len());
    }
}

proof fn lemma_vowels_ignore_marks(s: Seq<Char>, t: Seq<Char>)
    requires
        s.len() == t.len(),
        forall|j: int| 0 <= j < s.len() ==> #[trigger] s[j].key == t[j].key && s[j].tone == t[j].tone,
    ensures
        vowels_of(s) == vowels_of(t),
    decreases s.len(),
{
    if s.len() > 0 {
        let s2 = s.drop_last();
        let t2 = t.drop_last();
        assert forall|j: int| 0 <= j < s2.len() implies #[trigger] s2[j].key == t2[j].key && s2[j].tone == t2[j].tone by {
            assert(s[j].key == t[j].key && s[j].tone == t[j].tone);
        }
        lemma_vowels_ignore_marks(s2, t2);
        assert(s[s.len() - 1].key == t[t.len() - 1].key && s[s.len() - 1].tone == t[t.len() - 1].tone);
    }
}

proof fn lemma_first_mark_at(s: Seq<Char>, i: int, p: int)
    requires
        0 <= i <= p < s.len(),
        s[p].mark > 0,
        forall|j: int| 0 <= j < p ==> #[trigger] s[j].mark == 0,
    ensures
        first_mark_from(s, i) == p,
    decreases p - i,
{
    if i < p {
        lemma_first_mark_at(s, i + 1, p);
    }
}

proof fn lemma_first_mark_found(s: Seq<Char>, i: int)
    requires
        0 <= i <= s.len(),
    ensures
        i <= first_mark_from(s, i) <= s.len(),
        first_mark_from(s, i) < s.len() ==> s[first_mark_from(s, i)].mark > 0,
    decreases s.len() - i,
{
    if i < s.len() && s[i].mark == 0 {
        lemma_first_mark_found(s, i + 1);
    }
}

/// Tone placement does not depend on typing order: with a single tone mark in the word,
/// once it is moved where the vowels call for it, moving it again changes nothing.
pub proof fn lemma_reposition_settles(s: Seq<Char>)
    requires
        forall|i: int, j: int| 0 <= i < s.len() && 0 <= j < s.len() && #[trigger] s[i].mark > 0
            && #[trigger] s[j].mark > 0 ==> i == j,
    ensures
        repositioned(repositioned(s).1).0 is None,
        repositioned(repositioned(s).1).1 == repositioned(s).1,
{
    let t = repositioned(s).1;
    let i = first_mark_from(s, 0);
    let vs = vowels_of(s);
    lemma_first_mark_found(s, 0);
    if i >= s.len() || vs.len() == 0 || mark_position(vs) == i {
        assert(t == s);
    } else {
        let np = mark_position(vs) as int;
        lemma_mark_position_in_range(s);
        let m = s[i].mark;
        assert(t == with_mark(with_mark(s, i, 0), np, m));
        assert forall|j: int| 0 <= j < s.len() implies #[trigger] s[j].key == t[j].key && s[j].tone == t[j].tone by {}
        lemma_vowels_ignore_marks(s, t);
        assert forall|j: int| 0 <= j < np implies #[trigger] t[j].mark == 0 by {
            if j != i && s[j].mark > 0 {
                assert(s[i].mark > 0);
            }
        }
        lemma_first_mark_at(t, 0, np);
    }
}

} // verus!
