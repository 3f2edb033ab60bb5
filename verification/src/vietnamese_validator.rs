//! Whether a key sequence spells a Vietnamese syllable: the keys name letters (with their tone
//! modifiers where given), the letters split into initial consonant, vowel nucleus and final
//! consonant, and those parts fit together by the syllable structure tables.

use vstd::prelude::*;
use crate::chars;
use crate::structure::{check_parts, closes_with_i, lemma_spelled_nuclei, na_group, pad_0, pad_group, parts_ok};
use crate::text::{slice_chars, str_chars};

verus! {

/// Outcome of the key-sequence check.
#[derive(Debug, Clone, Copy, PartialEq, Eq, Structural)]
pub struct ValidationResult {
    /// The keys spell a Vietnamese syllable.
    pub is_valid: bool,
    /// Confidence in that verdict being Vietnamese (0-100).
    pub confidence: u8,
}

/// The lowercase Vietnamese vowel letters, with their modifiers.
pub open spec fn is_viet_vowel(c: char) -> bool {
    c == 'a' || c == 'â' || c == 'ă' || c == 'e' || c == 'ê' || c == 'i' || c == 'o' || c == 'ô'
        || c == 'ơ' || c == 'u' || c == 'ư' || c == 'y'
}

fn viet_vowel(c: char) -> (r: bool)
    ensures
        r == is_viet_vowel(c),
{
    c == 'a' || c == 'â' || c == 'ă' || c == 'e' || c == 'ê' || c == 'i' || c == 'o' || c == 'ô'
        || c == 'ơ' || c == 'u' || c == 'ư' || c == 'y'
}

/// End of the run of vowels (`vowel`) or consonants (`!vowel`) starting at `i`.
pub open spec fn run_end(cs: Seq<char>, i: int, vowel: bool) -> int
    decreases cs.len() - i,
{
    if i < 0 || i >= cs.len() || is_viet_vowel(cs[i]) != vowel {
        i
    } else {
        run_end(cs, i + 1, vowel)
    }
}

/// End of the initial consonant: the leading consonants, with "qu" and with "gi" before a
/// vowel counted as consonants.
pub open spec fn initial_end(cs: Seq<char>) -> int {
    let c = run_end(cs, 0, false);
    if c == 1 && cs[0] == 'q' && cs.len() > 1 && cs[1] == 'u' {
        2
    } else if c == 1 && cs[0] == 'g' && cs.len() > 2 && cs[1] == 'i' && is_viet_vowel(cs[2]) {
        2
    } else {
        c
    }
}

/// End of the vowel nucleus.
pub open spec fn nucleus_end(cs: Seq<char>) -> int {
    run_end(cs, initial_end(cs), true)
}

/// The letters form one syllable: after the nucleus only consonants follow, and initial,
/// nucleus and final fit together.
pub open spec fn letters_form_syllable(cs: Seq<char>) -> bool {
    let ie = initial_end(cs);
    let ve = nucleus_end(cs);
    &&& run_end(cs, ve, false) == cs.len()
    &&& parts_ok(cs.subrange(0, ie), cs.subrange(ie, ve), cs.subrange(ve, cs.len() as int))
}

/// Tone modifier given for position `i` (none where the modifiers run short).
pub open spec fn tone_at(tones: Seq<u8>, i: int) -> u8 {
    if 0 <= i < tones.len() { tones[i] } else { chars::TONE_NONE }
}

/// Lowercase letter named by key `i` with its modifier.
pub open spec fn letter_at(ks: Seq<u16>, tones: Seq<u8>, i: int) -> Option<char> {
    chars::to_char_spec(ks[i], false, tone_at(tones, i), chars::MARK_NONE)
}

/// Every key names a letter (with its modifier).
pub open spec fn letters_ok(ks: Seq<u16>, tones: Seq<u8>) -> bool {
    forall|i: int| 0 <= i < ks.len() ==> (#[trigger] letter_at(ks, tones, i)) is Some
}

/// The letters the keys name.
pub open spec fn letters(ks: Seq<u16>, tones: Seq<u8>) -> Seq<char> {
    Seq::new(ks.len(), |i: int| letter_at(ks, tones, i).unwrap())
}

/// The keys (with the tone modifiers) spell a Vietnamese syllable.
pub open spec fn keys_form_syllable(ks: Seq<u16>, tones: Seq<u8>) -> bool {
    letters_ok(ks, tones) && letters_form_syllable(letters(ks, tones))
}

/// Validator result: confidence 100 for a syllable, 0 otherwise.
pub open spec fn result_of(valid: bool) -> ValidationResult {
    ValidationResult { is_valid: valid, confidence: if valid { 100 } else { 0 } }
}

fn key_letters(ks: &[u16], tones: &[u8]) -> (r: Option<Vec<char>>)
    ensures
        r is Some <==> letters_ok(ks@, tones@),
        r is Some ==> r->0@ == letters(ks@, tones@),
{
    let mut out: Vec<char> = Vec::new();
    let mut i: usize = 0;
    while i < ks.len()
        invariant
            i <= ks@.len(),
            out@.len() == i,
            forall|j: int| 0 <= j < i ==> (#[trigger] letter_at(ks@, tones@, j)) is Some
                && out@[j] == letter_at(ks@, tones@, j).unwrap(),
        decreases ks@.len() - i,
    {
        let t = if i < tones.len() { tones[i] } else { chars::TONE_NONE };
        match chars::to_char(ks[i], false, t, chars::MARK_NONE) {
            Some(c) => out.push(c),
            None => {
                assert(letter_at(ks@, tones@, i as int) is None);
                return None;
            },
        }
        i = i + 1;
    }
    assert(out@ =~= letters(ks@, tones@));
    Some(out)
}

fn run_end_of(cs: &[char], start: usize, vowel: bool) -> (r: usize)
    requires
        start <= cs@.len(),
    ensures
        r == run_end(cs@, start as int, vowel),
        start <= r <= cs@.len(),
{
    let mut i = start;
    while i < cs.len() && viet_vowel(cs[i]) == vowel
        invariant
            start <= i <= cs@.len(),
            run_end(cs@, i as int, vowel) == run_end(cs@, start as int, vowel),
        decreases cs@.len() - i,
    {
        i = i + 1;
    }
    i
}

fn form_syllable(cs: &[char]) -> (r: bool)
    ensures
        r == letters_form_syllable(cs@),
{
    let c = run_end_of(cs, 0, false);
    let ie: usize = if c == 1 && cs[0] == 'q' && cs.len() > 1 && cs[1] == 'u' {
        2
    } else if c == 1 && cs[0] == 'g' && cs.len() > 2 && cs[1] == 'i' && viet_vowel(cs[2]) {
        2
    } else {
        c
    };
    let ve = run_end_of(cs, ie, true);
    if run_end_of(cs, ve, false) != cs.len() {
        return false;
    }
    let initial = slice_chars(cs, 0, ie);
    let nucleus = slice_chars(cs, ie, ve);
    let fin = slice_chars(cs, ve, cs.len());
    check_parts(initial.as_slice(), nucleus.as_slice(), fin.as_slice())
}

/// Vietnamese syllable check on key sequences.
pub struct VietnameseSyllableValidator;

impl VietnameseSyllableValidator {
    /// Checks the keys as the plain letters they name.
    pub fn validate(ks: &[u16]) -> (r: ValidationResult)
        ensures
            r == result_of(keys_form_syllable(ks@, Seq::empty())),
    {
        let none: Vec<u8> = Vec::new();
        assert(none@ =~= Seq::<u8>::empty());
        Self::validate_with_tones(ks, none.as_slice())
    }

    /// Checks the keys as letters carrying the given tone modifiers (position by position;
    /// missing modifiers count as none).
    pub fn validate_with_tones(ks: &[u16], tones: &[u8]) -> (r: ValidationResult)
        ensures
            r == result_of(keys_form_syllable(ks@, tones@)),
    {
        let valid = match key_letters(ks, tones) {
            Some(cs) => form_syllable(cs.as_slice()),
            None => false,
        };
        ValidationResult { is_valid: valid, confidence: if valid { 100 } else { 0 } }
    }
}

// ── Text ─────────────────────────────────────────────────────────────────────

/// Every character splits into key, modifier and mark.
pub open spec fn chars_parse(cs: Seq<char>) -> bool {
    forall|i: int| 0 <= i < cs.len() ==> (#[trigger] chars::parse_spec(cs[i])) is Some
}

/// Keys of the characters.
pub open spec fn parsed_keys(cs: Seq<char>) -> Seq<u16> {
    Seq::new(cs.len(), |i: int| chars::parse_spec(cs[i]).unwrap().key)
}

/// Tone modifiers of the characters.
pub open spec fn parsed_tones(cs: Seq<char>) -> Seq<u8> {
    Seq::new(cs.len(), |i: int| chars::parse_spec(cs[i]).unwrap().tone)
}

/// The text spells one Vietnamese syllable: its characters parse, and their keys with their
/// modifiers (case, tone marks and the stroke of đ aside) form a syllable.
pub open spec fn text_forms_syllable(cs: Seq<char>) -> bool {
    chars_parse(cs) && keys_form_syllable(parsed_keys(cs), parsed_tones(cs))
}

/// Keys and tone modifiers of the characters, if every one parses.
pub fn parse_keys_tones(cs: &[char]) -> (r: Option<(Vec<u16>, Vec<u8>)>)
    ensures
        r is Some <==> chars_parse(cs@),
        r is Some ==> r.unwrap().0@ == parsed_keys(cs@) && r.unwrap().1@ == parsed_tones(cs@),
{
    let mut ks: Vec<u16> = Vec::new();
    let mut tones: Vec<u8> = Vec::new();
    let mut i: usize = 0;
    while i < cs.len()
        invariant
            i <= cs@.len(),
            ks@.len() == i,
            tones@.len() == i,
            forall|j: int| 0 <= j < i ==> (#[trigger] chars::parse_spec(cs@[j])) is Some
                && ks@[j] == chars::parse_spec(cs@[j]).unwrap().key
                && tones@[j] == chars::parse_spec(cs@[j]).unwrap().tone,
        decreases cs@.len() - i,
    {
        match chars::parse_char(cs[i]) {
            Some(info) => {
                ks.push(info.key);
                tones.push(info.tone);
            },
            None => return None,
        }
        i = i + 1;
    }
    assert(ks@ =~= parsed_keys(cs@));
    assert(tones@ =~= parsed_tones(cs@));
    Some((ks, tones))
}

/// Whether the text spells one Vietnamese syllable.
pub fn is_valid_vietnamese_syllable(text: &str) -> (r: bool)
    ensures
        r == text_forms_syllable(text@),
{
    let cs = str_chars(text);
    match parse_keys_tones(cs.as_slice()) {
        Some((ks, tones)) => VietnameseSyllableValidator::validate_with_tones(ks.as_slice(), tones.as_slice()).is_valid,
        None => false,
    }
}

/// A nucleus the off-glide i closes (ai oi ôi ơi ui ưi) spells a syllable on its own and after
/// the initial t (tai, toi, tôi, tơi, tui, tưi).
pub proof fn lemma_closed_by_i_syllables(c: char)
    requires
        closes_with_i(c),
    ensures
        letters_form_syllable(seq![c, 'i']),
        letters_form_syllable(seq!['t', c, 'i']),
{
    lemma_spelled_nuclei(c);
    assert(is_viet_vowel(c));
    let open = seq![c, 'i'];
    reveal_with_fuel(run_end, 4);
    assert(run_end(open, 0, false) == 0);
    assert(run_end(open, 0, true) == 2);
    assert(open.subrange(0, 0) =~= Seq::<char>::empty());
    assert(open.subrange(0, 2) =~= open);
    assert(open.subrange(2, 2) =~= Seq::<char>::empty());
    let cs = seq!['t', c, 'i'];
    assert(run_end(cs, 0, false) == 1);
    assert(run_end(cs, 1, true) == 3);
    assert(cs.subrange(0, 1) =~= seq!['t']);
    assert(cs.subrange(1, 3) =~= open);
    assert(cs.subrange(3, 3) =~= Seq::<char>::empty());
    assert(pad_0()[12] =~= seq!['t']);
    assert(pad_group(seq!['t']) == Some(0u8));
    assert(na_group(open) == Some(5u8));
}
/// Keys that spell t, a vowel the off-glide i closes (with its modifier), then i, form a
/// syllable: t o i with the circumflex on o is "tôi".
pub proof fn lemma_closed_by_i_keys(k: u16, modifier: u8)
    requires
        chars::to_char_spec(k, false, modifier, chars::MARK_NONE) is Some,
        closes_with_i(chars::to_char_spec(k, false, modifier, chars::MARK_NONE).unwrap()),
    ensures
        keys_form_syllable(seq![crate::keys::T, k, crate::keys::I], seq![chars::TONE_NONE, modifier, chars::TONE_NONE]),
{
    let c = chars::to_char_spec(k, false, modifier, chars::MARK_NONE).unwrap();
    let ks = seq![crate::keys::T, k, crate::keys::I];
    let ts = seq![chars::TONE_NONE, modifier, chars::TONE_NONE];
    chars::lemma_plain_char(crate::keys::T, false);
    chars::lemma_plain_char(crate::keys::I, false);
    assert(letter_at(ks, ts, 0) == Some('t'));
    assert(letter_at(ks, ts, 1) == Some(c));
    assert(letter_at(ks, ts, 2) == Some('i'));
    assert(letters_ok(ks, ts));
    assert(letters(ks, ts) =~= seq!['t', c, 'i']);
    lemma_closed_by_i_syllables(c);
}
} // verus!
