//! Syllables split into initial consonant, vowel nucleus and final consonant, and the
//! results of validating them.

use vstd::prelude::*;
use crate::domain::ToneType;
use crate::text::{string_of, CharSequence};

verus! {

/// A syllable: initial consonant, vowel nucleus, final consonant and tone.
#[derive(Debug)]
pub struct Syllable {
    initial: CharSequence,
    vowel: CharSequence,
    final_consonant: CharSequence,
    tone: ToneType,
}

impl Syllable {
    pub closed spec fn initial_spec(&self) -> Seq<char> {
        self.initial@
    }

    pub closed spec fn vowel_spec(&self) -> Seq<char> {
        self.vowel@
    }

    pub closed spec fn final_spec(&self) -> Seq<char> {
        self.final_consonant@
    }

    pub closed spec fn tone_spec(&self) -> ToneType {
        self.tone
    }

    /// A syllable from its parts.
    pub fn from_parts(initial: &str, vowel: &str, final_consonant: &str, tone: ToneType) -> (r: Syllable)
        ensures
            r.initial_spec() == initial@,
            r.vowel_spec() == vowel@,
            r.final_spec() == final_consonant@,
            r.tone_spec() == tone,
    {
        Syllable {
            initial: CharSequence::from(initial),
            vowel: CharSequence::from(vowel),
            final_consonant: CharSequence::from(final_consonant),
            tone,
        }
    }

    pub fn initial(&self) -> (r: &CharSequence)
        ensures
            r@ == self.initial_spec(),
    {
        &self.initial
    }

    pub fn vowel(&self) -> (r: &CharSequence)
        ensures
            r@ == self.vowel_spec(),
    {
        &self.vowel
    }

    pub fn final_consonant(&self) -> (r: &CharSequence)
        ensures
            r@ == self.final_spec(),
    {
        &self.final_consonant
    }

    pub fn tone(&self) -> (r: ToneType)
        ensures
            r == self.tone_spec(),
    {
        self.tone
    }

    /// The syllable's letters: initial, vowel and final written one after another.
    pub fn base_form(&self) -> (r: String)
        ensures
            r@ == self.initial_spec() + self.vowel_spec() + self.final_spec(),
    {
        crate::text::concat3(self.initial.as_str(), self.vowel.as_str(), self.final_consonant.as_str())
    }
}

/// Why a syllable was rejected.
#[derive(Debug, Clone, PartialEq, Eq)]
pub enum ValidationError {
    /// No vowel nucleus.
    Empty,
    /// The syllable's structure was rejected.
    InvalidStructure { syllable: String, reason: String },
    /// The tone cannot go with the final consonant.
    InvalidTonePlacement { syllable: String, reason: String },
    /// An initial or final consonant is not a Vietnamese one.
    InvalidConsonant { consonant: String, context: String },
    /// The vowel nucleus is not a Vietnamese one.
    InvalidVowel { vowel: String, context: String },
    /// Parts that exist on their own may not stand together.
    PhonotacticViolation { rule: String, context: String },
}

/// The kind of a validation outcome.
#[derive(Debug, Clone, Copy, PartialEq, Eq, Structural)]
pub enum Verdict {
    Valid,
    Empty,
    InvalidStructure,
    InvalidTonePlacement,
    InvalidConsonant,
    InvalidVowel,
    PhonotacticViolation,
}

impl ValidationError {
    pub open spec fn verdict(&self) -> Verdict {
        match self {
            ValidationError::Empty => Verdict::Empty,
            ValidationError::InvalidStructure { .. } => Verdict::InvalidStructure,
            ValidationError::InvalidTonePlacement { .. } => Verdict::InvalidTonePlacement,
            ValidationError::InvalidConsonant { .. } => Verdict::InvalidConsonant,
            ValidationError::InvalidVowel { .. } => Verdict::InvalidVowel,
            ValidationError::PhonotacticViolation { .. } => Verdict::PhonotacticViolation,
        }
    }
}

/// Outcome of validating a syllable: valid, or invalid with the reason.
#[derive(Debug, Clone, PartialEq, Eq)]
pub struct ValidationResult {
    pub error: Option<ValidationError>,
}

impl ValidationResult {
    pub open spec fn verdict(&self) -> Verdict {
        match self.error {
            Some(e) => e.verdict(),
            None => Verdict::Valid,
        }
    }

    pub fn valid() -> (r: ValidationResult)
        ensures
            r.verdict() == Verdict::Valid,
    {
        ValidationResult { error: None }
    }

    pub fn invalid(e: ValidationError) -> (r: ValidationResult)
        ensures
            r.error == Some(e),
    {
        ValidationResult { error: Some(e) }
    }

    pub fn is_valid(&self) -> (r: bool)
        ensures
            r == (self.verdict() == Verdict::Valid),
    {
        self.error.is_none()
    }

    pub fn is_invalid(&self) -> (r: bool)
        ensures
            r == (self.verdict() != Verdict::Valid),
    {
        self.error.is_some()
    }

    pub fn error(&self) -> (r: Option<&ValidationError>)
        ensures
            r == match self.error {
                Some(e) => Some(&e),
                None => None::<&ValidationError>,
            },
    {
        match &self.error {
            Some(e) => Some(e),
            None => None,
        }
    }

    /// `Ok` when valid, the error otherwise.
    pub fn into_result(self) -> (r: Result<(), ValidationError>)
        ensures
            r == match self.error {
                Some(e) => Err::<(), ValidationError>(e),
                None => Ok(()),
            },
    {
        match self.error {
            Some(e) => Err(e),
            None => Ok(()),
        }
    }
}

/// Whether two character slices hold the same characters.
pub fn eq_chars(a: &[char], b: &[char]) -> (r: bool)
    ensures
        r == (a@ == b@),
{
    if a.len() != b.len() {
        return false;
    }
    let mut i: usize = 0;
    while i < a.len()
        invariant
            a@.len() == b@.len(),
            i <= a@.len(),
            forall|j: int| 0 <= j < i ==> a@[j] == b@[j],
        decreases a@.len() - i,
    {
        if a[i] != b[i] {
            return false;
        }
        i = i + 1;
    }
    assert(a@ =~= b@);
    true
}

/// The character sequences of a list of slices.
pub open spec fn views(list: Seq<&[char]>) -> Seq<Seq<char>> {
    list.map_values(|x: &[char]| x@)
}

/// Whether `s` is one of the listed character sequences.
pub fn in_list(s: &[char], list: &[&[char]]) -> (r: bool)
    ensures
        r == views(list@).contains(s@),
{
    let mut i: usize = 0;
    while i < list.len()
        invariant
            i <= list@.len(),
            forall|j: int| 0 <= j < i ==> list@[j]@ != s@,
        decreases list@.len() - i,
    {
        if eq_chars(s, list[i]) {
            assert(views(list@)[i as int] == s@);
            return true;
        }
        i = i + 1;
    }
    assert forall|j: int| 0 <= j < views(list@).len() implies views(list@)[j] != s@ by {
        assert(views(list@)[j] == list@[j]@);
    }
    false
}

/// Vietnamese initial consonants.
pub open spec fn initials() -> Seq<Seq<char>> {
    seq![
        seq!['b'], seq!['c'], seq!['c', 'h'], seq!['d'], seq!['đ'], seq!['g'], seq!['g', 'h'],
        seq!['g', 'i'], seq!['h'], seq!['k'], seq!['k', 'h'], seq!['l'], seq!['m'], seq!['n'],
        seq!['n', 'g'], seq!['n', 'g', 'h'], seq!['n', 'h'], seq!['p'], seq!['p', 'h'],
        seq!['q', 'u'], seq!['r'], seq!['s'], seq!['t'], seq!['t', 'h'], seq!['t', 'r'],
        seq!['v'], seq!['x'],
    ]
}

/// Vietnamese final consonants.
pub open spec fn finals() -> Seq<Seq<char>> {
    seq![
        seq!['c'], seq!['c', 'h'], seq!['m'], seq!['n'], seq!['n', 'g'], seq!['n', 'h'],
        seq!['p'], seq!['t'],
    ]
}

/// Stop final consonants: p t c ch.
pub open spec fn stop_finals() -> Seq<Seq<char>> {
    seq![seq!['p'], seq!['t'], seq!['c'], seq!['c', 'h']]
}

/// A syllable has a vowel nucleus.
pub open spec fn has_vowel_spec(s: &Syllable) -> bool {
    s.vowel_spec().len() > 0
}

/// An empty initial or one of the Vietnamese initial consonants.
pub open spec fn valid_initial_spec(s: Seq<char>) -> bool {
    s.len() == 0 || initials().contains(s)
}

/// An empty final or one of the Vietnamese final consonants.
pub open spec fn valid_final_spec(s: Seq<char>) -> bool {
    s.len() == 0 || finals().contains(s)
}

/// Stop finals (p t c ch) take only the sắc or nặng tone.
pub open spec fn valid_tone_final_spec(tone: ToneType, s: Seq<char>) -> bool {
    stop_finals().contains(s) ==> (tone == ToneType::Sac || tone == ToneType::Nang)
}

pub fn has_vowel(s: &Syllable) -> (r: bool)
    ensures
        r == has_vowel_spec(s),
{
    !s.vowel().is_empty()
}

pub fn is_valid_initial(s: &str) -> (r: bool)
    ensures
        r == valid_initial_spec(s@),
{
    let v = crate::text::str_chars(s);
    if v.len() == 0 {
        return true;
    }
    let list: [&[char]; 27] = [
        &['b'], &['c'], &['c', 'h'], &['d'], &['đ'], &['g'], &['g', 'h'],
        &['g', 'i'], &['h'], &['k'], &['k', 'h'], &['l'], &['m'], &['n'],
        &['n', 'g'], &['n', 'g', 'h'], &['n', 'h'], &['p'], &['p', 'h'],
        &['q', 'u'], &['r'], &['s'], &['t'], &['t', 'h'], &['t', 'r'],
        &['v'], &['x'],
    ];
    proof {
        assert(list@[0]@ =~= initials()[0]);
        assert(list@[1]@ =~= initials()[1]);
        assert(list@[2]@ =~= initials()[2]);
        assert(list@[3]@ =~= initials()[3]);
        assert(list@[4]@ =~= initials()[4]);
        assert(list@[5]@ =~= initials()[5]);
        assert(list@[6]@ =~= initials()[6]);
        assert(list@[7]@ =~= initials()[7]);
        assert(list@[8]@ =~= initials()[8]);
        assert(list@[9]@ =~= initials()[9]);
        assert(list@[10]@ =~= initials()[10]);
        assert(list@[11]@ =~= initials()[11]);
        assert(list@[12]@ =~= initials()[12]);
        assert(list@[13]@ =~= initials()[13]);
        assert(list@[14]@ =~= initials()[14]);
        assert(list@[15]@ =~= initials()[15]);
        assert(list@[16]@ =~= initials()[16]);
        assert(list@[17]@ =~= initials()[17]);
        assert(list@[18]@ =~= initials()[18]);
        assert(list@[19]@ =~= initials()[19]);
        assert(list@[20]@ =~= initials()[20]);
        assert(list@[21]@ =~= initials()[21]);
        assert(list@[22]@ =~= initials()[22]);
        assert(list@[23]@ =~= initials()[23]);
        assert(list@[24]@ =~= initials()[24]);
        assert(list@[25]@ =~= initials()[25]);
        assert(list@[26]@ =~= initials()[26]);
        assert(views(list@) =~= initials());
    }
    in_list(v.as_slice(), &list)
}

pub fn is_valid_final(s: &str) -> (r: bool)
    ensures
        r == valid_final_spec(s@),
{
    let v = crate::text::str_chars(s);
    if v.len() == 0 {
        return true;
    }
    let list: [&[char]; 8] = [&['c'], &['c', 'h'], &['m'], &['n'], &['n', 'g'], &['n', 'h'], &['p'], &['t']];
    proof {
        assert(list@[0]@ =~= finals()[0]);
        assert(list@[1]@ =~= finals()[1]);
        assert(list@[2]@ =~= finals()[2]);
        assert(list@[3]@ =~= finals()[3]);
        assert(list@[4]@ =~= finals()[4]);
        assert(list@[5]@ =~= finals()[5]);
        assert(list@[6]@ =~= finals()[6]);
        assert(list@[7]@ =~= finals()[7]);
        assert(views(list@) =~= finals());
    }
    in_list(v.as_slice(), &list)
}

pub fn is_valid_tone_final(tone: ToneType, s: &str) -> (r: bool)
    ensures
        r == valid_tone_final_spec(tone, s@),
{
    let v = crate::text::str_chars(s);
    let list: [&[char]; 4] = [&['p'], &['t'], &['c'], &['c', 'h']];
    proof {
        assert(list@[0]@ =~= stop_finals()[0]);
        assert(list@[1]@ =~= stop_finals()[1]);
        assert(list@[2]@ =~= stop_finals()[2]);
        assert(list@[3]@ =~= stop_finals()[3]);
        assert(views(list@) =~= stop_finals());
    }
    if in_list(v.as_slice(), &list) {
        tone == ToneType::Sac || tone == ToneType::Nang
    } else {
        true
    }
}

/// A tone's name, as `tone_name` writes it.
pub open spec fn tone_name_spec(tone: ToneType) -> Seq<char> {
    match tone {
        ToneType::Ngang => "Ngang"@,
        ToneType::Sac => "Sac"@,
        ToneType::Huyen => "Huyen"@,
        ToneType::Hoi => "Hoi"@,
        ToneType::Nga => "Nga"@,
        ToneType::Nang => "Nang"@,
    }
}

/// A tone's name.
pub fn tone_name(tone: ToneType) -> (r: &'static str)
    ensures
        r@ == tone_name_spec(tone),
{
    match tone {
        ToneType::Ngang => "Ngang",
        ToneType::Sac => "Sac",
        ToneType::Huyen => "Huyen",
        ToneType::Hoi => "Hoi",
        ToneType::Nga => "Nga",
        ToneType::Nang => "Nang",
    }
}

/// Decimal digit of a group number below ten.
pub fn digit_string(d: u8) -> (r: String)
    requires
        d < 10,
    ensures
        r@ == seq![(('0' as u8) + d) as char],
{
    let c = (('0' as u8) + d) as char;
    let v = [c];
    assert(v@ =~= seq![c]);
    string_of(&v)
}

}
