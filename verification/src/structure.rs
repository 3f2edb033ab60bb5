//! Vietnamese syllable structure: initial consonant groups (PAD), vowel nucleus groups (NA)
//! and final consonant groups (PAC) with the tables saying which may stand together, and
//! the validators built on them.

use vstd::prelude::*;
use crate::domain::ToneType;
use crate::syllable::{
    digit_string, has_vowel, has_vowel_spec, in_list, is_valid_final, is_valid_initial,
    is_valid_tone_final, tone_name, valid_final_spec, valid_initial_spec,
    valid_tone_final_spec, views, Syllable, ValidationError, ValidationResult, Verdict,
};
use crate::text::{concat3, str_chars};

verus! {

/// PAD group 0.
pub open spec fn pad_0() -> Seq<Seq<char>> {
    seq![
        seq!['b'],
        seq!['d'],
        seq!['đ'],
        seq!['g'],
        seq!['g', 'h'],
        seq!['m'],
        seq!['n'],
        seq!['n', 'h'],
        seq!['p'],
        seq!['p', 'h'],
        seq!['r'],
        seq!['s'],
        seq!['t'],
        seq!['t', 'r'],
        seq!['v'],
    ]
}

fn in_pad_0(v: &[char]) -> (r: bool)
    ensures
        r == pad_0().contains(v@),
{
    let list: [&[char]; 15] = [
        &['b'],
        &['d'],
        &['đ'],
        &['g'],
        &['g', 'h'],
        &['m'],
        &['n'],
        &['n', 'h'],
        &['p'],
        &['p', 'h'],
        &['r'],
        &['s'],
        &['t'],
        &['t', 'r'],
        &['v'],
    ];
    proof {
        assert(list@[0]@ =~= pad_0()[0]);
        assert(list@[1]@ =~= pad_0()[1]);
        assert(list@[2]@ =~= pad_0()[2]);
        assert(list@[3]@ =~= pad_0()[3]);
        assert(list@[4]@ =~= pad_0()[4]);
        assert(list@[5]@ =~= pad_0()[5]);
        assert(list@[6]@ =~= pad_0()[6]);
        assert(list@[7]@ =~= pad_0()[7]);
        assert(list@[8]@ =~= pad_0()[8]);
        assert(list@[9]@ =~= pad_0()[9]);
        assert(list@[10]@ =~= pad_0()[10]);
        assert(list@[11]@ =~= pad_0()[11]);
        assert(list@[12]@ =~= pad_0()[12]);
        assert(list@[13]@ =~= pad_0()[13]);
        assert(list@[14]@ =~= pad_0()[14]);
        assert(views(list@) =~= pad_0());
    }
    in_list(v, &list)
}

/// PAD group 1.
pub open spec fn pad_1() -> Seq<Seq<char>> {
    seq![
        seq!['c'],
        seq!['h'],
        seq!['k'],
        seq!['k', 'h'],
        seq!['q', 'u'],
        seq!['t', 'h'],
    ]
}

fn in_pad_1(v: &[char]) -> (r: bool)
    ensures
        r == pad_1().contains(v@),
{
    let list: [&[char]; 6] = [
        &['c'],
        &['h'],
        &['k'],
        &['k', 'h'],
        &['q', 'u'],
        &['t', 'h'],
    ];
    proof {
        assert(list@[0]@ =~= pad_1()[0]);
        assert(list@[1]@ =~= pad_1()[1]);
        assert(list@[2]@ =~= pad_1()[2]);
        assert(list@[3]@ =~= pad_1()[3]);
        assert(list@[4]@ =~= pad_1()[4]);
        assert(list@[5]@ =~= pad_1()[5]);
        assert(views(list@) =~= pad_1());
    }
    in_list(v, &list)
}

/// PAD group 2.
pub open spec fn pad_2() -> Seq<Seq<char>> {
    seq![
        seq!['c', 'h'],
        seq!['g', 'i'],
        seq!['l'],
        seq!['n', 'g'],
        seq!['n', 'g', 'h'],
        seq!['x'],
    ]
}

fn in_pad_2(v: &[char]) -> (r: bool)
    ensures
        r == pad_2().contains(v@),
{
    let list: [&[char]; 6] = [
        &['c', 'h'],
        &['g', 'i'],
        &['l'],
        &['n', 'g'],
        &['n', 'g', 'h'],
        &['x'],
    ];
    proof {
        assert(list@[0]@ =~= pad_2()[0]);
        assert(list@[1]@ =~= pad_2()[1]);
        assert(list@[2]@ =~= pad_2()[2]);
        assert(list@[3]@ =~= pad_2()[3]);
        assert(list@[4]@ =~= pad_2()[4]);
        assert(list@[5]@ =~= pad_2()[5]);
        assert(views(list@) =~= pad_2());
    }
    in_list(v, &list)
}

/// The PAD group holding `s`.
pub open spec fn pad_group(s: Seq<char>) -> Option<u8> {
    if pad_0().contains(s) { Some(0u8) } else if pad_1().contains(s) { Some(1u8) } else if pad_2().contains(s) { Some(2u8) } else { None }
}

/// The PAD group holding `v`.
pub fn find_pad_group(v: &[char]) -> (r: Option<u8>)
    ensures
        r == pad_group(v@),
{
    if in_pad_0(v) { Some(0) } else if in_pad_1(v) { Some(1) } else if in_pad_2(v) { Some(2) } else { None }
}

/// NA group 0.
pub open spec fn na_0() -> Seq<Seq<char>> {
    seq![
        seq!['ê'],
        seq!['i'],
        seq!['u', 'a'],
        seq!['u', 'ê'],
        seq!['u', 'y'],
        seq!['y'],
    ]
}

fn in_na_0(v: &[char]) -> (r: bool)
    ensures
        r == na_0().contains(v@),
{
    let list: [&[char]; 6] = [
        &['ê'],
        &['i'],
        &['u', 'a'],
        &['u', 'ê'],
        &['u', 'y'],
        &['y'],
    ];
    proof {
        assert(list@[0]@ =~= na_0()[0]);
        assert(list@[1]@ =~= na_0()[1]);
        assert(list@[2]@ =~= na_0()[2]);
        assert(list@[3]@ =~= na_0()[3]);
        assert(list@[4]@ =~= na_0()[4]);
        assert(list@[5]@ =~= na_0()[5]);
        assert(views(list@) =~= na_0());
    }
    in_list(v, &list)
}

/// NA group 1.
pub open spec fn na_1() -> Seq<Seq<char>> {
    seq![
        seq!['a'],
        seq!['i', 'ê'],
        seq!['o', 'a'],
        seq!['u', 'y', 'ê'],
        seq!['y', 'ê'],
    ]
}

fn in_na_1(v: &[char]) -> (r: bool)
    ensures
        r == na_1().contains(v@),
{
    let list: [&[char]; 5] = [
        &['a'],
        &['i', 'ê'],
        &['o', 'a'],
        &['u', 'y', 'ê'],
        &['y', 'ê'],
    ];
    proof {
        assert(list@[0]@ =~= na_1()[0]);
        assert(list@[1]@ =~= na_1()[1]);
        assert(list@[2]@ =~= na_1()[2]);
        assert(list@[3]@ =~= na_1()[3]);
        assert(list@[4]@ =~= na_1()[4]);
        assert(views(list@) =~= na_1());
    }
    in_list(v, &list)
}

/// NA group 2.
pub open spec fn na_2() -> Seq<Seq<char>> {
    seq![
        seq!['â'],
        seq!['ă'],
        seq!['e'],
        seq!['o'],
        seq!['o', 'o'],
        seq!['ô'],
        seq!['ơ'],
        seq!['o', 'e'],
        seq!['u'],
        seq!['ư'],
        seq!['u', 'â'],
        seq!['u', 'ô'],
        seq!['ư', 'ơ'],
    ]
}

fn in_na_2(v: &[char]) -> (r: bool)
    ensures
        r == na_2().contains(v@),
{
    let list: [&[char]; 13] = [
        &['â'],
        &['ă'],
        &['e'],
        &['o'],
        &['o', 'o'],
        &['ô'],
        &['ơ'],
        &['o', 'e'],
        &['u'],
        &['ư'],
        &['u', 'â'],
        &['u', 'ô'],
        &['ư', 'ơ'],
    ];
    proof {
        assert(list@[0]@ =~= na_2()[0]);
        assert(list@[1]@ =~= na_2()[1]);
        assert(list@[2]@ =~= na_2()[2]);
        assert(list@[3]@ =~= na_2()[3]);
        assert(list@[4]@ =~= na_2()[4]);
        assert(list@[5]@ =~= na_2()[5]);
        assert(list@[6]@ =~= na_2()[6]);
        assert(list@[7]@ =~= na_2()[7]);
        assert(list@[8]@ =~= na_2()[8]);
        assert(list@[9]@ =~= na_2()[9]);
        assert(list@[10]@ =~= na_2()[10]);
        assert(list@[11]@ =~= na_2()[11]);
        assert(list@[12]@ =~= na_2()[12]);
        assert(views(list@) =~= na_2());
    }
    in_list(v, &list)
}

/// NA group 3.
pub open spec fn na_3() -> Seq<Seq<char>> {
    seq![
        seq!['o', 'ă'],
    ]
}

fn in_na_3(v: &[char]) -> (r: bool)
    ensures
        r == na_3().contains(v@),
{
    let list: [&[char]; 1] = [
        &['o', 'ă'],
    ];
    proof {
        assert(list@[0]@ =~= na_3()[0]);
        assert(views(list@) =~= na_3());
    }
    in_list(v, &list)
}

/// NA group 4.
pub open spec fn na_4() -> Seq<Seq<char>> {
    seq![
        seq!['u', 'ơ'],
    ]
}

fn in_na_4(v: &[char]) -> (r: bool)
    ensures
        r == na_4().contains(v@),
{
    let list: [&[char]; 1] = [
        &['u', 'ơ'],
    ];
    proof {
        assert(list@[0]@ =~= na_4()[0]);
        assert(views(list@) =~= na_4());
    }
    in_list(v, &list)
}

/// NA group 5.
pub open spec fn na_5() -> Seq<Seq<char>> {
    seq![
        seq!['a', 'i'],
        seq!['a', 'o'],
        seq!['a', 'u'],
        seq!['â', 'u'],
        seq!['a', 'y'],
        seq!['â', 'y'],
        seq!['e', 'o'],
        seq!['ê', 'u'],
        seq!['i', 'a'],
        seq!['i', 'ê', 'u'],
        seq!['i', 'u'],
        seq!['o', 'a', 'i'],
        seq!['o', 'a', 'o'],
        seq!['o', 'a', 'y'],
        seq!['o', 'e', 'o'],
        seq!['o', 'i'],
        seq!['ô', 'i'],
        seq!['ơ', 'i'],
        seq!['ư', 'a'],
        seq!['u', 'â', 'y'],
        seq!['u', 'i'],
        seq!['ư', 'i'],
        seq!['u', 'ô', 'i'],
        seq!['ư', 'ơ', 'i'],
        seq!['ư', 'ơ', 'u'],
        seq!['ư', 'u'],
        seq!['u', 'y', 'a'],
        seq!['u', 'y', 'u'],
        seq!['y', 'ê', 'u'],
    ]
}

fn in_na_5(v: &[char]) -> (r: bool)
    ensures
        r == na_5().contains(v@),
{
    let list: [&[char]; 29] = [
        &['a', 'i'],
        &['a', 'o'],
        &['a', 'u'],
        &['â', 'u'],
        &['a', 'y'],
        &['â', 'y'],
        &['e', 'o'],
        &['ê', 'u'],
        &['i', 'a'],
        &['i', 'ê', 'u'],
        &['i', 'u'],
        &['o', 'a', 'i'],
        &['o', 'a', 'o'],
        &['o', 'a', 'y'],
        &['o', 'e', 'o'],
        &['o', 'i'],
        &['ô', 'i'],
        &['ơ', 'i'],
        &['ư', 'a'],
        &['u', 'â', 'y'],
        &['u', 'i'],
        &['ư', 'i'],
        &['u', 'ô', 'i'],
        &['ư', 'ơ', 'i'],
        &['ư', 'ơ', 'u'],
        &['ư', 'u'],
        &['u', 'y', 'a'],
        &['u', 'y', 'u'],
        &['y', 'ê', 'u'],
    ];
    proof {
        assert(list@[0]@ =~= na_5()[0]);
        assert(list@[1]@ =~= na_5()[1]);
        assert(list@[2]@ =~= na_5()[2]);
        assert(list@[3]@ =~= na_5()[3]);
        assert(list@[4]@ =~= na_5()[4]);
        assert(list@[5]@ =~= na_5()[5]);
        assert(list@[6]@ =~= na_5()[6]);
        assert(list@[7]@ =~= na_5()[7]);
        assert(list@[8]@ =~= na_5()[8]);
        assert(list@[9]@ =~= na_5()[9]);
        assert(list@[10]@ =~= na_5()[10]);
        assert(list@[11]@ =~= na_5()[11]);
        assert(list@[12]@ =~= na_5()[12]);
        assert(list@[13]@ =~= na_5()[13]);
        assert(list@[14]@ =~= na_5()[14]);
        assert(list@[15]@ =~= na_5()[15]);
        assert(list@[16]@ =~= na_5()[16]);
        assert(list@[17]@ =~= na_5()[17]);
        assert(list@[18]@ =~= na_5()[18]);
        assert(list@[19]@ =~= na_5()[19]);
        assert(list@[20]@ =~= na_5()[20]);
        assert(list@[21]@ =~= na_5()[21]);
        assert(list@[22]@ =~= na_5()[22]);
        assert(list@[23]@ =~= na_5()[23]);
        assert(list@[24]@ =~= na_5()[24]);
        assert(list@[25]@ =~= na_5()[25]);
        assert(list@[26]@ =~= na_5()[26]);
        assert(list@[27]@ =~= na_5()[27]);
        assert(list@[28]@ =~= na_5()[28]);
        assert(views(list@) =~= na_5());
    }
    in_list(v, &list)
}

/// The NA group holding `s`.
pub open spec fn na_group(s: Seq<char>) -> Option<u8> {
    if na_0().contains(s) { Some(0u8) } else if na_1().contains(s) { Some(1u8) } else if na_2().contains(s) { Some(2u8) } else if na_3().contains(s) { Some(3u8) } else if na_4().contains(s) { Some(4u8) } else if na_5().contains(s) { Some(5u8) } else { None }
}

/// The NA group holding `v`.
pub fn find_na_group(v: &[char]) -> (r: Option<u8>)
    ensures
        r == na_group(v@),
{
    if in_na_0(v) { Some(0) } else if in_na_1(v) { Some(1) } else if in_na_2(v) { Some(2) } else if in_na_3(v) { Some(3) } else if in_na_4(v) { Some(4) } else if in_na_5(v) { Some(5) } else { None }
}

/// PAC group 0.
pub open spec fn pac_0() -> Seq<Seq<char>> {
    seq![
        seq!['c', 'h'],
        seq!['n', 'h'],
    ]
}

fn in_pac_0(v: &[char]) -> (r: bool)
    ensures
        r == pac_0().contains(v@),
{
    let list: [&[char]; 2] = [
        &['c', 'h'],
        &['n', 'h'],
    ];
    proof {
        assert(list@[0]@ =~= pac_0()[0]);
        assert(list@[1]@ =~= pac_0()[1]);
        assert(views(list@) =~= pac_0());
    }
    in_list(v, &list)
}

/// PAC group 1.
pub open spec fn pac_1() -> Seq<Seq<char>> {
    seq![
        seq!['c'],
        seq!['n', 'g'],
    ]
}

fn in_pac_1(v: &[char]) -> (r: bool)
    ensures
        r == pac_1().contains(v@),
{
    let list: [&[char]; 2] = [
        &['c'],
        &['n', 'g'],
    ];
    proof {
        assert(list@[0]@ =~= pac_1()[0]);
        assert(list@[1]@ =~= pac_1()[1]);
        assert(views(list@) =~= pac_1());
    }
    in_list(v, &list)
}

/// PAC group 2.
pub open spec fn pac_2() -> Seq<Seq<char>> {
    seq![
        seq!['m'],
        seq!['n'],
        seq!['p'],
        seq!['t'],
    ]
}

fn in_pac_2(v: &[char]) -> (r: bool)
    ensures
        r == pac_2().contains(v@),
{
    let list: [&[char]; 4] = [
        &['m'],
        &['n'],
        &['p'],
        &['t'],
    ];
    proof {
        assert(list@[0]@ =~= pac_2()[0]);
        assert(list@[1]@ =~= pac_2()[1]);
        assert(list@[2]@ =~= pac_2()[2]);
        assert(list@[3]@ =~= pac_2()[3]);
        assert(views(list@) =~= pac_2());
    }
    in_list(v, &list)
}

/// The PAC group holding `s`.
pub open spec fn pac_group(s: Seq<char>) -> Option<u8> {
    if pac_0().contains(s) { Some(0u8) } else if pac_1().contains(s) { Some(1u8) } else if pac_2().contains(s) { Some(2u8) } else { None }
}

/// The PAC group holding `v`.
pub fn find_pac_group(v: &[char]) -> (r: Option<u8>)
    ensures
        r == pac_group(v@),
{
    if in_pac_0(v) { Some(0) } else if in_pac_1(v) { Some(1) } else if in_pac_2(v) { Some(2) } else { None }
}

/// Vowel groups each initial group may precede.
pub open spec fn pad_na_ok(pad: u8, na: u8) -> bool {
    if pad == 0 { na == 0 || na == 1 || na == 2 || na == 5 }
    else if pad == 1 { na <= 5 }
    else { na == 0 || na == 1 || na == 2 || na == 3 || na == 5 }
}

/// Final groups each vowel group may be followed by.
pub open spec fn na_pac_ok(na: u8, pac: u8) -> bool {
    if na == 0 { pac == 0 || pac == 2 }
    else if na == 1 { pac <= 2 }
    else if na == 2 || na == 3 { pac == 1 || pac == 2 }
    else { false }
}

fn pad_na_allowed(pad: u8, na: u8) -> (r: bool)
    ensures
        r == pad_na_ok(pad, na),
{
    if pad == 0 { na == 0 || na == 1 || na == 2 || na == 5 }
    else if pad == 1 { na <= 5 }
    else { na == 0 || na == 1 || na == 2 || na == 3 || na == 5 }
}

fn na_pac_allowed(na: u8, pac: u8) -> (r: bool)
    ensures
        r == na_pac_ok(na, pac),
{
    if na == 0 { pac == 0 || pac == 2 }
    else if na == 1 { pac <= 2 }
    else if na == 2 || na == 3 { pac == 1 || pac == 2 }
    else { false }
}

/// Whether a vowel cluster is a Vietnamese vowel nucleus (belongs to an NA group).
pub fn is_valid_vowel_cluster(vowel_str: &str) -> (r: bool)
    ensures
        r == (na_group(vowel_str@) is Some),
{
    let v = str_chars(vowel_str);
    find_na_group(v.as_slice()).is_some()
}

/// Whether a vowel cluster may be followed by a final consonant.
pub fn is_valid_na_pac_combo(vowel_str: &str, coda_str: &str) -> (r: bool)
    ensures
        r == (na_group(vowel_str@) is Some && pac_group(coda_str@) is Some
            && na_pac_ok(na_group(vowel_str@).unwrap(), pac_group(coda_str@).unwrap())),
{
    let v = str_chars(vowel_str);
    let c = str_chars(coda_str);
    let na = match find_na_group(v.as_slice()) {
        Some(g) => g,
        None => return false,
    };
    let pac = match find_pac_group(c.as_slice()) {
        Some(g) => g,
        None => return false,
    };
    na_pac_allowed(na, pac)
}

/// The parts fit together by the group tables: a vowel nucleus of an NA group, an initial (if
/// any) of a PAD group that may precede it, a final (if any) of a PAC group that may follow it.
pub open spec fn parts_ok(initial: Seq<char>, vowel: Seq<char>, fin: Seq<char>) -> bool {
    &&& vowel.len() > 0
    &&& na_group(vowel) is Some
    &&& initial.len() > 0 ==> pad_group(initial) is Some
        && pad_na_ok(pad_group(initial).unwrap(), na_group(vowel).unwrap())
    &&& fin.len() > 0 ==> pac_group(fin) is Some
        && na_pac_ok(na_group(vowel).unwrap(), pac_group(fin).unwrap())
}

/// Whether the parts fit together by the group tables.
pub fn check_parts(initial: &[char], vowel: &[char], fin: &[char]) -> (r: bool)
    ensures
        r == parts_ok(initial@, vowel@, fin@),
{
    if vowel.len() == 0 {
        return false;
    }
    let na = match find_na_group(vowel) {
        Some(g) => g,
        None => return false,
    };
    if initial.len() > 0 {
        match find_pad_group(initial) {
            Some(pad) => {
                if !pad_na_allowed(pad, na) {
                    return false;
                }
            },
            None => return false,
        }
    }
    if fin.len() > 0 {
        match find_pac_group(fin) {
            Some(pac) => {
                if !na_pac_allowed(na, pac) {
                    return false;
                }
            },
            None => return false,
        }
    }
    true
}

/// Outcome of the structure check on a syllable's parts.
pub open spec fn structure_verdict(initial: Seq<char>, vowel: Seq<char>, fin: Seq<char>, tone: ToneType) -> Verdict {
    if vowel.len() == 0 {
        Verdict::Empty
    } else if na_group(vowel) is None {
        Verdict::InvalidVowel
    } else if initial.len() > 0 && pad_group(initial) is None {
        Verdict::InvalidConsonant
    } else if initial.len() > 0 && !pad_na_ok(pad_group(initial).unwrap(), na_group(vowel).unwrap()) {
        Verdict::PhonotacticViolation
    } else if fin.len() > 0 && pac_group(fin) is None {
        Verdict::InvalidConsonant
    } else if fin.len() > 0 && !na_pac_ok(na_group(vowel).unwrap(), pac_group(fin).unwrap()) {
        Verdict::PhonotacticViolation
    } else if !valid_tone_final_spec(tone, fin) {
        Verdict::InvalidTonePlacement
    } else {
        Verdict::Valid
    }
}

/// The structure check of a syllable.
pub open spec fn syllable_structure_verdict(s: &Syllable) -> Verdict {
    structure_verdict(s.initial_spec(), s.vowel_spec(), s.final_spec(), s.tone_spec())
}

fn text(s: &str) -> (r: String)
    ensures
        r@ == s@,
{
    s.to_owned()
}

/// Validator of syllable structure by the PAD / NA / PAC groups and their compatibility.
#[derive(Debug, Clone, Copy, Default)]
pub struct SyllableStructureValidator;

impl SyllableStructureValidator {
    pub fn new() -> (r: SyllableStructureValidator) {
        SyllableStructureValidator
    }

    /// Checks, in order: a vowel nucleus is present; it belongs to an NA group; the initial,
    /// if any, belongs to a PAD group that may precede that NA group; the final, if any,
    /// belongs to a PAC group that may follow it; stop finals take only sắc or nặng.
    pub fn validate(&self, syllable: &Syllable) -> (r: ValidationResult)
        ensures
            r.verdict() == syllable_structure_verdict(syllable),
            r.error matches Some(ValidationError::InvalidVowel { vowel, .. }) ==> vowel@ == syllable.vowel_spec(),
            r.error matches Some(ValidationError::InvalidConsonant { consonant, .. }) ==>
                consonant@ == syllable.initial_spec() || consonant@ == syllable.final_spec(),
    {
        if !has_vowel(syllable) {
            return ValidationResult::invalid(ValidationError::Empty);
        }
        let initial = syllable.initial().as_str();
        let vowel = syllable.vowel().as_str();
        let final_c = syllable.final_consonant().as_str();
        let iv = str_chars(initial);
        let vv = str_chars(vowel);
        let fv = str_chars(final_c);

        let na = match find_na_group(vv.as_slice()) {
            Some(g) => g,
            None => {
                return ValidationResult::invalid(ValidationError::InvalidVowel {
                    vowel: text(vowel),
                    context: text("vowel not found in any NA group"),
                });
            },
        };

        if iv.len() > 0 {
            let pad = match find_pad_group(iv.as_slice()) {
                Some(g) => g,
                None => {
                    return ValidationResult::invalid(ValidationError::InvalidConsonant {
                        consonant: text(initial),
                        context: text("initial consonant not found in any PAD group"),
                    });
                },
            };
            if !pad_na_allowed(pad, na) {
                let p = digit_string(pad);
                let n = digit_string(na);
                let mut rule = concat3("PAD.", p.as_str(), " cannot precede NA.");
                rule.append(n.as_str());
                let mut context = concat3("initial='", initial, "' vowel='");
                context.append(vowel);
                context.append("'");
                return ValidationResult::invalid(ValidationError::PhonotacticViolation { rule, context });
            }
        }

        if fv.len() > 0 {
            let pac = match find_pac_group(fv.as_slice()) {
                Some(g) => g,
                None => {
                    return ValidationResult::invalid(ValidationError::InvalidConsonant {
                        consonant: text(final_c),
                        context: text("final consonant not found in any PAC group"),
                    });
                },
            };
            if !na_pac_allowed(na, pac) {
                let n = digit_string(na);
                let rule = if na == 4 || na == 5 {
                    concat3("NA.", n.as_str(), " does not allow final consonants")
                } else {
                    let c = digit_string(pac);
                    let mut rule = concat3("NA.", n.as_str(), " cannot be followed by PAC.");
                    rule.append(c.as_str());
                    rule
                };
                let mut context = concat3("vowel='", vowel, "' final='");
                context.append(final_c);
                context.append("'");
                return ValidationResult::invalid(ValidationError::PhonotacticViolation { rule, context });
            }
        }

        if !is_valid_tone_final(syllable.tone(), final_c) {
            let mut reason = concat3("stop consonant '", final_c, "' cannot have ");
            reason.append(tone_name(syllable.tone()));
            reason.append(" tone");
            return ValidationResult::invalid(ValidationError::InvalidTonePlacement {
                syllable: syllable.base_form(),
                reason,
            });
        }
        ValidationResult::valid()
    }

    /// `Ok` for a valid syllable, the validation error otherwise.
    pub fn validate_strict(&self, syllable: &Syllable) -> (r: Result<(), ValidationError>)
        ensures
            r is Ok <==> syllable_structure_verdict(syllable) == Verdict::Valid,
    {
        self.validate(syllable).into_result()
    }
}

/// Outcome of the rule-based check on a syllable.
pub open spec fn phonotactic_verdict(s: &Syllable) -> Verdict {
    if !has_vowel_spec(s) {
        Verdict::Empty
    } else if !valid_initial_spec(s.initial_spec()) {
        Verdict::InvalidConsonant
    } else if !valid_final_spec(s.final_spec()) {
        Verdict::InvalidConsonant
    } else if !valid_tone_final_spec(s.tone_spec(), s.final_spec()) {
        Verdict::InvalidTonePlacement
    } else {
        Verdict::Valid
    }
}

/// Rule-based validator: vowel present, valid initial, valid final, tone allowed with the final.
#[derive(Debug, Clone, Copy, Default)]
pub struct PhonotacticAdapter;

impl PhonotacticAdapter {
    pub fn new() -> (r: PhonotacticAdapter) {
        PhonotacticAdapter
    }

    pub fn validate(&self, syllable: &Syllable) -> (r: ValidationResult)
        ensures
            r.verdict() == phonotactic_verdict(syllable),
            r.error matches Some(ValidationError::InvalidConsonant { consonant, .. }) ==>
                (!valid_initial_spec(syllable.initial_spec()) && consonant@ == syllable.initial_spec())
                || (valid_initial_spec(syllable.initial_spec()) && consonant@ == syllable.final_spec()),
    {
        if !has_vowel(syllable) {
            return ValidationResult::invalid(ValidationError::Empty);
        }
        let initial = syllable.initial().as_str();
        if !is_valid_initial(initial) {
            return ValidationResult::invalid(ValidationError::InvalidConsonant {
                consonant: text(initial),
                context: text("Invalid initial consonant"),
            });
        }
        let final_c = syllable.final_consonant().as_str();
        if !is_valid_final(final_c) {
            return ValidationResult::invalid(ValidationError::InvalidConsonant {
                consonant: text(final_c),
                context: text("Invalid final consonant"),
            });
        }
        if !is_valid_tone_final(syllable.tone(), final_c) {
            let mut reason = concat3("Stop consonant '", final_c, "' cannot have ");
            reason.append(tone_name(syllable.tone()));
            reason.append(" tone");
            return ValidationResult::invalid(ValidationError::InvalidTonePlacement {
                syllable: syllable.base_form(),
                reason,
            });
        }
        ValidationResult::valid()
    }

    pub fn validate_strict(&self, syllable: &Syllable) -> (r: Result<(), ValidationError>)
        ensures
            r is Ok <==> phonotactic_verdict(syllable) == Verdict::Valid,
    {
        self.validate(syllable).into_result()
    }
}

/// The twelve vowel letters: a ă â e ê i o ô ơ u ư y.
pub open spec fn vowel_letter(c: char) -> bool {
    c == 'a' || c == 'ă' || c == 'â' || c == 'e' || c == 'ê' || c == 'i' || c == 'o' || c == 'ô' || c == 'ơ' || c == 'u' || c == 'ư' || c == 'y'
}

/// Vowels the off-glide i closes: ai oi ôi ơi ui ưi.
pub open spec fn closes_with_i(c: char) -> bool {
    c == 'a' || c == 'o' || c == 'ô' || c == 'ơ' || c == 'u' || c == 'ư'
}

/// Vowels the off-glide y closes: ay ây uy.
pub open spec fn closes_with_y(c: char) -> bool {
    c == 'a' || c == 'â' || c == 'u'
}

/// Vowels the off-glide u closes: au âu êu iu ưu.
pub open spec fn closes_with_u(c: char) -> bool {
    c == 'a' || c == 'â' || c == 'ê' || c == 'i' || c == 'ư'
}

/// Vowels the off-glide o closes: ao eo.
pub open spec fn closes_with_o(c: char) -> bool {
    c == 'a' || c == 'e'
}

/// Every nucleus the Vietnamese spelling builds from one vowel letter is a nucleus of the
/// tables: each vowel letter alone, and each vowel closed by the off-glide i, y, u or o where
/// the language closes it (so "tôi", "hay", "sâu", "kêu" and "leo" have a nucleus).
pub proof fn lemma_spelled_nuclei(c: char)
    ensures
        vowel_letter(c) ==> na_group(seq![c]) is Some,
        closes_with_i(c) ==> na_group(seq![c, 'i']) is Some,
        closes_with_y(c) ==> na_group(seq![c, 'y']) is Some,
        closes_with_u(c) ==> na_group(seq![c, 'u']) is Some,
        closes_with_o(c) ==> na_group(seq![c, 'o']) is Some,
{
    if vowel_letter(c) {
        if c == 'a' { assert(na_1()[0] =~= seq!['a']); }
        else if c == 'ă' { assert(na_2()[1] =~= seq!['ă']); }
        else if c == 'â' { assert(na_2()[0] =~= seq!['â']); }
        else if c == 'e' { assert(na_2()[2] =~= seq!['e']); }
        else if c == 'ê' { assert(na_0()[0] =~= seq!['ê']); }
        else if c == 'i' { assert(na_0()[1] =~= seq!['i']); }
        else if c == 'o' { assert(na_2()[3] =~= seq!['o']); }
        else if c == 'ô' { assert(na_2()[5] =~= seq!['ô']); }
        else if c == 'ơ' { assert(na_2()[6] =~= seq!['ơ']); }
        else if c == 'u' { assert(na_2()[8] =~= seq!['u']); }
        else if c == 'ư' { assert(na_2()[9] =~= seq!['ư']); }
        else if c == 'y' { assert(na_0()[5] =~= seq!['y']); }
    }
    if closes_with_i(c) {
        if c == 'a' { assert(na_5()[0] =~= seq!['a', 'i']); }
        else if c == 'o' { assert(na_5()[15] =~= seq!['o', 'i']); }
        else if c == 'ô' { assert(na_5()[16] =~= seq!['ô', 'i']); }
        else if c == 'ơ' { assert(na_5()[17] =~= seq!['ơ', 'i']); }
        else if c == 'u' { assert(na_5()[20] =~= seq!['u', 'i']); }
        else if c == 'ư' { assert(na_5()[21] =~= seq!['ư', 'i']); }
    }
    if closes_with_y(c) {
        if c == 'a' { assert(na_5()[4] =~= seq!['a', 'y']); }
        else if c == 'â' { assert(na_5()[5] =~= seq!['â', 'y']); }
        else if c == 'u' { assert(na_0()[4] =~= seq!['u', 'y']); }
    }
    if closes_with_u(c) {
        if c == 'a' { assert(na_5()[2] =~= seq!['a', 'u']); }
        else if c == 'â' { assert(na_5()[3] =~= seq!['â', 'u']); }
        else if c == 'ê' { assert(na_5()[7] =~= seq!['ê', 'u']); }
        else if c == 'i' { assert(na_5()[10] =~= seq!['i', 'u']); }
        else if c == 'ư' { assert(na_5()[25] =~= seq!['ư', 'u']); }
    }
    if closes_with_o(c) {
        if c == 'a' { assert(na_5()[1] =~= seq!['a', 'o']); }
        else if c == 'e' { assert(na_5()[6] =~= seq!['e', 'o']); }
    }
}

/// The nuclei with an on-glide or a diphthong first (oa oă oe oo ua uâ uê uy uô uơ ươ ưa iê ia
/// yê) and the three-vowel nuclei (oai oay oao oeo uây uôi ươi ươu uya uyu uyê iêu yêu) are
/// nuclei of the tables.
pub proof fn lemma_glide_nuclei()
    ensures
        na_group(seq!['o', 'a']) is Some,
        na_group(seq!['o', 'ă']) is Some,
        na_group(seq!['o', 'e']) is Some,
        na_group(seq!['o', 'o']) is Some,
        na_group(seq!['u', 'a']) is Some,
        na_group(seq!['u', 'â']) is Some,
        na_group(seq!['u', 'ê']) is Some,
        na_group(seq!['u', 'y']) is Some,
        na_group(seq!['u', 'ô']) is Some,
        na_group(seq!['u', 'ơ']) is Some,
        na_group(seq!['ư', 'ơ']) is Some,
        na_group(seq!['ư', 'a']) is Some,
        na_group(seq!['i', 'ê']) is Some,
        na_group(seq!['i', 'a']) is Some,
        na_group(seq!['y', 'ê']) is Some,
        na_group(seq!['o', 'a', 'i']) is Some,
        na_group(seq!['o', 'a', 'y']) is Some,
        na_group(seq!['o', 'a', 'o']) is Some,
        na_group(seq!['o', 'e', 'o']) is Some,
        na_group(seq!['u', 'â', 'y']) is Some,
        na_group(seq!['u', 'ô', 'i']) is Some,
        na_group(seq!['ư', 'ơ', 'i']) is Some,
        na_group(seq!['ư', 'ơ', 'u']) is Some,
        na_group(seq!['u', 'y', 'a']) is Some,
        na_group(seq!['u', 'y', 'u']) is Some,
        na_group(seq!['u', 'y', 'ê']) is Some,
        na_group(seq!['i', 'ê', 'u']) is Some,
        na_group(seq!['y', 'ê', 'u']) is Some,
{
    assert(na_1()[2] =~= seq!['o', 'a']);
    assert(na_3()[0] =~= seq!['o', 'ă']);
    assert(na_2()[7] =~= seq!['o', 'e']);
    assert(na_2()[4] =~= seq!['o', 'o']);
    assert(na_0()[2] =~= seq!['u', 'a']);
    assert(na_2()[10] =~= seq!['u', 'â']);
    assert(na_0()[3] =~= seq!['u', 'ê']);
    assert(na_0()[4] =~= seq!['u', 'y']);
    assert(na_2()[11] =~= seq!['u', 'ô']);
    assert(na_4()[0] =~= seq!['u', 'ơ']);
    assert(na_2()[12] =~= seq!['ư', 'ơ']);
    assert(na_5()[18] =~= seq!['ư', 'a']);
    assert(na_1()[1] =~= seq!['i', 'ê']);
    assert(na_5()[8] =~= seq!['i', 'a']);
    assert(na_1()[4] =~= seq!['y', 'ê']);
    assert(na_5()[11] =~= seq!['o', 'a', 'i']);
    assert(na_5()[13] =~= seq!['o', 'a', 'y']);
    assert(na_5()[12] =~= seq!['o', 'a', 'o']);
    assert(na_5()[14] =~= seq!['o', 'e', 'o']);
    assert(na_5()[19] =~= seq!['u', 'â', 'y']);
    assert(na_5()[22] =~= seq!['u', 'ô', 'i']);
    assert(na_5()[23] =~= seq!['ư', 'ơ', 'i']);
    assert(na_5()[24] =~= seq!['ư', 'ơ', 'u']);
    assert(na_5()[26] =~= seq!['u', 'y', 'a']);
    assert(na_5()[27] =~= seq!['u', 'y', 'u']);
    assert(na_1()[3] =~= seq!['u', 'y', 'ê']);
    assert(na_5()[9] =~= seq!['i', 'ê', 'u']);
    assert(na_5()[28] =~= seq!['y', 'ê', 'u']);
}

/// The consonant letters that begin a syllable alone: b c d đ g h k l m n p r s t v x.
pub open spec fn initial_letter(c: char) -> bool {
    c == 'b' || c == 'c' || c == 'd' || c == 'đ' || c == 'g' || c == 'h' || c == 'k' || c == 'l' || c == 'm' || c == 'n' || c == 'p' || c == 'r' || c == 's' || c == 't' || c == 'v' || c == 'x'
}

/// The consonant letters that end a syllable alone: c m n p t.
pub open spec fn final_letter(c: char) -> bool {
    c == 'c' || c == 'm' || c == 'n' || c == 'p' || c == 't'
}

/// Every initial and every final consonant of the Vietnamese spelling is one of the tables':
/// each single initial letter, each single final letter, the initials ch gh gi kh ng ngh nh ph qu
/// th tr and the finals ch ng nh.
pub proof fn lemma_spelled_consonants(c: char)
    ensures
        initial_letter(c) ==> pad_group(seq![c]) is Some,
        final_letter(c) ==> pac_group(seq![c]) is Some,
        pad_group(seq!['c', 'h']) is Some,
        pad_group(seq!['g', 'h']) is Some,
        pad_group(seq!['g', 'i']) is Some,
        pad_group(seq!['k', 'h']) is Some,
        pad_group(seq!['n', 'g']) is Some,
        pad_group(seq!['n', 'g', 'h']) is Some,
        pad_group(seq!['n', 'h']) is Some,
        pad_group(seq!['p', 'h']) is Some,
        pad_group(seq!['q', 'u']) is Some,
        pad_group(seq!['t', 'h']) is Some,
        pad_group(seq!['t', 'r']) is Some,
        pac_group(seq!['c', 'h']) is Some,
        pac_group(seq!['n', 'g']) is Some,
        pac_group(seq!['n', 'h']) is Some,
{
    if initial_letter(c) {
        if c == 'b' { assert(pad_0()[0] =~= seq!['b']); }
        else if c == 'c' { assert(pad_1()[0] =~= seq!['c']); }
        else if c == 'd' { assert(pad_0()[1] =~= seq!['d']); }
        else if c == 'đ' { assert(pad_0()[2] =~= seq!['đ']); }
        else if c == 'g' { assert(pad_0()[3] =~= seq!['g']); }
        else if c == 'h' { assert(pad_1()[1] =~= seq!['h']); }
        else if c == 'k' { assert(pad_1()[2] =~= seq!['k']); }
        else if c == 'l' { assert(pad_2()[2] =~= seq!['l']); }
        else if c == 'm' { assert(pad_0()[5] =~= seq!['m']); }
        else if c == 'n' { assert(pad_0()[6] =~= seq!['n']); }
        else if c == 'p' { assert(pad_0()[8] =~= seq!['p']); }
        else if c == 'r' { assert(pad_0()[10] =~= seq!['r']); }
        else if c == 's' { assert(pad_0()[11] =~= seq!['s']); }
        else if c == 't' { assert(pad_0()[12] =~= seq!['t']); }
        else if c == 'v' { assert(pad_0()[14] =~= seq!['v']); }
        else if c == 'x' { assert(pad_2()[5] =~= seq!['x']); }
    }
    if final_letter(c) {
        if c == 'c' { assert(pac_1()[0] =~= seq!['c']); }
        else if c == 'm' { assert(pac_2()[0] =~= seq!['m']); }
        else if c == 'n' { assert(pac_2()[1] =~= seq!['n']); }
        else if c == 'p' { assert(pac_2()[2] =~= seq!['p']); }
        else if c == 't' { assert(pac_2()[3] =~= seq!['t']); }
    }
    assert(pad_2()[0] =~= seq!['c', 'h']);
    assert(pad_0()[4] =~= seq!['g', 'h']);
    assert(pad_2()[1] =~= seq!['g', 'i']);
    assert(pad_1()[3] =~= seq!['k', 'h']);
    assert(pad_2()[3] =~= seq!['n', 'g']);
    assert(pad_2()[4] =~= seq!['n', 'g', 'h']);
    assert(pad_0()[7] =~= seq!['n', 'h']);
    assert(pad_0()[9] =~= seq!['p', 'h']);
    assert(pad_1()[4] =~= seq!['q', 'u']);
    assert(pad_1()[5] =~= seq!['t', 'h']);
    assert(pad_0()[13] =~= seq!['t', 'r']);
    assert(pac_0()[0] =~= seq!['c', 'h']);
    assert(pac_1()[1] =~= seq!['n', 'g']);
    assert(pac_0()[1] =~= seq!['n', 'h']);
}

}
