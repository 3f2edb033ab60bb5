//! Vietnamese letters: base key, tone modifier (circumflex / horn-breve), tone mark, case.

use vstd::prelude::*;
use crate::keys;

verus! {

/// No tone modifier.
pub const TONE_NONE: u8 = 0;
/// Circumflex: â ê ô.
pub const TONE_CIRCUMFLEX: u8 = 1;
/// Horn (ơ ư) or breve (ă).
pub const TONE_HORN: u8 = 2;

/// No tone mark (thanh ngang).
pub const MARK_NONE: u8 = 0;
/// Sắc.
pub const MARK_SAC: u8 = 1;
/// Huyền.
pub const MARK_HUYEN: u8 = 2;
/// Hỏi.
pub const MARK_HOI: u8 = 3;
/// Ngã.
pub const MARK_NGA: u8 = 4;
/// Nặng.
pub const MARK_NANG: u8 = 5;

/// A character split into its parts.
#[derive(Debug, Clone, Copy, PartialEq, Eq, Structural)]
pub struct CharInfo {
    pub key: u16,
    pub caps: bool,
    pub tone: u8,
    pub mark: u8,
    pub stroke: bool,
}

/// The 144 marked vowels: lowercase rows first, then uppercase rows;
/// each row holds one base vowel with the six tone marks in order.
#[verifier::opaque]
pub open spec fn vowel_table() -> Seq<char> {
    seq![
        'a', 'á', 'à', 'ả', 'ã', 'ạ', 'â', 'ấ', 'ầ', 'ẩ', 'ẫ', 'ậ',
        'ă', 'ắ', 'ằ', 'ẳ', 'ẵ', 'ặ', 'e', 'é', 'è', 'ẻ', 'ẽ', 'ẹ',
        'ê', 'ế', 'ề', 'ể', 'ễ', 'ệ', 'i', 'í', 'ì', 'ỉ', 'ĩ', 'ị',
        'o', 'ó', 'ò', 'ỏ', 'õ', 'ọ', 'ô', 'ố', 'ồ', 'ổ', 'ỗ', 'ộ',
        'ơ', 'ớ', 'ờ', 'ở', 'ỡ', 'ợ', 'u', 'ú', 'ù', 'ủ', 'ũ', 'ụ',
        'ư', 'ứ', 'ừ', 'ử', 'ữ', 'ự', 'y', 'ý', 'ỳ', 'ỷ', 'ỹ', 'ỵ',
        'A', 'Á', 'À', 'Ả', 'Ã', 'Ạ', 'Â', 'Ấ', 'Ầ', 'Ẩ', 'Ẫ', 'Ậ',
        'Ă', 'Ắ', 'Ằ', 'Ẳ', 'Ẵ', 'Ặ', 'E', 'É', 'È', 'Ẻ', 'Ẽ', 'Ẹ',
        'Ê', 'Ế', 'Ề', 'Ể', 'Ễ', 'Ệ', 'I', 'Í', 'Ì', 'Ỉ', 'Ĩ', 'Ị',
        'O', 'Ó', 'Ò', 'Ỏ', 'Õ', 'Ọ', 'Ô', 'Ố', 'Ồ', 'Ổ', 'Ỗ', 'Ộ',
        'Ơ', 'Ớ', 'Ờ', 'Ở', 'Ỡ', 'Ợ', 'U', 'Ú', 'Ù', 'Ủ', 'Ũ', 'Ụ',
        'Ư', 'Ứ', 'Ừ', 'Ử', 'Ữ', 'Ự', 'Y', 'Ý', 'Ỳ', 'Ỷ', 'Ỹ', 'Ỵ',
    ]
}

/// Base key of a table row.
pub open spec fn row_key(row: int) -> u16 {
    if row <= 2 { keys::A } else if row <= 4 { keys::E } else if row == 5 { keys::I }
    else if row <= 8 { keys::O } else if row <= 10 { keys::U } else { keys::Y }
}

/// Tone modifier of a table row.
pub open spec fn row_tone(row: int) -> u8 {
    if row == 1 || row == 4 || row == 7 { TONE_CIRCUMFLEX }
    else if row == 2 || row == 8 || row == 10 { TONE_HORN }
    else { TONE_NONE }
}

/// Table row of a vowel key with a tone modifier, if that combination exists.
pub open spec fn row_of(key: u16, tone: u8) -> Option<int> {
    if key == keys::A && tone == TONE_NONE { Some(0) }
    else if key == keys::A && tone == TONE_CIRCUMFLEX { Some(1) }
    else if key == keys::A && tone == TONE_HORN { Some(2) }
    else if key == keys::E && tone == TONE_NONE { Some(3) }
    else if key == keys::E && tone == TONE_CIRCUMFLEX { Some(4) }
    else if key == keys::I && tone == TONE_NONE { Some(5) }
    else if key == keys::O && tone == TONE_NONE { Some(6) }
    else if key == keys::O && tone == TONE_CIRCUMFLEX { Some(7) }
    else if key == keys::O && tone == TONE_HORN { Some(8) }
    else if key == keys::U && tone == TONE_NONE { Some(9) }
    else if key == keys::U && tone == TONE_HORN { Some(10) }
    else if key == keys::Y && tone == TONE_NONE { Some(11) }
    else { None }
}

/// The character for a key, case, tone modifier and tone mark.
pub open spec fn to_char_spec(key: u16, caps: bool, tone: u8, mark: u8) -> Option<char> {
    match row_of(key, tone) {
        Some(row) => if mark <= MARK_NANG {
            Some(vowel_table()[(if caps { 72int } else { 0int }) + row * 6 + mark])
        } else {
            None
        },
        None => if tone == TONE_NONE && mark == MARK_NONE && keys::letter_of(key) is Some {
            keys::key_char_spec(key, caps)
        } else {
            None
        },
    }
}

/// The character a `CharInfo` stands for (đ / Đ when stroked).
pub open spec fn render(info: CharInfo) -> Option<char> {
    if info.stroke {
        if info.key == keys::D && info.tone == TONE_NONE && info.mark == MARK_NONE {
            Some(if info.caps { 'Đ' } else { 'đ' })
        } else {
            None
        }
    } else {
        to_char_spec(info.key, info.caps, info.tone, info.mark)
    }
}

/// Parts of the table entry at index `i`.
pub open spec fn info_at(i: int) -> CharInfo {
    let row = (i % 72) / 6;
    CharInfo {
        key: row_key(row),
        caps: i >= 72,
        tone: row_tone(row),
        mark: (i % 6) as u8,
        stroke: false,
    }
}

/// First index at or after `i` where the table holds `c` (144 when none).
pub open spec fn find_from(c: char, i: int) -> int
    decreases 144 - i,
{
    if i >= 144 || i < 0 {
        144
    } else if vowel_table()[i] == c {
        i
    } else {
        find_from(c, i + 1)
    }
}

/// How a character splits into parts, if it is a Vietnamese or ASCII letter.
pub open spec fn parse_spec(c: char) -> Option<CharInfo> {
    let k = find_from(c, 0);
    if k < 144 {
        Some(info_at(k))
    } else if c == 'đ' || c == 'Đ' {
        Some(CharInfo { key: keys::D, caps: c == 'Đ', tone: TONE_NONE, mark: MARK_NONE, stroke: true })
    } else {
        match keys::key_of_letter(c) {
            Some(k) => Some(CharInfo { key: k, caps: 'A' <= c <= 'Z', tone: TONE_NONE, mark: MARK_NONE, stroke: false }),
            None => None,
        }
    }
}

proof fn lemma_find_from(c: char, i: int)
    requires
        0 <= i <= 144,
    ensures
        i <= find_from(c, i) <= 144,
        find_from(c, i) < 144 ==> vowel_table()[find_from(c, i)] == c,
    decreases 144 - i,
{
    if i < 144 && vowel_table()[i] != c {
        lemma_find_from(c, i + 1);
    }
}

proof fn lemma_find_from_le(c: char, i: int, j: int)
    requires
        0 <= i <= j < 144,
        vowel_table()[j] == c,
    ensures
        find_from(c, i) <= j,
    decreases j - i,
{
    if vowel_table()[i] != c {
        lemma_find_from_le(c, i + 1, j);
    }
}

/// Plain ASCII vowels sit in the table with no modifier and no mark.
proof fn lemma_ascii_vowels_in_table(c: char)
    requires
        keys::key_of_letter(c) is Some,
        row_of(keys::key_of_letter(c).unwrap(), TONE_NONE) is Some,
    ensures
        find_from(c, 0) < 144,
{
    reveal(vowel_table);
    let t = vowel_table();
    let l = keys::lower_spec(c);
    let up: int = if 'A' <= c <= 'Z' { 72 } else { 0 };
    let j: int = if l == 'a' { up } else if l == 'e' { up + 18 } else if l == 'i' { up + 30 }
        else if l == 'o' { up + 36 } else if l == 'u' { up + 54 } else { up + 66 };
    assert(t[j] == c);
    lemma_find_from_le(c, 0, j);
}

/// Reading a character's parts and writing them back gives the same character.
pub proof fn lemma_parse_render(c: char)
    requires
        parse_spec(c) is Some,
    ensures
        render(parse_spec(c).unwrap()) == Some(c),
{
    lemma_find_from(c, 0);
    let k = find_from(c, 0);
    if k < 144 {
        let row = (k % 72) / 6;
        assert(0 <= row < 12);
        assert(vowel_table().len() == 144) by { reveal(vowel_table); }
        assert(row_of(row_key(row), row_tone(row)) == Some(row));
        assert((if k >= 72 { 72int } else { 0int }) + row * 6 + k % 6 == k);
    } else if c != 'đ' && c != 'Đ' {
        let key = keys::key_of_letter(c).unwrap();
        if row_of(key, TONE_NONE) is Some {
            lemma_ascii_vowels_in_table(c);
        }
    }
}

fn table() -> (r: [char; 144])
    ensures
        r@ == vowel_table(),
{
    let r = [
        'a', 'á', 'à', 'ả', 'ã', 'ạ', 'â', 'ấ', 'ầ', 'ẩ', 'ẫ', 'ậ',
        'ă', 'ắ', 'ằ', 'ẳ', 'ẵ', 'ặ', 'e', 'é', 'è', 'ẻ', 'ẽ', 'ẹ',
        'ê', 'ế', 'ề', 'ể', 'ễ', 'ệ', 'i', 'í', 'ì', 'ỉ', 'ĩ', 'ị',
        'o', 'ó', 'ò', 'ỏ', 'õ', 'ọ', 'ô', 'ố', 'ồ', 'ổ', 'ỗ', 'ộ',
        'ơ', 'ớ', 'ờ', 'ở', 'ỡ', 'ợ', 'u', 'ú', 'ù', 'ủ', 'ũ', 'ụ',
        'ư', 'ứ', 'ừ', 'ử', 'ữ', 'ự', 'y', 'ý', 'ỳ', 'ỷ', 'ỹ', 'ỵ',
        'A', 'Á', 'À', 'Ả', 'Ã', 'Ạ', 'Â', 'Ấ', 'Ầ', 'Ẩ', 'Ẫ', 'Ậ',
        'Ă', 'Ắ', 'Ằ', 'Ẳ', 'Ẵ', 'Ặ', 'E', 'É', 'È', 'Ẻ', 'Ẽ', 'Ẹ',
        'Ê', 'Ế', 'Ề', 'Ể', 'Ễ', 'Ệ', 'I', 'Í', 'Ì', 'Ỉ', 'Ĩ', 'Ị',
        'O', 'Ó', 'Ò', 'Ỏ', 'Õ', 'Ọ', 'Ô', 'Ố', 'Ồ', 'Ổ', 'Ỗ', 'Ộ',
        'Ơ', 'Ớ', 'Ờ', 'Ở', 'Ỡ', 'Ợ', 'U', 'Ú', 'Ù', 'Ủ', 'Ũ', 'Ụ',
        'Ư', 'Ứ', 'Ừ', 'Ử', 'Ữ', 'Ự', 'Y', 'Ý', 'Ỳ', 'Ỷ', 'Ỹ', 'Ỵ',
    ];
    assert(r@ =~= vowel_table()) by {
        reveal(vowel_table);
    }
    r
}

/// Table row of a vowel key with a tone modifier.
pub fn row_index(key: u16, tone: u8) -> (r: Option<usize>)
    ensures
        match r {
            Some(x) => row_of(key, tone) == Some(x as int),
            None => row_of(key, tone) is None,
        },
{
    if key == keys::A && tone == TONE_NONE { Some(0) }
    else if key == keys::A && tone == TONE_CIRCUMFLEX { Some(1) }
    else if key == keys::A && tone == TONE_HORN { Some(2) }
    else if key == keys::E && tone == TONE_NONE { Some(3) }
    else if key == keys::E && tone == TONE_CIRCUMFLEX { Some(4) }
    else if key == keys::I && tone == TONE_NONE { Some(5) }
    else if key == keys::O && tone == TONE_NONE { Some(6) }
    else if key == keys::O && tone == TONE_CIRCUMFLEX { Some(7) }
    else if key == keys::O && tone == TONE_HORN { Some(8) }
    else if key == keys::U && tone == TONE_NONE { Some(9) }
    else if key == keys::U && tone == TONE_HORN { Some(10) }
    else if key == keys::Y && tone == TONE_NONE { Some(11) }
    else { None }
}

fn row_key_exec(row: usize) -> (r: u16)
    ensures
        r == row_key(row as int),
{
    if row <= 2 { keys::A } else if row <= 4 { keys::E } else if row == 5 { keys::I }
    else if row <= 8 { keys::O } else if row <= 10 { keys::U } else { keys::Y }
}

fn row_tone_exec(row: usize) -> (r: u8)
    ensures
        r == row_tone(row as int),
{
    if row == 1 || row == 4 || row == 7 { TONE_CIRCUMFLEX }
    else if row == 2 || row == 8 || row == 10 { TONE_HORN }
    else { TONE_NONE }
}

/// Build a character from key, case, tone modifier and tone mark.
pub fn to_char(key: u16, caps: bool, tone: u8, mark: u8) -> (r: Option<char>)
    ensures
        r == to_char_spec(key, caps, tone, mark),
{
    match row_index(key, tone) {
        Some(row) => {
            if mark <= MARK_NANG {
                let t = table();
                let base: usize = if caps { 72 } else { 0 };
                Some(t[base + row * 6 + mark as usize])
            } else {
                None
            }
        },
        None => {
            if tone == TONE_NONE && mark == MARK_NONE && keys::letter(key).is_some() {
                keys::key_to_char(key, caps)
            } else {
                None
            }
        },
    }
}

/// Split a character into key, case, tone modifier, tone mark and stroke.
pub fn parse_char(c: char) -> (r: Option<CharInfo>)
    ensures
        r == parse_spec(c),
{
    let t = table();
    let mut i: usize = 0;
    while i < 144
        invariant
            i <= 144,
            t@ == vowel_table(),
            find_from(c, 0) == find_from(c, i as int),
        decreases 144 - i,
    {
        if t[i] == c {
            let row = (i % 72) / 6;
            return Some(CharInfo {
                key: row_key_exec(row),
                caps: i >= 72,
                tone: row_tone_exec(row),
                mark: (i % 6) as u8,
                stroke: false,
            });
        }
        i = i + 1;
    }
    if c == 'đ' || c == 'Đ' {
        return Some(CharInfo { key: keys::D, caps: c == 'Đ', tone: TONE_NONE, mark: MARK_NONE, stroke: true });
    }
    match keys::letter_key(c) {
        Some(k) => Some(CharInfo { key: k, caps: 'A' <= c && c <= 'Z', tone: TONE_NONE, mark: MARK_NONE, stroke: false }),
        None => None,
    }
}

/// No character occurs twice in the vowel table.
#[verifier::rlimit(100)]
/// A letter with no modifier and no tone mark is the character of its key.
pub proof fn lemma_plain_char(key: u16, caps: bool)
    requires
        keys::letter_of(key) is Some,
    ensures
        to_char_spec(key, caps, TONE_NONE, MARK_NONE) == keys::key_char_spec(key, caps),
{
    reveal(vowel_table);
}

proof fn lemma_table_distinct()
    ensures
        forall|i: int, j: int| 0 <= i < j < 144 ==> vowel_table()[i] != vowel_table()[j],
{
    reveal(vowel_table);
}

/// No ASCII consonant letter is in the vowel table.
#[verifier::rlimit(100)]
proof fn lemma_consonants_not_in_table(c: char)
    requires
        keys::key_of_letter(c) is Some,
        row_of(keys::key_of_letter(c).unwrap(), TONE_NONE) is None,
    ensures
        forall|i: int| 0 <= i < 144 ==> vowel_table()[i] != c,
{
    reveal(vowel_table);
}

/// Writing a character from its parts and reading it back gives the same parts.
pub proof fn lemma_render_parse(key: u16, caps: bool, tone: u8, mark: u8)
    requires
        to_char_spec(key, caps, tone, mark) is Some,
    ensures
        parse_spec(to_char_spec(key, caps, tone, mark).unwrap())
            == Some(CharInfo { key, caps, tone, mark, stroke: false }),
{
    let c = to_char_spec(key, caps, tone, mark).unwrap();
    assert(vowel_table().len() == 144) by { reveal(vowel_table); }
    match row_of(key, tone) {
        Some(row) => {
            let idx = (if caps { 72int } else { 0int }) + row * 6 + mark;
            assert(0 <= row < 12);
            assert(vowel_table()[idx] == c);
            lemma_find_from(c, 0);
            lemma_find_from_le(c, 0, idx);
            lemma_table_distinct();
            let k = find_from(c, 0);
            if k != idx {
                assert(vowel_table()[k] == vowel_table()[idx]);
            }
            assert((idx % 72) / 6 == row);
            assert(idx % 6 == mark);
        },
        None => {
            keys::lemma_letter_roundtrip(key, caps);
            let l = keys::key_of_letter(c).unwrap();
            assert(l == key);
            lemma_consonants_not_in_table(c);
            lemma_find_from(c, 0);
            if find_from(c, 0) < 144 {
                assert(vowel_table()[find_from(c, 0)] == c);
            }
        },
    }
}

}
