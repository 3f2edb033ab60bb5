use goxviet_core::chars::{parse_char, to_char, CharInfo, MARK_HUYEN, MARK_NANG, MARK_NONE, MARK_SAC, TONE_CIRCUMFLEX, TONE_HORN, TONE_NONE};
use goxviet_core::keys;

#[test]
fn to_char_builds_marked_vowels() {
    assert_eq!(to_char(keys::E, false, TONE_CIRCUMFLEX, MARK_NANG), Some('ệ'));
    assert_eq!(to_char(keys::U, false, TONE_HORN, MARK_HUYEN), Some('ừ'));
    assert_eq!(to_char(keys::A, true, TONE_HORN, MARK_SAC), Some('Ắ'));
    assert_eq!(to_char(keys::O, false, TONE_NONE, MARK_NONE), Some('o'));
    assert_eq!(to_char(keys::T, true, TONE_NONE, MARK_NONE), Some('T'));
}

#[test]
fn to_char_refuses_impossible_combinations() {
    assert_eq!(to_char(keys::I, false, TONE_CIRCUMFLEX, MARK_NONE), None);
    assert_eq!(to_char(keys::A, false, TONE_NONE, 6), None);
    assert_eq!(to_char(keys::T, false, TONE_NONE, MARK_SAC), None);
}

#[test]
fn parse_gives_back_what_to_char_built() {
    let cases = [
        (keys::E, false, TONE_CIRCUMFLEX, MARK_NANG),
        (keys::O, true, TONE_HORN, MARK_HUYEN),
        (keys::A, false, TONE_NONE, MARK_SAC),
        (keys::Y, true, TONE_NONE, MARK_NONE),
    ];
    for (key, caps, tone, mark) in cases {
        let c = to_char(key, caps, tone, mark).unwrap();
        assert_eq!(parse_char(c), Some(CharInfo { key, caps, tone, mark, stroke: false }));
    }
}

#[test]
fn parse_stroke_and_unknown() {
    assert_eq!(
        parse_char('Đ'),
        Some(CharInfo { key: keys::D, caps: true, tone: TONE_NONE, mark: MARK_NONE, stroke: true })
    );
    assert_eq!(parse_char('1'), None);
}
