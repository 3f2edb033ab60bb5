use goxviet_core::buffer::{Buffer, Char};
use goxviet_core::chars;
use goxviet_core::keys;
use goxviet_core::tone_positioning::{
    find_mark_position, is_diacritic_vowel, reposition_mark, Modifier, Vowel,
};

/// Buffer of plain characters for the letters of `s`.
fn setup_buffer(s: &str) -> Buffer {
    let mut buf = Buffer::new();
    for ch in s.chars() {
        if let Some(key) = keys::letter_key(ch.to_ascii_lowercase()) {
            buf.push(Char::new(key, ch.is_uppercase()));
        }
    }
    buf
}

/// Vowel with the modifier of a tone value.
fn vowel_with_modifier(key: u16, modifier_type: u8, pos: usize) -> Vowel {
    let modifier = match modifier_type {
        chars::TONE_CIRCUMFLEX => Modifier::Circumflex,
        chars::TONE_HORN => Modifier::Horn,
        _ => Modifier::Plain,
    };
    Vowel { key, modifier, pos }
}


#[test]
fn test_rule1_diacritic_priority_circumflex() {
    // Test: iê cluster → mark on ê (has circumflex)
    let vowels = vec![
        vowel_with_modifier(keys::I, chars::TONE_NONE, 1),
        vowel_with_modifier(keys::E, chars::TONE_CIRCUMFLEX, 2),
    ];

    let pos = find_mark_position(&vowels, false);
    assert_eq!(pos, 2, "Mark should be on ê (Rule 1: diacritic priority)");
}

#[test]
fn test_rule1_diacritic_priority_horn() {
    // Test: uô cluster → mark on ô
    let vowels = vec![
        vowel_with_modifier(keys::U, chars::TONE_NONE, 1),
        vowel_with_modifier(keys::O, chars::TONE_CIRCUMFLEX, 2),
    ];

    let pos = find_mark_position(&vowels, false);
    assert_eq!(pos, 2, "Mark should be on ô (Rule 1: diacritic priority)");
}

#[test]
fn test_rule1_triphthong_with_diacritic() {
    // Test: ươi cluster → mark on ơ (middle has diacritic, both ư and ơ have horn)
    // When multiple diacritics in triphthong, prefer middle
    let vowels = vec![
        vowel_with_modifier(keys::U, chars::TONE_HORN, 0), // ư
        vowel_with_modifier(keys::O, chars::TONE_HORN, 1), // ơ
        vowel_with_modifier(keys::I, chars::TONE_NONE, 2),
    ];

    let pos = find_mark_position(&vowels, false);
    assert_eq!(
        pos, 1,
        "Mark should be on ơ (middle diacritic in triphthong)"
    );
}

#[test]
fn test_rule2_second_vowel_no_diacritic() {
    // Test: oa cluster (no diacritics) → mark on a (second)
    let vowels = vec![
        vowel_with_modifier(keys::O, chars::TONE_NONE, 1),
        vowel_with_modifier(keys::A, chars::TONE_NONE, 2),
    ];

    let pos = find_mark_position(&vowels, false);
    assert_eq!(pos, 2, "Mark should be on a (Rule 2: second vowel)");
}

#[test]
fn test_rule2_ai_cluster() {
    // Test: ai cluster → mark on i
    let vowels = vec![
        vowel_with_modifier(keys::A, chars::TONE_NONE, 0),
        vowel_with_modifier(keys::I, chars::TONE_NONE, 1),
    ];

    let pos = find_mark_position(&vowels, false);
    assert_eq!(pos, 1, "Mark should be on i (Rule 2: second vowel)");
}

#[test]
fn test_rule2_uy_cluster() {
    // Test: uy cluster → mark on y
    let vowels = vec![
        vowel_with_modifier(keys::U, chars::TONE_NONE, 0),
        vowel_with_modifier(keys::Y, chars::TONE_NONE, 1),
    ];

    let pos = find_mark_position(&vowels, false);
    assert_eq!(pos, 1, "Mark should be on y (Rule 2: second vowel)");
}

#[test]
fn test_single_vowel() {
    // Test: single vowel → mark on it
    let vowels = vec![vowel_with_modifier(keys::A, chars::TONE_NONE, 0)];

    let pos = find_mark_position(&vowels, false);
    assert_eq!(pos, 0, "Mark should be on single vowel");
}

#[test]
fn test_is_diacritic_vowel() {
    // Test circumflex diacritics
    assert!(
        is_diacritic_vowel(keys::A, &Modifier::Circumflex),
        "â is diacritic"
    );
    assert!(
        is_diacritic_vowel(keys::E, &Modifier::Circumflex),
        "ê is diacritic"
    );
    assert!(
        is_diacritic_vowel(keys::O, &Modifier::Circumflex),
        "ô is diacritic"
    );

    // Test horn/breve diacritics
    assert!(
        is_diacritic_vowel(keys::A, &Modifier::Horn),
        "ă is diacritic"
    );
    assert!(
        is_diacritic_vowel(keys::O, &Modifier::Horn),
        "ơ is diacritic"
    );
    assert!(
        is_diacritic_vowel(keys::U, &Modifier::Horn),
        "ư is diacritic"
    );

    // Test non-diacritics
    assert!(
        !is_diacritic_vowel(keys::A, &Modifier::Plain),
        "a is not diacritic"
    );
    assert!(
        !is_diacritic_vowel(keys::I, &Modifier::Plain),
        "i is not diacritic"
    );
    assert!(
        !is_diacritic_vowel(keys::I, &Modifier::Circumflex),
        "i with ^ is invalid"
    );
}

#[test]
fn test_reposition_mark_after_tone_change() {
    // Simulate: "vie" + s → "vié", then + e → "viê" + s → "viết"
    let mut buf = setup_buffer("vie");

    // Add tone to 'e' to make 'ê'
    buf.set_tone(2, chars::TONE_CIRCUMFLEX); // e → ê

    // Add mark to first vowel 'i' (simulating wrong position)
    buf.set_mark(1, chars::MARK_SAC);

    // Reposition should move mark from 'i' to 'ê'
    let result = reposition_mark(&mut buf);
    assert!(result.is_some(), "Mark should be repositioned");

    let (old_pos, new_pos) = result.unwrap();
    assert_eq!(old_pos, 1, "Mark was on i (pos 1)");
    assert_eq!(new_pos, 2, "Mark moved to ê (pos 2)");

    // Verify final state
    assert_eq!(buf.get(1).unwrap().mark, 0, "i should have no mark");
    assert_eq!(buf.get(2).unwrap().mark, chars::MARK_SAC, "ê should have mark");
}

#[test]
fn test_reposition_no_change_needed() {
    // Test: mark already in correct position
    let mut buf = setup_buffer("hoa");

    // Add mark to 'a' (already correct position by Rule 2)
    buf.set_mark(2, chars::MARK_SAC);

    let result = reposition_mark(&mut buf);
    assert!(
        result.is_none(),
        "No repositioning needed when already correct"
    );
}

#[test]
fn four_vowels_without_diacritic_use_middle() {
    let vowels = vec![
        vowel_with_modifier(keys::U, chars::TONE_NONE, 3),
        vowel_with_modifier(keys::O, chars::TONE_NONE, 4),
        vowel_with_modifier(keys::A, chars::TONE_NONE, 5),
        vowel_with_modifier(keys::I, chars::TONE_NONE, 6),
    ];
    assert_eq!(find_mark_position(&vowels, false), 5);
    assert_eq!(find_mark_position(&[], true), 0);
}

#[test]
fn triphthong_last_diacritic_when_middle_plain() {
    // u y ê: only ê carries a diacritic.
    let vowels = vec![
        vowel_with_modifier(keys::U, chars::TONE_NONE, 1),
        vowel_with_modifier(keys::Y, chars::TONE_NONE, 2),
        vowel_with_modifier(keys::E, chars::TONE_CIRCUMFLEX, 3),
    ];
    assert_eq!(find_mark_position(&vowels, true), 3);
}

#[test]
fn reposition_without_mark_or_vowel() {
    let mut buf = setup_buffer("hoa");
    assert_eq!(reposition_mark(&mut buf), None);
    let mut buf = setup_buffer("nh");
    buf.set_mark(0, chars::MARK_SAC);
    assert_eq!(reposition_mark(&mut buf), None);
    assert_eq!(buf.get(0).unwrap().mark, chars::MARK_SAC);
}

#[test]
fn reposition_settles_after_one_move() {
    let mut buf = setup_buffer("hoa");
    buf.set_mark(1, chars::MARK_HUYEN);
    assert_eq!(reposition_mark(&mut buf), Some((1, 2)));
    assert_eq!(buf.get(2).unwrap().mark, chars::MARK_HUYEN);
    assert_eq!(reposition_mark(&mut buf), None);
    assert_eq!(buf.get(2).unwrap().mark, chars::MARK_HUYEN);
}
