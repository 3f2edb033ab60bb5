use goxviet_core::text::CharSequence;
use goxviet_core::transform::{MarkType, VietnameseMarkAdapter};


#[test]
fn test_apply_circumflex_to_a() {
    let adapter = VietnameseMarkAdapter::new();
    let text = CharSequence::from("a");
    let result = adapter.apply_mark(&text, MarkType::Circumflex, 0);

    assert!(result.is_modified());
    assert_eq!(result.new_text().as_str(), "â");
    assert_eq!(result.backspace_count(), 1);
}

#[test]
fn test_apply_circumflex_to_e() {
    let adapter = VietnameseMarkAdapter::new();
    let text = CharSequence::from("e");
    let result = adapter.apply_mark(&text, MarkType::Circumflex, 0);

    assert!(result.is_modified());
    assert_eq!(result.new_text().as_str(), "ê");
}

#[test]
fn test_apply_circumflex_to_o() {
    let adapter = VietnameseMarkAdapter::new();
    let text = CharSequence::from("o");
    let result = adapter.apply_mark(&text, MarkType::Circumflex, 0);

    assert!(result.is_modified());
    assert_eq!(result.new_text().as_str(), "ô");
}

#[test]
fn test_apply_horn_to_o() {
    let adapter = VietnameseMarkAdapter::new();
    let text = CharSequence::from("o");
    let result = adapter.apply_mark(&text, MarkType::Horn, 0);

    assert!(result.is_modified());
    assert_eq!(result.new_text().as_str(), "ơ");
}

#[test]
fn test_apply_horn_to_u() {
    let adapter = VietnameseMarkAdapter::new();
    let text = CharSequence::from("u");
    let result = adapter.apply_mark(&text, MarkType::Horn, 0);

    assert!(result.is_modified());
    assert_eq!(result.new_text().as_str(), "ư");
}

#[test]
fn test_apply_breve_to_a() {
    let adapter = VietnameseMarkAdapter::new();
    let text = CharSequence::from("a");
    let result = adapter.apply_mark(&text, MarkType::Breve, 0);

    assert!(result.is_modified());
    assert_eq!(result.new_text().as_str(), "ă");
}

#[test]
fn test_apply_mark_invalid_vowel() {
    let adapter = VietnameseMarkAdapter::new();
    // Cannot apply circumflex to 'i'
    let text = CharSequence::from("i");
    let result = adapter.apply_mark(&text, MarkType::Circumflex, 0);

    assert!(!result.is_modified());
    assert!(result.is_none());
}

#[test]
fn test_apply_mark_invalid_position() {
    let adapter = VietnameseMarkAdapter::new();
    let text = CharSequence::from("a");
    let result = adapter.apply_mark(&text, MarkType::Circumflex, 5);

    assert!(!result.is_modified());
    assert!(result.is_none());
}

#[test]
fn test_apply_horn_to_invalid_vowel() {
    let adapter = VietnameseMarkAdapter::new();
    // Cannot apply horn to 'a'
    let text = CharSequence::from("a");
    let result = adapter.apply_mark(&text, MarkType::Horn, 0);

    assert!(!result.is_modified());
    assert!(result.is_none());
}

#[test]
fn test_apply_breve_to_invalid_vowel() {
    let adapter = VietnameseMarkAdapter::new();
    // Cannot apply breve to 'e'
    let text = CharSequence::from("e");
    let result = adapter.apply_mark(&text, MarkType::Breve, 0);

    assert!(!result.is_modified());
    assert!(result.is_none());
}

#[test]
fn test_remove_mark_from_circumflex() {
    let adapter = VietnameseMarkAdapter::new();
    let text = CharSequence::from("â");
    let result = adapter.remove_mark(&text, 0);

    assert!(result.is_modified());
    assert_eq!(result.new_text().as_str(), "a");
}

#[test]
fn test_remove_mark_from_horn() {
    let adapter = VietnameseMarkAdapter::new();
    let text = CharSequence::from("ơ");
    let result = adapter.remove_mark(&text, 0);

    assert!(result.is_modified());
    assert_eq!(result.new_text().as_str(), "o");
}

#[test]
fn test_remove_mark_from_breve() {
    let adapter = VietnameseMarkAdapter::new();
    let text = CharSequence::from("ă");
    let result = adapter.remove_mark(&text, 0);

    assert!(result.is_modified());
    assert_eq!(result.new_text().as_str(), "a");
}

#[test]
fn test_remove_mark_no_modifier() {
    let adapter = VietnameseMarkAdapter::new();
    let text = CharSequence::from("a");
    let result = adapter.remove_mark(&text, 0);

    // No mark to remove
    assert!(!result.is_modified());
    assert!(result.is_none());
}

#[test]
fn test_preserve_tone_mark_when_applying_modifier() {
    let adapter = VietnameseMarkAdapter::new();
    // Apply circumflex to 'á' (a with tone mark)
    let text = CharSequence::from("á");
    let result = adapter.apply_mark(&text, MarkType::Circumflex, 0);

    assert!(result.is_modified());
    assert_eq!(result.new_text().as_str(), "ấ"); // Should preserve sac tone mark
}

#[test]
fn test_preserve_tone_mark_when_removing_modifier() {
    let adapter = VietnameseMarkAdapter::new();
    // Remove circumflex from 'ấ' (â with sac tone)
    let text = CharSequence::from("ấ");
    let result = adapter.remove_mark(&text, 0);

    assert!(result.is_modified());
    assert_eq!(result.new_text().as_str(), "á"); // Should preserve sac tone mark
}

#[test]
fn test_apply_mark_in_word() {
    let adapter = VietnameseMarkAdapter::new();
    let text = CharSequence::from("hoa");
    // Apply circumflex to 'o' at position 1
    let result = adapter.apply_mark(&text, MarkType::Circumflex, 1);

    assert!(result.is_modified());
    assert_eq!(result.new_text().as_str(), "hôa");
    assert_eq!(result.backspace_count(), 3);
}

#[test]
fn test_no_change_when_already_has_mark() {
    let adapter = VietnameseMarkAdapter::new();
    let text = CharSequence::from("â");
    // Try to apply circumflex again
    let result = adapter.apply_mark(&text, MarkType::Circumflex, 0);

    assert!(!result.is_modified());
    assert!(result.is_none());
}

#[test]
fn apply_then_remove_gives_back_the_text() {
    let adapter = VietnameseMarkAdapter::new();
    let text = CharSequence::from("Tọa");
    let applied = adapter.apply_mark(&text, MarkType::Circumflex, 1);
    assert_eq!(applied.new_text().as_str(), "Tộa");
    assert_eq!(applied.backspace_count(), 3);
    let removed = adapter.remove_mark(applied.new_text(), 1);
    assert_eq!(removed.new_text().as_str(), "Tọa");
}

#[test]
fn switch_horn_to_circumflex_and_skip_non_letters() {
    let adapter = VietnameseMarkAdapter::new();
    let result = adapter.apply_mark(&CharSequence::from("ơ"), MarkType::Circumflex, 0);
    assert_eq!(result.new_text().as_str(), "ô");
    assert!(adapter.apply_mark(&CharSequence::from("1"), MarkType::Horn, 0).is_none());
    assert!(adapter.remove_mark(&CharSequence::from("a"), 3).is_none());
    assert!(adapter.apply_mark(&CharSequence::from("ă"), MarkType::Breve, 0).is_none());
}
