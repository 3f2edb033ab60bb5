use goxviet_core::domain::ToneType;
use goxviet_core::syllable::Syllable;
use goxviet_core::transform::{ToneStrategy, VietnameseToneAdapter};


#[test]
fn test_apply_tone_single_vowel() {
    let adapter = VietnameseToneAdapter::default();
    let syllable = Syllable::from_parts("", "a", "", ToneType::Ngang);
    let result = adapter.apply_tone(&syllable, ToneType::Sac);

    assert!(result.is_modified());
    assert_eq!(result.new_text().as_str(), "á");
    assert_eq!(result.backspace_count(), 1);
}

#[test]
fn test_apply_tone_double_vowel_ie() {
    let adapter = VietnameseToneAdapter::new(ToneStrategy::Modern);
    let syllable = Syllable::from_parts("", "iê", "", ToneType::Ngang);
    let result = adapter.apply_tone(&syllable, ToneType::Sac);

    assert!(result.is_modified());
    assert_eq!(result.new_text().as_str(), "iế");
}

#[test]
fn test_apply_tone_hoa_modern() {
    let adapter = VietnameseToneAdapter::new(ToneStrategy::Modern);
    let syllable = Syllable::from_parts("h", "oa", "", ToneType::Ngang);
    let result = adapter.apply_tone(&syllable, ToneType::Sac);

    assert!(result.is_modified());
    assert_eq!(result.new_text().as_str(), "hoá");
    assert_eq!(result.backspace_count(), 3);
}

#[test]
fn test_remove_tone() {
    let adapter = VietnameseToneAdapter::default();
    let syllable = Syllable::from_parts("", "á", "", ToneType::Sac);
    let result = adapter.remove_tone(&syllable);

    assert!(result.is_modified());
    assert_eq!(result.new_text().as_str(), "a");
    assert_eq!(result.backspace_count(), 1);
}

#[test]
fn test_no_change_returns_none() {
    let adapter = VietnameseToneAdapter::default();
    // Already has the tone we're applying
    let syllable = Syllable::from_parts("", "á", "", ToneType::Sac);
    let result = adapter.apply_tone(&syllable, ToneType::Sac);

    assert!(!result.is_modified());
    assert!(result.is_none());
}

#[test]
fn test_empty_vowel_returns_none() {
    let adapter = VietnameseToneAdapter::default();
    let syllable = Syllable::from_parts("h", "", "ng", ToneType::Ngang);
    let result = adapter.apply_tone(&syllable, ToneType::Sac);

    assert!(!result.is_modified());
    assert!(result.is_none());
}

#[test]
fn test_strategy() {
    let adapter = VietnameseToneAdapter::new(ToneStrategy::Traditional);
    assert_eq!(adapter.strategy(), ToneStrategy::Traditional);

    let adapter = VietnameseToneAdapter::default();
    assert_eq!(adapter.strategy(), ToneStrategy::Modern);
}

#[test]
fn test_remove_tone_no_mark() {
    let adapter = VietnameseToneAdapter::default();
    let syllable = Syllable::from_parts("", "a", "", ToneType::Ngang);
    let result = adapter.remove_tone(&syllable);

    // No tone to remove, should return none
    assert!(!result.is_modified());
    assert!(result.is_none());
}

#[test]
fn test_preserve_tone_modifiers() {
    let adapter = VietnameseToneAdapter::default();
    // Test with â (has circumflex modifier)
    let syllable = Syllable::from_parts("", "â", "", ToneType::Ngang);
    let result = adapter.apply_tone(&syllable, ToneType::Sac);

    assert!(result.is_modified());
    assert_eq!(result.new_text().as_str(), "ấ"); // Should preserve circumflex

    // Remove tone should keep modifier
    let syllable_with_tone = Syllable::from_parts("", "ấ", "", ToneType::Sac);
    let result = adapter.remove_tone(&syllable_with_tone);
    assert!(result.is_modified());
    assert_eq!(result.new_text().as_str(), "â"); // Circumflex preserved
}

#[test]
fn traditional_marks_first_of_two_plain_vowels() {
    let adapter = VietnameseToneAdapter::new(ToneStrategy::Traditional);
    let syllable = Syllable::from_parts("h", "oa", "", ToneType::Ngang);
    let result = adapter.apply_tone(&syllable, ToneType::Sac);
    assert_eq!(result.new_text().as_str(), "hóa");
    // With a final consonant the mark stays on the main vowel.
    let syllable = Syllable::from_parts("h", "oa", "n", ToneType::Ngang);
    let result = adapter.apply_tone(&syllable, ToneType::Sac);
    assert_eq!(result.new_text().as_str(), "hoán");
    assert_eq!(result.backspace_count(), 4);
}

#[test]
fn apply_tone_moves_existing_mark() {
    let adapter = VietnameseToneAdapter::new(ToneStrategy::Auto);
    let syllable = Syllable::from_parts("ng", "ười", "", ToneType::Huyen);
    let result = adapter.apply_tone(&syllable, ToneType::Huyen);
    assert!(result.is_none());
    let syllable = Syllable::from_parts("ng", "ừơi", "", ToneType::Huyen);
    let result = adapter.apply_tone(&syllable, ToneType::Huyen);
    assert_eq!(result.new_text().as_str(), "người");
}
