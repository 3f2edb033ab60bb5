use goxviet_core::detection::LanguageDecisionEngine;
use goxviet_core::keys;
use goxviet_core::vietnamese_validator::ValidationResult;

fn k(s: &str) -> Vec<(u16, bool)> {
    s.chars().filter_map(|c| keys::letter_key(c).map(|key| (key, false))).collect()
}


#[test]
fn test_viet_dict_word_not_english() {
    // "trường" in TuDien → never English
    let result = LanguageDecisionEngine::decide_with_validation(
        &k("truong"),
        false,
        None,
        Some("trường"),
    );
    assert!(!result.is_english, "TuDien word should not be English");
    assert_eq!(result.confidence, 0);
}

#[test]
fn test_viet_dict_word_overrides_phonotactics() {
    // "ban" looks somewhat English but is in TuDien
    let result =
        LanguageDecisionEngine::decide_with_validation(&k("ban"), false, None, Some("ban"));
    assert!(
        !result.is_english,
        "TuDien word 'ban' must not be English even if phonotactics suggest it"
    );
}

#[test]
fn test_english_word_without_output() {
    // Without output_str and without the old English dictionary,
    // "syntax" has 0 phonotactic confidence (no strong English phoneme signal).
    // Detection relies on providing output_str for TuDien lookup or phonotactics
    // for words with strong English-only patterns.
    let result =
        LanguageDecisionEngine::decide_with_validation(&k("syntax"), false, None, None);
    // "syntax" does not trigger the phonotactic engine → ambiguous, not English
    assert!(
        !result.is_english,
        "syntax without output_str is ambiguous (not English) under Vietnamese-first policy"
    );
}

#[test]
fn test_diacritics_prevent_english_detection() {
    let result = LanguageDecisionEngine::decide_with_validation(
        &k("truong"),
        true,
        None,
        None, // has_diacritics=true
    );
    assert!(
        !result.is_english,
        "Word with diacritics should not be English"
    );
}

#[test]
fn test_empty_keys_not_english() {
    let result = LanguageDecisionEngine::decide_with_validation(&[], false, None, None);
    assert!(!result.is_english);
    assert_eq!(result.confidence, 0);
}

#[test]
fn test_decide_fallback_delegates_to_decide_with_validation() {
    let a = LanguageDecisionEngine::decide(&k("syntax"), false);
    let b = LanguageDecisionEngine::decide_with_validation(&k("syntax"), false, None, None);
    assert_eq!(a.is_english, b.is_english);
    assert_eq!(a.confidence, b.confidence);
}

#[test]
fn decision_scores_hello() {
    // Only the phonotactic layers count here: a doubled consonant scores 95.
    let r = LanguageDecisionEngine::decide(&k("hello"), false);
    assert!(r.is_english);
    assert_eq!(r.confidence, 95);
}

#[test]
fn decision_with_valid_vietnamese_validation() {
    let valid = ValidationResult { is_valid: true, confidence: 100 };
    let invalid = ValidationResult { is_valid: false, confidence: 0 };
    // "test": coda "st" scores 91.
    let r = LanguageDecisionEngine::decide_with_validation(&k("test"), false, Some(valid), None);
    assert!(!r.is_english);
    assert_eq!(r.confidence, 61);
    let r = LanguageDecisionEngine::decide_with_validation(&k("test"), false, Some(invalid), None);
    assert!(r.is_english);
    assert_eq!(r.confidence, 100);
    let r = LanguageDecisionEngine::decide_with_validation(&k("test"), false, None, Some("test"));
    assert!(r.is_english);
    assert_eq!(r.confidence, 91);
    // "tét" spells a Vietnamese syllable, so the rendered output settles it.
    let r = LanguageDecisionEngine::decide_with_validation(&k("test"), false, None, Some("tét"));
    assert!(!r.is_english);
    assert_eq!(r.confidence, 0);
}

#[test]
fn identify_early_needs_95() {
    assert!(LanguageDecisionEngine::identify_early(&[], false).is_none());
    let r = LanguageDecisionEngine::identify_early(&k("fog"), false).unwrap();
    assert!(r.is_english);
    assert_eq!(r.confidence, 100);
    assert!(LanguageDecisionEngine::identify_early(&k("test"), false).is_none());
}
