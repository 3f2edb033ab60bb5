use goxviet_core::detection::{ConfidenceLevel, DetectedLanguage, LanguageDetectorAdapter};
use goxviet_core::text::CharSequence;


#[test]
fn test_language_detector_vietnamese() {
    let detector = LanguageDetectorAdapter::new();

    // Vietnamese words with diacritics
    let truong = CharSequence::from("trường");
    let result = detector.detect(&truong);
    assert_eq!(result.language, DetectedLanguage::Vietnamese);
    assert!(result.is_confident());

    let tieng = CharSequence::from("tiếng");
    let result = detector.detect(&tieng);
    assert_eq!(result.language, DetectedLanguage::Vietnamese);

    let viet = CharSequence::from("việt");
    let result = detector.detect(&viet);
    assert_eq!(result.language, DetectedLanguage::Vietnamese);
}

#[test]
fn test_language_detector_english() {
    let detector = LanguageDetectorAdapter::new();

    // Common English words
    let hello = CharSequence::from("hello");
    let result = detector.detect(&hello);
    assert_eq!(result.language, DetectedLanguage::NonVietnamese);

    let world = CharSequence::from("world");
    let result = detector.detect(&world);
    assert_eq!(result.language, DetectedLanguage::NonVietnamese);

    let test = CharSequence::from("test");
    let result = detector.detect(&test);
    assert_eq!(result.language, DetectedLanguage::NonVietnamese);
}

#[test]
fn test_language_detector_ambiguous() {
    let detector = LanguageDetectorAdapter::new();

    // Single character - ambiguous
    let a = CharSequence::from("a");
    let result = detector.detect(&a);
    // Result may be ambiguous or detected as English/Vietnamese depending on engine
    // Just ensure it doesn't crash
    assert!(matches!(
        result.language,
        DetectedLanguage::Ambiguous
            | DetectedLanguage::Vietnamese
            | DetectedLanguage::NonVietnamese
    ));

    // Empty string
    let empty = CharSequence::empty();
    let result = detector.detect(&empty);
    assert_eq!(result.language, DetectedLanguage::Ambiguous);
}

#[test]
fn test_language_detector_vietnamese_without_diacritics() {
    let detector = LanguageDetectorAdapter::new();

    // Vietnamese syllables without diacritics (valid structure)
    let hoa = CharSequence::from("hoa");
    let result = detector.detect(&hoa);
    // Should detect as Vietnamese if valid structure
    // May be ambiguous if looks like English too
    assert!(matches!(
        result.language,
        DetectedLanguage::Vietnamese | DetectedLanguage::Ambiguous
    ));
}

#[test]
fn test_language_detector_is_vietnamese() {
    let detector = LanguageDetectorAdapter::new();

    // Vietnamese with diacritics
    let truong = CharSequence::from("trường");
    assert!(detector.is_vietnamese(&truong));

    // English
    let hello = CharSequence::from("hello");
    assert!(!detector.is_vietnamese(&hello));
}

#[test]
fn test_language_detector_parse_text() {
    let detector = LanguageDetectorAdapter::new();

    // Vietnamese with diacritics
    let text = CharSequence::from("trường");
    let (keys, has_diacritics) = detector.parse_text(&text);
    assert!(!keys.is_empty());
    assert!(has_diacritics);

    // English without diacritics
    let text = CharSequence::from("hello");
    let (keys, has_diacritics) = detector.parse_text(&text);
    assert!(!keys.is_empty());
    assert!(!has_diacritics);
}

#[test]
fn test_language_detector_validate_vietnamese() {
    let detector = LanguageDetectorAdapter::new();

    // Valid Vietnamese syllable
    let text = CharSequence::from("truong");
    let validation = detector.validate_vietnamese(&text);
    assert!(validation.is_some());
    if let Some(v) = validation {
        // May be valid or invalid depending on validator
        // Just ensure it doesn't crash
        let _ = v.is_valid;
    }

    // Empty text
    let text = CharSequence::empty();
    let validation = detector.validate_vietnamese(&text);
    assert!(validation.is_none());
}

#[test]
fn detector_levels() {
    let detector = LanguageDetectorAdapter::new();
    let r = detector.detect(&CharSequence::from("trường"));
    assert_eq!(r.confidence, ConfidenceLevel::VeryHigh);
    let r = detector.detect(&CharSequence::from("hoa"));
    // Valid Vietnamese: English score -30 clamps to 0, so 100% Vietnamese.
    assert_eq!(r.language, DetectedLanguage::Vietnamese);
    assert_eq!(r.confidence, ConfidenceLevel::VeryHigh);
    let r = detector.detect(&CharSequence::from("123"));
    assert_eq!(r.language, DetectedLanguage::Ambiguous);
    assert_eq!(ConfidenceLevel::from_percent(70), ConfidenceLevel::High);
    assert_eq!(ConfidenceLevel::from_percent(40), ConfidenceLevel::Medium);
    assert_eq!(ConfidenceLevel::from_percent(39), ConfidenceLevel::Low);
}
