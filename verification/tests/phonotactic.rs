use goxviet_core::keys;
use goxviet_core::phonotactic::{AutoRestoreDecider, PhonotacticEngine, PhonotacticResult};
use goxviet_core::vietnamese_validator::{ValidationResult, VietnameseSyllableValidator};

fn word(s: &str) -> Vec<(u16, bool)> {
    s.chars().map(|c| (keys::letter_key(c).unwrap(), false)).collect()
}


#[test]
fn test_layer1_invalid_initials() {
    let keys = vec![(keys::F, false), (keys::O, false), (keys::R, false)];
    let result = PhonotacticEngine::analyze(&keys);
    assert!(
        result.layer_scores[0] > 0,
        "Should detect F as invalid initial"
    );
}

#[test]
fn test_layer2_onset_clusters() {
    let keys = vec![(keys::B, false), (keys::L, false), (keys::U, false)];
    let result = PhonotacticEngine::analyze(&keys);
    assert!(result.layer_scores[1] > 0, "Should detect BL cluster");
}

#[test]
fn test_vietnamese_valid_syllable() {
    let keys = vec![keys::T, keys::O, keys::A, keys::N];
    let result = VietnameseSyllableValidator::validate(&keys);
    assert!(result.is_valid, "TOAN should be valid Vietnamese");
}

#[test]
fn test_vietnamese_invalid_initials() {
    let keys = vec![keys::F, keys::O, keys::R];
    let result = VietnameseSyllableValidator::validate(&keys);
    assert!(!result.is_valid, "FOR should fail (invalid initial)");
}

#[test]
fn test_auto_restore_strong_english() {
    let phonotactic = PhonotacticResult {
        english_confidence: 95,
        layer_scores: [100, 98, 0, 0, 0, 0, 0, 0],
        matched_layers: 0b11,
    };
    let viet = ValidationResult {
        is_valid: false,
        confidence: 0,
    };
    assert!(
        AutoRestoreDecider::should_restore(&phonotactic, &viet, true),
        "Should restore high-confidence English"
    );
}

#[test]
fn analyze_empty_is_all_zero() {
    let r = PhonotacticEngine::analyze(&[]);
    assert_eq!(r.layer_scores, [0u8; 8]);
    assert_eq!(r.matched_layers, 0);
    assert_eq!(r.english_confidence, 0);
    assert!(!r.is_english());
    assert_eq!(r.combined_confidence(), 0);
}

#[test]
fn analyze_hello_double_consonant_only() {
    let r = PhonotacticEngine::analyze(&word("hello"));
    assert_eq!(r.layer_scores, [0, 0, 95, 0, 0, 0, 0, 0]);
    assert_eq!(r.matched_layers, 0b100);
    assert_eq!(r.english_confidence, 95);
    assert!(r.is_english());
    assert_eq!(r.combined_confidence(), 95);
}

#[test]
fn analyze_world_weighted_mean() {
    // W initial (100, weight 100) and "ld" coda (91, weight 91): 18281 / 191 = 95.
    let r = PhonotacticEngine::analyze(&word("world"));
    assert_eq!(r.layer_scores, [100, 0, 0, 0, 91, 0, 0, 0]);
    assert_eq!(r.matched_layers, 0b1_0001);
    assert_eq!(r.english_confidence, 95);
    // Plain mean: (100 + 91) / 2 = 95.
    assert_eq!(r.combined_confidence(), 95);
}

#[test]
fn analyze_nt_before_vowel_is_not_a_coda() {
    let r = PhonotacticEngine::analyze(&word("syntax"));
    assert_eq!(r.layer_scores, [0; 8]);
    assert_eq!(r.english_confidence, 0);
    let r = PhonotacticEngine::analyze(&word("sent"));
    assert_eq!(r.layer_scores[4], 91);
}

#[test]
fn analyze_each_layer() {
    assert_eq!(PhonotacticEngine::analyze(&word("shop")).layer_scores[0], 100);
    assert_eq!(PhonotacticEngine::analyze(&word("train")).layer_scores[1], 0);
    assert_eq!(PhonotacticEngine::analyze(&word("cream")).layer_scores[1], 98);
    assert_eq!(PhonotacticEngine::analyze(&word("nation")).layer_scores[3], 90);
    assert_eq!(PhonotacticEngine::analyze(&word("preview")).layer_scores[5], 95);
    assert_eq!(PhonotacticEngine::analyze(&word("bread")).layer_scores[6], 85);
    assert_eq!(PhonotacticEngine::analyze(&word("vtv")).layer_scores[7], 80);
}

#[test]
fn combined_confidence_uses_mask() {
    let r = PhonotacticResult { english_confidence: 0, layer_scores: [100, 60, 0, 0, 0, 0, 0, 50], matched_layers: 0b1000_0001 };
    assert_eq!(r.combined_confidence(), 75);
}

#[test]
fn restore_needs_transforms_and_invalid_vietnamese() {
    let p = PhonotacticResult { english_confidence: 95, layer_scores: [100, 98, 0, 0, 0, 0, 0, 0], matched_layers: 0b11 };
    let invalid = ValidationResult { is_valid: false, confidence: 0 };
    let valid = ValidationResult { is_valid: true, confidence: 100 };
    assert!(!AutoRestoreDecider::should_restore(&p, &invalid, false));
    assert!(!AutoRestoreDecider::should_restore(&p, &valid, true));
    let weak = PhonotacticResult { english_confidence: 60, layer_scores: [0; 8], matched_layers: 0b111 };
    assert!(AutoRestoreDecider::should_restore(&weak, &invalid, true));
    let weak_one = PhonotacticResult { english_confidence: 60, layer_scores: [0; 8], matched_layers: 0b1 };
    assert!(!AutoRestoreDecider::should_restore(&weak_one, &invalid, true));
}

#[test]
fn restore_confidence_mean() {
    let p = PhonotacticResult { english_confidence: 95, layer_scores: [0; 8], matched_layers: 0 };
    assert_eq!(AutoRestoreDecider::confidence(&p, &ValidationResult { is_valid: false, confidence: 0 }), 97);
    assert_eq!(AutoRestoreDecider::confidence(&p, &ValidationResult { is_valid: true, confidence: 100 }), 47);
    assert_eq!(AutoRestoreDecider::confidence(&p, &ValidationResult { is_valid: true, confidence: 200 }), 47);
}

#[test]
fn validator_splits_initial_nucleus_final() {
    let ks = |s: &str| -> Vec<u16> { s.chars().map(|c| keys::letter_key(c).unwrap()).collect() };
    assert!(VietnameseSyllableValidator::validate(&ks("quy")).is_valid);
    assert!(VietnameseSyllableValidator::validate(&ks("gia")).is_valid);
    assert!(VietnameseSyllableValidator::validate(&ks("anh")).is_valid);
    assert!(!VietnameseSyllableValidator::validate(&ks("hello")).is_valid);
    assert!(!VietnameseSyllableValidator::validate(&ks("truong")).is_valid);
    // With the horn on u and o the nucleus is "ươ".
    let r = VietnameseSyllableValidator::validate_with_tones(&ks("truong"), &[0, 0, 2, 2, 0, 0]);
    assert!(r.is_valid);
    assert_eq!(r.confidence, 100);
    assert_eq!(VietnameseSyllableValidator::validate(&[keys::N1]).confidence, 0);
}
