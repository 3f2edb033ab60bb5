use goxviet_core::domain::ToneType;
use goxviet_core::fsm_validator::FsmValidatorAdapter;
use goxviet_core::syllable::{Syllable, ValidationError};


#[test]
fn test_fsm_validator_valid_syllable() {
    let validator = FsmValidatorAdapter::new();

    // "trường" (tr + ươ + ng + huyền)
    let truong = Syllable::from_parts("tr", "ươ", "ng", ToneType::Huyen);
    assert!(validator.validate(&truong).is_valid());

    // "tiếng" (t + iê + ng + sắc)
    let tieng = Syllable::from_parts("t", "iê", "ng", ToneType::Sac);
    assert!(validator.validate(&tieng).is_valid());

    // "hoa" (h + oa + "" + ngang)
    let hoa = Syllable::from_parts("h", "oa", "", ToneType::Ngang);
    assert!(validator.validate(&hoa).is_valid());
}

#[test]
fn test_fsm_validator_no_vowel() {
    let validator = FsmValidatorAdapter::new();

    // Empty vowel
    let no_vowel = Syllable::from_parts("tr", "", "ng", ToneType::Ngang);
    let result = validator.validate(&no_vowel);
    assert!(result.is_invalid());
    assert_eq!(result.error(), Some(&ValidationError::Empty));
}

#[test]
fn test_fsm_validator_invalid_structure() {
    let validator = FsmValidatorAdapter::new();

    // Invalid consonant cluster "bl" (not Vietnamese)
    let invalid = Syllable::from_parts("bl", "a", "", ToneType::Ngang);
    let result = validator.validate(&invalid);
    // Note: parse_char might fail for 'bl' or FSM will reject it
    assert!(result.is_invalid());
}

#[test]
fn test_fsm_validator_tone_final_violation() {
    let validator = FsmValidatorAdapter::new();

    // "cấp" (c + â + p + sắc) - VALID
    let cap_sac = Syllable::from_parts("c", "â", "p", ToneType::Sac);
    assert!(validator.validate(&cap_sac).is_valid());

    // "cập" (c + ạ + p + nặng) - VALID
    let cap_nang = Syllable::from_parts("c", "ạ", "p", ToneType::Nang);
    assert!(validator.validate(&cap_nang).is_valid());

    // "cảp" (c + ả + p + hỏi) - INVALID (hỏi with stop consonant -p)
    let cap_hoi = Syllable::from_parts("c", "ả", "p", ToneType::Hoi);
    let result = validator.validate(&cap_hoi);
    assert!(result.is_invalid());
    assert!(matches!(
        result.error(),
        Some(ValidationError::InvalidTonePlacement { .. })
    ));

    // "cấm" (c + ấ + m + sắc) - VALID (m is not a stop consonant)
    let cam_sac = Syllable::from_parts("c", "ấ", "m", ToneType::Sac);
    assert!(validator.validate(&cam_sac).is_valid());
}

#[test]
fn test_fsm_validator_validate_strict() {
    let validator = FsmValidatorAdapter::new();

    // Valid syllable
    let valid = Syllable::from_parts("tr", "ươ", "ng", ToneType::Huyen);
    assert!(validator.validate_strict(&valid).is_ok());

    // Invalid syllable
    let invalid = Syllable::from_parts("tr", "", "ng", ToneType::Ngang);
    assert!(validator.validate_strict(&invalid).is_err());
}

#[test]
fn fsm_validator_unparsable_character() {
    let validator = FsmValidatorAdapter::new();
    let s = Syllable::from_parts("t", "a", "1", ToneType::Ngang);
    let r = validator.validate(&s);
    assert!(matches!(r.error(), Some(ValidationError::InvalidStructure { .. })));
}

#[test]
fn fsm_validator_uppercase_and_stroke() {
    let validator = FsmValidatorAdapter::new();
    let s = Syllable::from_parts("Đ", "ƯỜ", "NG", ToneType::Huyen);
    assert!(validator.validate(&s).is_valid());
    let s = Syllable::from_parts("", "ai", "n", ToneType::Ngang);
    assert!(validator.validate(&s).is_invalid());
}
