use goxviet_core::domain::ToneType;
use goxviet_core::structure::SyllableStructureValidator;
use goxviet_core::syllable::{Syllable, ValidationError};

fn v() -> SyllableStructureValidator {
    SyllableStructureValidator::new()
}


#[test]
fn valid_truong() {
    // tr (PAD.0) + ươ (NA.2) + ng (PAC.1) — PAD_NA.0 allows NA.2 ✓, NA_PAC.2 allows PAC.1 ✓
    let s = Syllable::from_parts("tr", "ươ", "ng", ToneType::Huyen);
    assert!(v().validate(&s).is_valid(), "trường should be valid");
}

#[test]
fn valid_tieng() {
    // t (PAD.0) + iê (NA.1) + ng (PAC.1) — PAD_NA.0 allows NA.1 ✓, NA_PAC.1 allows PAC.1 ✓
    let s = Syllable::from_parts("t", "iê", "ng", ToneType::Sac);
    assert!(v().validate(&s).is_valid(), "tiếng should be valid");
}

#[test]
fn valid_open_ha() {
    // h (PAD.1) + a (NA.1) + open — PAD_NA.1 allows all NA ✓, open syllable ✓
    let s = Syllable::from_parts("h", "a", "", ToneType::Ngang);
    assert!(v().validate(&s).is_valid(), "ha should be valid");
}

#[test]
fn valid_vowel_initial_an() {
    // no PAD + a (NA.1) + n (PAC.2) — vowel-initial ✓, NA_PAC.1 allows PAC.2 ✓
    let s = Syllable::from_parts("", "a", "n", ToneType::Ngang);
    assert!(v().validate(&s).is_valid(), "an should be valid");
}

#[test]
fn valid_cap_sac() {
    // c (PAD.1) + â (NA.2) + p (PAC.2) — tone Sắc with stop ✓
    let s = Syllable::from_parts("c", "â", "p", ToneType::Sac);
    assert!(v().validate(&s).is_valid(), "cấp should be valid");
}

#[test]
fn valid_cap_nang() {
    let s = Syllable::from_parts("c", "â", "p", ToneType::Nang);
    assert!(v().validate(&s).is_valid(), "cập should be valid");
}

#[test]
fn valid_anh() {
    // no PAD + a (NA.1) + nh (PAC.0) — NA_PAC.1 allows PAC.0 ✓
    let s = Syllable::from_parts("", "a", "nh", ToneType::Ngang);
    assert!(v().validate(&s).is_valid(), "anh should be valid");
}

#[test]
fn valid_hoa() {
    // h (PAD.1) + oa (NA.1) + open — PAD_NA.1 allows NA.1 ✓, open ✓
    let s = Syllable::from_parts("h", "oa", "", ToneType::Ngang);
    assert!(v().validate(&s).is_valid(), "hoa should be valid");
}

#[test]
fn valid_khong() {
    // kh (PAD.1) + o (NA.2) + ng (PAC.1) — PAD_NA.1 all ✓, NA_PAC.2 allows PAC.1 ✓
    let s = Syllable::from_parts("kh", "o", "ng", ToneType::Ngang);
    assert!(v().validate(&s).is_valid(), "không should be valid");
}

#[test]
fn valid_nguoi() {
    // ng (PAD.2) + ươi (NA.5) + open — PAD_NA.2 allows NA.5 ✓, NA_PAC.5 allows open ✓
    let s = Syllable::from_parts("ng", "ươi", "", ToneType::Ngang);
    assert!(v().validate(&s).is_valid(), "người should be valid");
}

#[test]
fn valid_chi() {
    // ch (PAD.2) + i (NA.0) + open — PAD_NA.2 allows NA.0 ✓
    let s = Syllable::from_parts("ch", "i", "", ToneType::Ngang);
    assert!(v().validate(&s).is_valid(), "chi should be valid");
}

#[test]
fn valid_ghe() {
    // gh (PAD.0) + ê (NA.0) + open — PAD_NA.0 allows NA.0 ✓
    let s = Syllable::from_parts("gh", "ê", "", ToneType::Ngang);
    assert!(v().validate(&s).is_valid(), "ghê should be valid");
}

#[test]
fn valid_ngh_e() {
    // ngh (PAD.2) + e (NA.2) + open — PAD_NA.2 allows NA.2 ✓
    let s = Syllable::from_parts("ngh", "e", "", ToneType::Ngang);
    assert!(v().validate(&s).is_valid(), "nghe should be valid");
}

#[test]
fn valid_quit() {
    // qu (PAD.1) + i (NA.0) + t (PAC.2) — PAD_NA.1 all ✓, NA_PAC.0 allows PAC.2 ✓
    let s = Syllable::from_parts("qu", "i", "t", ToneType::Sac);
    assert!(v().validate(&s).is_valid(), "quít should be valid");
}

#[test]
fn valid_na3_oan() {
    // no PAD + oă (NA.3) + n (PAC.2) — NA_PAC.3 allows PAC.2 ✓
    let s = Syllable::from_parts("", "oă", "n", ToneType::Ngang);
    assert!(v().validate(&s).is_valid(), "oăn should be valid");
}

#[test]
fn valid_na4_open() {
    // no PAD + uơ (NA.4) + open — NA_PAC.4 is open only ✓
    let s = Syllable::from_parts("", "uơ", "", ToneType::Ngang);
    assert!(v().validate(&s).is_valid(), "uơ (open) should be valid");
}

#[test]
fn invalid_no_vowel() {
    let s = Syllable::from_parts("tr", "", "ng", ToneType::Ngang);
    let r = v().validate(&s);
    assert!(r.is_invalid());
    assert_eq!(r.error(), Some(&ValidationError::Empty));
}

#[test]
fn invalid_initial_bl() {
    // "bl" is not a Vietnamese consonant
    let s = Syllable::from_parts("bl", "a", "", ToneType::Ngang);
    let r = v().validate(&s);
    assert!(r.is_invalid(), "bl is not a valid initial");
}

#[test]
fn invalid_initial_kr() {
    let s = Syllable::from_parts("kr", "a", "", ToneType::Ngang);
    assert!(v().validate(&s).is_invalid());
}

#[test]
fn invalid_unknown_vowel() {
    let s = Syllable::from_parts("b", "xyz", "", ToneType::Ngang);
    let r = v().validate(&s);
    assert!(r.is_invalid());
    assert!(matches!(r.error(), Some(ValidationError::InvalidVowel { .. })));
}

#[test]
fn invalid_final_b() {
    // "b" is not a valid Vietnamese final consonant
    let s = Syllable::from_parts("", "a", "b", ToneType::Ngang);
    assert!(v().validate(&s).is_invalid());
}

#[test]
fn invalid_pad0_na4() {
    // b (PAD.0) + uơ (NA.4) — PAD_NA.0 does NOT allow NA.4
    let s = Syllable::from_parts("b", "uơ", "", ToneType::Ngang);
    let r = v().validate(&s);
    assert!(r.is_invalid(), "b+uơ should be invalid (PAD.0 cannot precede NA.4)");
    assert!(matches!(r.error(), Some(ValidationError::PhonotacticViolation { .. })));
}

#[test]
fn invalid_pad2_na4() {
    // ch (PAD.2) + uơ (NA.4) — PAD_NA.2 does NOT allow NA.4
    let s = Syllable::from_parts("ch", "uơ", "", ToneType::Ngang);
    let r = v().validate(&s);
    assert!(r.is_invalid(), "ch+uơ should be invalid (PAD.2 cannot precede NA.4)");
}

#[test]
fn invalid_na4_with_final() {
    // uơ (NA.4) + n — NA_PAC.4 is open only
    let s = Syllable::from_parts("", "uơ", "n", ToneType::Ngang);
    let r = v().validate(&s);
    assert!(r.is_invalid(), "uơ+n should be invalid (NA.4 allows no PAC)");
}

#[test]
fn invalid_na5_with_final() {
    // ai (NA.5) + n — NA_PAC.5 is open only
    let s = Syllable::from_parts("", "ai", "n", ToneType::Ngang);
    let r = v().validate(&s);
    assert!(r.is_invalid(), "ai+n should be invalid (NA.5 allows no PAC)");
}

#[test]
fn invalid_na0_pac1() {
    // i (NA.0) + c (PAC.1) — NA_PAC.0 allows PAC.0 and PAC.2, NOT PAC.1
    let s = Syllable::from_parts("", "i", "c", ToneType::Ngang);
    let r = v().validate(&s);
    assert!(r.is_invalid(), "i+c should be invalid (NA.0 does not allow PAC.1)");
}

#[test]
fn invalid_na2_pac0() {
    // o (NA.2) + ch (PAC.0) — NA_PAC.2 allows PAC.1 and PAC.2, NOT PAC.0
    let s = Syllable::from_parts("", "o", "ch", ToneType::Ngang);
    let r = v().validate(&s);
    assert!(r.is_invalid(), "o+ch should be invalid (NA.2 does not allow PAC.0)");
}

#[test]
fn invalid_stop_final_hoi_tone() {
    // c + â + p (PAC.2) + Hỏi — stop consonant cannot have hỏi
    let s = Syllable::from_parts("c", "â", "p", ToneType::Hoi);
    let r = v().validate(&s);
    assert!(r.is_invalid());
    assert!(matches!(r.error(), Some(ValidationError::InvalidTonePlacement { .. })));
}

#[test]
fn invalid_stop_final_huyen_tone() {
    let s = Syllable::from_parts("t", "a", "t", ToneType::Huyen);
    assert!(v().validate(&s).is_invalid());
}
