use goxviet_core::domain::{DiacriticType, InputMethodId, KeyEvent, ToneType};
use goxviet_core::input::TelexAdapter;

fn create_key_event(ch: char) -> KeyEvent {
    KeyEvent::simple(ch as u16)
}


#[test]
fn telex_adapter_test_adapter_creation() {
    let adapter = TelexAdapter::new();
    assert_eq!(adapter.method_id(), InputMethodId::Telex);
}

#[test]
fn telex_adapter_test_default_impl() {
    let adapter = TelexAdapter::default();
    assert_eq!(adapter.method_id(), InputMethodId::Telex);
}

#[test]
fn telex_adapter_test_detect_tone_sac() {
    let adapter = TelexAdapter::new();
    let event = create_key_event('s');
    assert_eq!(adapter.detect_tone(&event), Some(ToneType::Sac));
}

#[test]
fn telex_adapter_test_detect_tone_huyen() {
    let adapter = TelexAdapter::new();
    let event = create_key_event('f');
    assert_eq!(adapter.detect_tone(&event), Some(ToneType::Huyen));
}

#[test]
fn telex_adapter_test_detect_tone_hoi() {
    let adapter = TelexAdapter::new();
    let event = create_key_event('r');
    assert_eq!(adapter.detect_tone(&event), Some(ToneType::Hoi));
}

#[test]
fn telex_adapter_test_detect_tone_nga() {
    let adapter = TelexAdapter::new();
    let event = create_key_event('x');
    assert_eq!(adapter.detect_tone(&event), Some(ToneType::Nga));
}

#[test]
fn telex_adapter_test_detect_tone_nang() {
    let adapter = TelexAdapter::new();
    let event = create_key_event('j');
    assert_eq!(adapter.detect_tone(&event), Some(ToneType::Nang));
}

#[test]
fn test_detect_tone_uppercase() {
    let adapter = TelexAdapter::new();
    assert_eq!(adapter.detect_tone(&create_key_event('S')), Some(ToneType::Sac));
    assert_eq!(adapter.detect_tone(&create_key_event('F')), Some(ToneType::Huyen));
    assert_eq!(adapter.detect_tone(&create_key_event('X')), Some(ToneType::Nga));
}

#[test]
fn telex_adapter_test_detect_tone_none() {
    let adapter = TelexAdapter::new();
    let event = create_key_event('a');
    assert_eq!(adapter.detect_tone(&event), None);
}

#[test]
fn test_detect_diacritic_circumflex_a() {
    let adapter = TelexAdapter::new();
    let event = create_key_event('a');
    assert_eq!(adapter.detect_diacritic(&event), Some(DiacriticType::Circumflex));
}

#[test]
fn test_detect_diacritic_circumflex_e() {
    let adapter = TelexAdapter::new();
    let event = create_key_event('e');
    assert_eq!(adapter.detect_diacritic(&event), Some(DiacriticType::Circumflex));
}

#[test]
fn test_detect_diacritic_circumflex_o() {
    let adapter = TelexAdapter::new();
    let event = create_key_event('o');
    assert_eq!(adapter.detect_diacritic(&event), Some(DiacriticType::Circumflex));
}

#[test]
fn test_detect_diacritic_horn_w() {
    let adapter = TelexAdapter::new();
    let event = create_key_event('w');
    // Note: 'w' returns Horn, but context determines if it's actually Breve (ă)
    assert_eq!(adapter.detect_diacritic(&event), Some(DiacriticType::Horn));
}

#[test]
fn test_detect_diacritic_stroke_d() {
    let adapter = TelexAdapter::new();
    let event = create_key_event('d');
    assert_eq!(adapter.detect_diacritic(&event), Some(DiacriticType::Stroke));
}

#[test]
fn test_detect_diacritic_uppercase() {
    let adapter = TelexAdapter::new();
    assert_eq!(adapter.detect_diacritic(&create_key_event('A')), Some(DiacriticType::Circumflex));
    assert_eq!(adapter.detect_diacritic(&create_key_event('W')), Some(DiacriticType::Horn));
    assert_eq!(adapter.detect_diacritic(&create_key_event('D')), Some(DiacriticType::Stroke));
}

#[test]
fn telex_adapter_test_detect_diacritic_none() {
    let adapter = TelexAdapter::new();
    let event = create_key_event('b');
    assert_eq!(adapter.detect_diacritic(&event), None);
}

#[test]
fn telex_adapter_test_is_remove_mark() {
    let adapter = TelexAdapter::new();
    assert!(adapter.is_remove_mark(&create_key_event('z')));
    assert!(adapter.is_remove_mark(&create_key_event('Z')));
    assert!(!adapter.is_remove_mark(&create_key_event('a')));
}

#[test]
fn telex_adapter_test_is_modifier_tone_keys() {
    let adapter = TelexAdapter::new();
    assert!(adapter.is_modifier(&create_key_event('s')));
    assert!(adapter.is_modifier(&create_key_event('f')));
    assert!(adapter.is_modifier(&create_key_event('r')));
    assert!(adapter.is_modifier(&create_key_event('x')));
    assert!(adapter.is_modifier(&create_key_event('j')));
}

#[test]
fn telex_adapter_test_is_modifier_diacritic_keys() {
    let adapter = TelexAdapter::new();
    assert!(adapter.is_modifier(&create_key_event('a')));
    assert!(adapter.is_modifier(&create_key_event('e')));
    assert!(adapter.is_modifier(&create_key_event('o')));
    assert!(adapter.is_modifier(&create_key_event('w')));
    assert!(adapter.is_modifier(&create_key_event('d')));
}

#[test]
fn test_is_modifier_remove_key() {
    let adapter = TelexAdapter::new();
    assert!(adapter.is_modifier(&create_key_event('z')));
}

#[test]
fn telex_adapter_test_is_modifier_regular_keys() {
    let adapter = TelexAdapter::new();
    assert!(!adapter.is_modifier(&create_key_event('b')));
    assert!(!adapter.is_modifier(&create_key_event('c')));
    assert!(!adapter.is_modifier(&create_key_event('h')));
    assert!(!adapter.is_modifier(&create_key_event('i')));
    assert!(!adapter.is_modifier(&create_key_event('n')));
}

#[test]
fn telex_adapter_test_clone_and_copy() {
    let adapter1 = TelexAdapter::new();
    let adapter2 = adapter1; // Copy
    let adapter3 = adapter1.clone(); // Clone

    assert_eq!(adapter1.method_id(), adapter2.method_id());
    assert_eq!(adapter1.method_id(), adapter3.method_id());
}

#[test]
fn telex_adapter_test_debug_impl() {
    let adapter = TelexAdapter::new();
    let debug_str = format!("{:?}", adapter);
    assert!(debug_str.contains("TelexAdapter"));
}
