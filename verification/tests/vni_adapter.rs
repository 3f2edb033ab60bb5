use goxviet_core::domain::{DiacriticType, InputMethodId, KeyEvent, ToneType};
use goxviet_core::input::VniAdapter;

fn create_key_event(ch: char) -> KeyEvent {
    KeyEvent::simple(ch as u16)
}


#[test]
fn vni_adapter_test_adapter_creation() {
    let adapter = VniAdapter::new();
    assert_eq!(adapter.method_id(), InputMethodId::Vni);
}

#[test]
fn vni_adapter_test_default_impl() {
    let adapter = VniAdapter::default();
    assert_eq!(adapter.method_id(), InputMethodId::Vni);
}

#[test]
fn vni_adapter_test_detect_tone_sac() {
    let adapter = VniAdapter::new();
    let event = create_key_event('1');
    assert_eq!(adapter.detect_tone(&event), Some(ToneType::Sac));
}

#[test]
fn vni_adapter_test_detect_tone_huyen() {
    let adapter = VniAdapter::new();
    let event = create_key_event('2');
    assert_eq!(adapter.detect_tone(&event), Some(ToneType::Huyen));
}

#[test]
fn vni_adapter_test_detect_tone_hoi() {
    let adapter = VniAdapter::new();
    let event = create_key_event('3');
    assert_eq!(adapter.detect_tone(&event), Some(ToneType::Hoi));
}

#[test]
fn vni_adapter_test_detect_tone_nga() {
    let adapter = VniAdapter::new();
    let event = create_key_event('4');
    assert_eq!(adapter.detect_tone(&event), Some(ToneType::Nga));
}

#[test]
fn vni_adapter_test_detect_tone_nang() {
    let adapter = VniAdapter::new();
    let event = create_key_event('5');
    assert_eq!(adapter.detect_tone(&event), Some(ToneType::Nang));
}

#[test]
fn vni_adapter_test_detect_tone_none() {
    let adapter = VniAdapter::new();
    let event = create_key_event('a');
    assert_eq!(adapter.detect_tone(&event), None);
}

#[test]
fn test_detect_diacritic_circumflex() {
    let adapter = VniAdapter::new();
    let event = create_key_event('6');
    assert_eq!(adapter.detect_diacritic(&event), Some(DiacriticType::Circumflex));
}

#[test]
fn test_detect_diacritic_horn() {
    let adapter = VniAdapter::new();
    let event = create_key_event('7');
    assert_eq!(adapter.detect_diacritic(&event), Some(DiacriticType::Horn));
}

#[test]
fn test_detect_diacritic_breve() {
    let adapter = VniAdapter::new();
    let event = create_key_event('8');
    assert_eq!(adapter.detect_diacritic(&event), Some(DiacriticType::Breve));
}

#[test]
fn test_detect_diacritic_stroke() {
    let adapter = VniAdapter::new();
    let event = create_key_event('9');
    assert_eq!(adapter.detect_diacritic(&event), Some(DiacriticType::Stroke));
}

#[test]
fn vni_adapter_test_detect_diacritic_none() {
    let adapter = VniAdapter::new();
    let event = create_key_event('a');
    assert_eq!(adapter.detect_diacritic(&event), None);
}

#[test]
fn vni_adapter_test_is_remove_mark() {
    let adapter = VniAdapter::new();
    assert!(adapter.is_remove_mark(&create_key_event('0')));
    assert!(!adapter.is_remove_mark(&create_key_event('1')));
    assert!(!adapter.is_remove_mark(&create_key_event('a')));
}

#[test]
fn vni_adapter_test_is_modifier_tone_keys() {
    let adapter = VniAdapter::new();
    assert!(adapter.is_modifier(&create_key_event('0'))); // Remove
    assert!(adapter.is_modifier(&create_key_event('1')));
    assert!(adapter.is_modifier(&create_key_event('2')));
    assert!(adapter.is_modifier(&create_key_event('3')));
    assert!(adapter.is_modifier(&create_key_event('4')));
    assert!(adapter.is_modifier(&create_key_event('5')));
}

#[test]
fn vni_adapter_test_is_modifier_diacritic_keys() {
    let adapter = VniAdapter::new();
    assert!(adapter.is_modifier(&create_key_event('6')));
    assert!(adapter.is_modifier(&create_key_event('7')));
    assert!(adapter.is_modifier(&create_key_event('8')));
    assert!(adapter.is_modifier(&create_key_event('9')));
}

#[test]
fn vni_adapter_test_is_modifier_regular_keys() {
    let adapter = VniAdapter::new();
    assert!(!adapter.is_modifier(&create_key_event('a')));
    assert!(!adapter.is_modifier(&create_key_event('b')));
    assert!(!adapter.is_modifier(&create_key_event('h')));
}

#[test]
fn vni_adapter_test_clone_and_copy() {
    let adapter1 = VniAdapter::new();
    let adapter2 = adapter1; // Copy
    let adapter3 = adapter1.clone(); // Clone

    assert_eq!(adapter1.method_id(), adapter2.method_id());
    assert_eq!(adapter1.method_id(), adapter3.method_id());
}

#[test]
fn vni_adapter_test_debug_impl() {
    let adapter = VniAdapter::new();
    let debug_str = format!("{:?}", adapter);
    assert!(debug_str.contains("VniAdapter"));
}
