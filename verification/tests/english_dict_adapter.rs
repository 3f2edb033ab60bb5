use goxviet_core::dictionary::EnglishDictAdapter;


#[test]
fn known_word_returns_100() {
    let a = EnglishDictAdapter::new();
    assert_eq!(a.confidence("text"), 100);
    assert_eq!(a.confidence("expect"), 100);
}

#[test]
fn unknown_returns_0() {
    let a = EnglishDictAdapter::new();
    assert_eq!(a.confidence("xin"), 0);
    assert_eq!(a.confidence(""), 0);
}

#[test]
fn english_dict_ignores_case() {
    let a = EnglishDictAdapter::default();
    assert!(a.is_english("Text"));
    assert!(a.is_english("off"));
    assert!(a.is_english("config"));
    assert!(!a.is_english("trường"));
    assert_eq!(a.confidence("WORLD"), 100);
}
