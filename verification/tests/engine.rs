use std::time::Instant;
use goxviet_core::buffer::ImeResult;
use goxviet_core::engine::{init, Engine};
use goxviet_core::keys;

fn key_of(c: char) -> u16 {
    match c.to_ascii_lowercase() {
        'a' => keys::A, 'b' => keys::B, 'c' => keys::C, 'd' => keys::D, 'e' => keys::E,
        'f' => keys::F, 'g' => keys::G, 'h' => keys::H, 'i' => keys::I, 'j' => keys::J,
        'k' => keys::K, 'l' => keys::L, 'm' => keys::M, 'n' => keys::N, 'o' => keys::O,
        'p' => keys::P, 'q' => keys::Q, 'r' => keys::R, 's' => keys::S, 't' => keys::T,
        'u' => keys::U, 'v' => keys::V, 'w' => keys::W, 'x' => keys::X, 'y' => keys::Y,
        'z' => keys::Z, '0' => keys::N0, '1' => keys::N1, '2' => keys::N2, '3' => keys::N3,
        '4' => keys::N4, '5' => keys::N5, '6' => keys::N6, '7' => keys::N7, '8' => keys::N8,
        '9' => keys::N9, ' ' => keys::SPACE, '\x1b' => keys::ESC, '<' => keys::DELETE,
        _ => 255,
    }
}

fn apply(screen: &mut String, r: &ImeResult, typed: Option<char>) {
    if r.action == 1 {
        for _ in 0..r.backspace {
            screen.pop();
        }
        for c in r.chars.iter().take(r.count as usize) {
            screen.push(*c);
        }
    } else if let Some(c) = typed {
        if c == '<' {
            screen.pop();
        } else if c != '\x1b' {
            screen.push(c);
        }
    }
}

fn type_word(e: &mut Engine, input: &str) -> String {
    let mut screen = String::new();
    for c in input.chars() {
        let r = e.on_key(key_of(c), c.is_ascii_uppercase(), false);
        apply(&mut screen, &r, Some(c));
    }
    screen
}

fn telex(cases: &[(&str, &str)]) {
    for (input, expected) in cases {
        let mut e = Engine::new();
        let result = type_word(&mut e, input);
        assert_eq!(result, *expected, "[Telex] '{}' → '{}'", input, result);
    }
}

fn vni(cases: &[(&str, &str)]) {
    for (input, expected) in cases {
        let mut e = Engine::new();
        e.set_method(1);
        let result = type_word(&mut e, input);
        assert_eq!(result, *expected, "[VNI] '{}' → '{}'", input, result);
    }
}

const TELEX_BASIC: &[(&str, &str)] = &[
    ("as", "á"), ("af", "à"), ("ar", "ả"), ("ax", "ã"), ("aj", "ạ"), ("aa", "â"), ("aw", "ă"),
    ("ee", "ê"), ("oo", "ô"), ("ow", "ơ"), ("uw", "ư"), ("dd", "đ"),
];

const TELEX_CIRCUMFLEX_WITH_NANG: &[(&str, &str)] = &[
    ("heej", "hệ"), ("eej", "ệ"), ("aaj", "ậ"), ("ooj", "ộ"), ("ees", "ế"), ("eef", "ề"),
    ("eer", "ể"), ("eex", "ễ"), ("heej ", "hệ "), ("beej", "bệ"), ("deej", "dệ"), ("keej", "kệ"),
    ("leej", "lệ"), ("meej", "mệ"), ("neej", "nệ"), ("teej", "tệ"),
];

const VNI_BASIC: &[(&str, &str)] = &[
    ("a1", "á"), ("a2", "à"), ("a3", "ả"), ("a4", "ã"), ("a5", "ạ"), ("a6", "â"), ("a8", "ă"),
    ("e6", "ê"), ("o6", "ô"), ("o7", "ơ"), ("u7", "ư"), ("d9", "đ"),
];

const TELEX_COMPOUND: &[(&str, &str)] = &[("duocw", "dươc"), ("nguoiw", "ngươi"), ("tuoiws", "tưới")];

const TELEX_TONE_REPOSITION: &[(&str, &str)] = &[("vieset", "viết"), ("vieste", "viết")];

const TELEX_ESC_RESTORE: &[(&str, &str)] = &[
    ("text\x1b", "text"), ("user\x1b", "user"), ("esc\x1b", "esc"), ("dd\x1b", "dd"),
    ("vieejt\x1b", "vieejt"), ("Vieejt\x1b", "Vieejt"),
];

const VNI_ESC_RESTORE: &[(&str, &str)] = &[("a1\x1b", "a1"), ("vie65t\x1b", "vie65t"), ("d9\x1b", "d9")];

const RAW_MODE_NORMAL: &[(&str, &str)] = &[("gox", "gõ"), ("vieejt", "việt")];

const VIETNAMESE_SHORT_WORDS: &[(&str, &str)] = &[
    ("nes", "né"), ("nef", "nè"), ("ner", "nẻ"), ("tes", "té"), ("tef", "tè"), ("ter", "tẻ"),
];

#[test]
fn test_telex_basic() {
    telex(TELEX_BASIC);
}

#[test]
fn test_telex_circumflex_with_nang() {
    telex(TELEX_CIRCUMFLEX_WITH_NANG);
}

#[test]
fn test_vni_basic() {
    vni(VNI_BASIC);
}

#[test]
fn test_telex_compound() {
    telex(TELEX_COMPOUND);
}

#[test]
fn test_telex_tone_reposition() {
    telex(TELEX_TONE_REPOSITION);
}

#[test]
fn test_telex_esc_restore() {
    for (input, expected) in TELEX_ESC_RESTORE {
        let mut e = Engine::new();
        e.set_esc_restore(true);
        let result = type_word(&mut e, input);
        assert_eq!(result, *expected, "[Telex] '{}' → '{}'", input, result);
    }
}

#[test]
fn test_vni_esc_restore() {
    for (input, expected) in VNI_ESC_RESTORE {
        let mut e = Engine::new();
        e.set_method(1);
        e.set_esc_restore(true);
        let result = type_word(&mut e, input);
        assert_eq!(result, *expected, "[VNI] '{}' → '{}'", input, result);
    }
}

#[test]
fn test_raw_mode_normal() {
    telex(RAW_MODE_NORMAL);
}

#[test]
fn test_vietnamese_short_words_with_tones() {
    telex(VIETNAMESE_SHORT_WORDS);
}

#[test]
fn test_double_tone_revert_ss() {
    let mut e = Engine::new();
    assert_eq!(type_word(&mut e, "ass"), "as");
}

#[test]
fn engine_shift_backspace_counts_shown_chars() {
    let mut e = Engine::new();
    type_word(&mut e, "vieejt");
    let r = e.handle_shift_backspace();
    assert_eq!(r.action, 1);
    assert_eq!(r.backspace, 4);
    assert_eq!(e.get_buffer(), "");
}

#[test]
fn test_unified_engine_creation() {
    let _engine = init();
}

#[test]
fn engine_ctrl_bypasses_and_clears() {
    let mut e = Engine::new();
    type_word(&mut e, "vie");
    let r = e.on_key(keys::A, false, true);
    assert_eq!(r.action, 0);
    assert_eq!(e.get_buffer(), "");
}

#[test]
fn engine_backspace_after_space_forgets_the_word() {
    let mut e = Engine::new();
    type_word(&mut e, "vieejt ");
    assert_eq!(e.get_buffer(), "");
    let r = e.on_key(keys::DELETE, false, false);
    assert_eq!(r.action, 0);
    assert_eq!(e.get_buffer(), "");
    assert_eq!(e.history_len(), 0);
}

#[test]
fn engine_shift_backspace_on_empty_word_does_nothing() {
    let mut e = Engine::new();
    type_word(&mut e, "gox ");
    let r = e.handle_shift_backspace();
    assert_eq!(r.action, 0);
    assert_eq!(r.backspace, 0);
}
#[test]
fn engine_restore_word_and_get_buffer() {
    let mut e = Engine::new();
    e.restore_word("Việt");
    assert_eq!(e.get_buffer(), "Việt");
}

#[test]
fn engine_remove_key_clears_mark() {
    let mut e = Engine::new();
    assert_eq!(type_word(&mut e, "asz"), "a");
}

#[test]
fn engine_disabled_passes_keys_through() {
    let mut e = Engine::new();
    e.set_enabled(false);
    assert_eq!(type_word(&mut e, "aa"), "aa");
}

const ENGLISH_MULTI_SYLLABLE: &[(&str, &str)] = &[
    ("telex", "telex"), ("release", "release"), ("delete", "delete"), ("select", "select"),
    ("element", "element"), ("reflex", "reflex"), ("importance", "importance"),
    ("complex", "complex"), ("export", "export"), ("express", "express"),
    ("implement", "implement"), ("complete", "complete"),
];

const ENGLISH_SHORT_WORDS: &[(&str, &str)] = &[("text", "text"), ("next", "next"), ("sexy", "sexy")];

#[test]
fn test_english_multi_syllable_detection() {
    for (input, expected) in ENGLISH_MULTI_SYLLABLE {
        let mut e = Engine::new();
        e.set_method(2);
        let result = type_word(&mut e, input);
        assert_eq!(result, *expected, "[English Multi-syllable] '{}' got '{}'", input, result);
    }
}

#[test]
fn test_english_short_words_detection() {
    for (input, expected) in ENGLISH_SHORT_WORDS {
        let mut e = Engine::new();
        e.set_method(2);
        let result = type_word(&mut e, input);
        assert_eq!(result, *expected, "[English Short] '{}' got '{}'", input, result);
    }
}

#[test]
fn test_telex_se_x_should_be_se_with_nga() {
    let mut e = Engine::new();
    e.set_method(0);
    e.set_enabled(true);
    e.on_key_ext(keys::S, false, false, false);
    e.on_key_ext(keys::E, false, false, false);
    let r = e.on_key_ext(keys::X, false, false, false);
    assert_eq!(r.action, 1, "Tone key should be consumed and produce output");
    assert_eq!(r.backspace, 1, "Should replace the last vowel with a toned vowel");
    assert_eq!(r.count as usize, 1, "Should emit exactly one character");
    assert_eq!(r.chars[0], 'ẽ', "Expected 'ẽ' after applying tone");
}

#[test]
fn test_ak_az_ah_invalid_syllables_blocked() {
    let mut e = Engine::new();
    e.set_method(0);
    e.set_enabled(true);
    assert_eq!(type_word(&mut e, "ak"), "ak");
    e = Engine::new();
    e.set_method(0);
    e.set_enabled(true);
    assert_eq!(type_word(&mut e, "az"), "az");
    e = Engine::new();
    e.set_method(0);
    e.set_enabled(true);
    assert_eq!(type_word(&mut e, "aht"), "aht");
    e = Engine::new();
    e.set_method(0);
    e.set_enabled(true);
    assert_eq!(type_word(&mut e, "anh"), "anh");
}

#[test]
fn test_ethnic_minority_place_names_kr_cluster() {
    let mut e = Engine::new();
    e.set_method(0);
    e.set_enabled(true);
    e.on_key_ext(keys::K, false, false, false);
    e.on_key_ext(keys::R, false, false, false);
    e.on_key_ext(keys::O, false, false, false);
    e.on_key_ext(keys::N, false, false, false);
    e.on_key_ext(keys::G, false, false, false);
    assert_eq!(e.get_buffer().chars().count(), 5, "Should have 5 chars for 'krong'");
    assert!(!e.is_english_word(), "'krong' should NOT be marked as English");
    let _r = e.on_key_ext(keys::O, false, false, false);
    assert_eq!(e.is_english_word(), false);
}

#[test]
fn test_auto_restore_on_space_regression() {

    // Test: "telex" -> with English detection fix:
    // - No circumflex applied on "ele" pattern (consonant between same vowels)
    // - 'x' is NOT applied as mark because buffer [t,e,l,e] fails validation
    //   ('l' is not a valid Vietnamese final consonant)
    // - Result: buffer = "telex" with NO transforms → pass through on space
    //
    // This is the correct behavior: English words don't get Vietnamese transforms,
    // so there's nothing to restore - just pass through.

    let mut e = Engine::new();
    e.set_method(0); // Telex
    e.set_enabled(true);

    // Type "telex"
    e.on_key_ext(keys::T, false, false, false);
    e.on_key_ext(keys::E, false, false, false);
    e.on_key_ext(keys::L, false, false, false);
    e.on_key_ext(keys::E, false, false, false);
    e.on_key_ext(keys::X, false, false, false);

    // With English detection fix:
    // - 'e' after 'l' is NOT transformed (ele pattern detected)
    // - 'x' is NOT applied as mark (buffer fails Vietnamese validation)
    // Buffer should have 5 chars: t,e,l,e,x (all raw, no transforms)
    assert_eq!(
        e.buffer_len(),
        5,
        "Buffer should have 5 chars for 'telex' (no transforms)"
    );

    // Verify NO Vietnamese transforms were applied
    let has_transforms = e.word_chars().iter().any(|c| c.tone != 0 || c.mark != 0 || c.stroke);
    assert!(
        !has_transforms,
        "Buffer should have no Vietnamese transforms for 'telex'"
    );

    // SPACE -> No transforms to restore, just pass through
    let r = e.on_key_ext(keys::SPACE, false, false, false);

    // No restore needed - pass through
    assert_eq!(
        r.action, 0,
        "Should pass through (no transforms to restore)"
    );
}

#[test]
fn test_auto_restore_element() {

    // Test: "element" → buffer "element" (no transform) + space → should pass through
    // With English detection fix: circumflex is NOT applied when consonant separates same vowels
    // So buffer stays as raw "element" without any Vietnamese transforms
    let mut e = Engine::new();
    e.set_method(0); // Telex
    e.set_enabled(true);

    // Type "element"
    e.on_key_ext(keys::E, false, false, false);
    e.on_key_ext(keys::L, false, false, false);
    e.on_key_ext(keys::E, false, false, false); // With fix: e is added raw (no circumflex)
    e.on_key_ext(keys::M, false, false, false);
    e.on_key_ext(keys::E, false, false, false);
    e.on_key_ext(keys::N, false, false, false);
    e.on_key_ext(keys::T, false, false, false);

    // Verify buffer length: should have 7 chars (e,l,e,m,e,n,t - all raw, no transforms)
    assert_eq!(
        e.buffer_len(),
        7,
        "Buffer should have 7 characters for 'element'"
    );

    // Verify no transforms were applied (all vowels have tone=0)
    let has_transforms = e.word_chars().iter().any(|c| c.tone != 0 || c.mark != 0 || c.stroke);
    assert!(
        !has_transforms,
        "Buffer should have no Vietnamese transforms for 'element'"
    );

    // SPACE → Should pass through (no transforms to restore)
    // With no transforms applied, there's nothing to restore
    let r = e.on_key_ext(keys::SPACE, false, false, false);

    // No restore needed - just pass through
    assert_eq!(
        r.action, 0,
        "Should pass through (no transforms to restore)"
    );
}

#[test]
fn test_auto_restore_release() {

    // Test: "release" → with fix, no circumflex applied → pass through
    let mut e = Engine::new();
    e.set_method(0); // Telex
    e.set_enabled(true);

    // Type "release"
    e.on_key_ext(keys::R, false, false, false);
    e.on_key_ext(keys::E, false, false, false);
    e.on_key_ext(keys::L, false, false, false);
    e.on_key_ext(keys::E, false, false, false);
    e.on_key_ext(keys::A, false, false, false);
    e.on_key_ext(keys::S, false, false, false);
    e.on_key_ext(keys::E, false, false, false);

    assert_eq!(
        e.buffer_len(),
        7,
        "Buffer should have 7 characters for 'release'"
    );

    // Verify no circumflex was applied
    let has_transforms = e.word_chars().iter().any(|c| c.tone != 0 || c.mark != 0 || c.stroke);
    assert!(
        !has_transforms,
        "Buffer should have no Vietnamese transforms for 'release'"
    );

    let r = e.on_key_ext(keys::SPACE, false, false, false);

    // No restore needed - just pass through
    assert_eq!(
        r.action, 0,
        "Should pass through (no transforms to restore)"
    );
}

#[test]
fn test_auto_restore_delete() {

    // Test: "delete" → with fix, no circumflex applied → pass through
    let mut e = Engine::new();
    e.set_method(0); // Telex
    e.set_enabled(true);

    // Type "delete"
    e.on_key_ext(keys::D, false, false, false);
    e.on_key_ext(keys::E, false, false, false);
    e.on_key_ext(keys::L, false, false, false);
    e.on_key_ext(keys::E, false, false, false);
    e.on_key_ext(keys::T, false, false, false);
    e.on_key_ext(keys::E, false, false, false);

    assert_eq!(
        e.buffer_len(),
        6,
        "Buffer should have 6 characters for 'delete'"
    );

    // Verify no circumflex was applied
    let has_transforms = e.word_chars().iter().any(|c| c.tone != 0 || c.mark != 0 || c.stroke);
    assert!(
        !has_transforms,
        "Buffer should have no Vietnamese transforms for 'delete'"
    );

    let r = e.on_key_ext(keys::SPACE, false, false, false);

    // No restore needed - just pass through
    assert_eq!(
        r.action, 0,
        "Should pass through (no transforms to restore)"
    );
}

#[test]
fn test_auto_restore_reverse() {

    // Test: "reverse" → with fix, no circumflex applied → pass through
    let mut e = Engine::new();
    e.set_method(0); // Telex
    e.set_enabled(true);

    // Type "reverse"
    e.on_key_ext(keys::R, false, false, false);
    e.on_key_ext(keys::E, false, false, false);
    e.on_key_ext(keys::V, false, false, false);
    e.on_key_ext(keys::E, false, false, false);
    e.on_key_ext(keys::R, false, false, false);
    e.on_key_ext(keys::S, false, false, false);
    e.on_key_ext(keys::E, false, false, false);

    assert_eq!(
        e.buffer_len(),
        7,
        "Buffer should have 7 characters for 'reverse'"
    );

    // Verify no circumflex was applied (note: 'r' and 's' are tone modifiers but won't apply here)
    let has_circumflex = e.word_chars().iter().any(|c| c.tone == 1); // tone=1 is circumflex
    assert!(
        !has_circumflex,
        "Buffer should have no circumflex for 'reverse'"
    );

    let r = e.on_key_ext(keys::SPACE, false, false, false);

    // No restore needed - just pass through
    assert_eq!(
        r.action, 0,
        "Should pass through (no transforms to restore)"
    );
}

#[test]
fn test_auto_restore_generate() {

    // Test: "generate" → with fix, no circumflex applied → pass through
    let mut e = Engine::new();
    e.set_method(0); // Telex
    e.set_enabled(true);

    // Type "generate"
    e.on_key_ext(keys::G, false, false, false);
    e.on_key_ext(keys::E, false, false, false);
    e.on_key_ext(keys::N, false, false, false);
    e.on_key_ext(keys::E, false, false, false);
    e.on_key_ext(keys::R, false, false, false);
    e.on_key_ext(keys::A, false, false, false);
    e.on_key_ext(keys::T, false, false, false);
    e.on_key_ext(keys::E, false, false, false);

    assert_eq!(
        e.buffer_len(),
        8,
        "Buffer should have 8 characters for 'generate'"
    );

    // Verify no circumflex was applied
    let has_circumflex = e.word_chars().iter().any(|c| c.tone == 1);
    assert!(
        !has_circumflex,
        "Buffer should have no circumflex for 'generate'"
    );

    let r = e.on_key_ext(keys::SPACE, false, false, false);

    // No restore needed - just pass through
    assert_eq!(
        r.action, 0,
        "Should pass through (no transforms to restore)"
    );
}

#[test]
fn test_auto_restore_improve() {

    // Test: "improve" typing behavior
    //
    // CURRENT BEHAVIOR (after fix):
    // - Gõ "i,m,p" → at 3 chars, "imp" pattern detected as English at 'p' keystroke
    //   BUT: 'p' is NOT a modifier key, so English detection runs
    //   Result: is_english_word = true
    // - Gõ "r" → since is_english_word = true, 'r' is added as normal letter (not modifier)
    // - Final buffer: i-m-p-r-o-v-e (7 chars, NO transforms)
    // - Space: no transforms to restore, just pass through
    //
    // ALTERNATIVE (if transforms applied):
    // - If English detection fails at "imp", 'r' would apply hỏi to 'i'
    // - Buffer would be: ỉ-m-p-o-v-e (6 chars, 'r' consumed)
    // - Space: should restore to "improve " via auto_restore_english()
    //
    // Both outcomes should result in "improve " being output to user.
    let mut e = Engine::new();
    e.set_method(0); // Telex
    e.set_enabled(true);

    // Type "improve"
    e.on_key_ext(keys::I, false, false, false);
    e.on_key_ext(keys::M, false, false, false);
    e.on_key_ext(keys::P, false, false, false);
    e.on_key_ext(keys::R, false, false, false);
    e.on_key_ext(keys::O, false, false, false);
    e.on_key_ext(keys::V, false, false, false);
    e.on_key_ext(keys::E, false, false, false);

    // Check if transform was applied (determines which code path we're on)
    let has_transforms = e.word_chars().iter().any(|c| c.mark > 0 || c.tone > 0 || c.stroke);

    // Auto-restore feature has been removed - just check buffer state
    if has_transforms {
        // Path A: Transforms applied (6 chars, 'r' consumed as modifier)
        assert_eq!(e.buffer_len(), 6, "With transforms, buffer has 6 chars");
    } else {
        // Path B: No transforms (7 chars, early English detection worked)
        assert_eq!(e.buffer_len(), 7, "Without transforms, buffer has 7 chars");
    }

    // Space should pass through (no auto-restore)
    let r = e.on_key_ext(keys::SPACE, false, false, false);
    assert_eq!(r.action, 0, "Auto-restore removed - should pass through");
}

#[test]
fn test_auto_restore_improvement() {

    // Test: "improvement" + space → "improvement " (correct)
    // Verifies longer English words with "mp" cluster are handled correctly.
    let mut e = Engine::new();
    e.set_method(0); // Telex
    e.set_enabled(true);

    // Type "improvement"
    for key in [
        keys::I,
        keys::M,
        keys::P,
        keys::R,
        keys::O,
        keys::V,
        keys::E,
        keys::M,
        keys::E,
        keys::N,
        keys::T,
    ] {
        e.on_key_ext(key, false, false, false);
    }

    // Auto-restore feature has been removed
    // Just verify the buffer state and that space passes through
    let _has_transforms = e.word_chars().iter().any(|c| c.mark > 0 || c.tone > 0 || c.stroke);
    let r = e.on_key_ext(keys::SPACE, false, false, false);

    // Space should pass through (no auto-restore)
    assert_eq!(r.action, 0, "Auto-restore removed - should pass through");
}

#[test]
fn test_auto_restore_import() {

    // Test: "import" - has "mp" consonant cluster (impossible in Vietnamese)
    let mut e = Engine::new();
    e.set_method(0); // Telex
    e.set_enabled(true);

    for key in [keys::I, keys::M, keys::P, keys::O, keys::R, keys::T] {
        e.on_key_ext(key, false, false, false);
    }

    // Auto-restore feature has been removed
    // Just verify that space passes through
    let _has_transforms = e.word_chars().iter().any(|c| c.mark > 0 || c.tone > 0 || c.stroke);
    let r = e.on_key_ext(keys::SPACE, false, false, false);

    // Space should pass through (no auto-restore)
    assert_eq!(r.action, 0, "Auto-restore removed - should pass through");
}

#[test]
fn test_auto_restore_express() {

    // Test: "express" - has "pr" consonant cluster (impossible in Vietnamese)
    let mut e = Engine::new();
    e.set_method(0); // Telex
    e.set_enabled(true);

    for key in [
        keys::E,
        keys::X,
        keys::P,
        keys::R,
        keys::E,
        keys::S,
        keys::S,
    ] {
        e.on_key_ext(key, false, false, false);
    }

    // Auto-restore feature has been removed
    // Just verify that space passes through
    let _has_transforms = e.word_chars().iter().any(|c| c.mark > 0 || c.tone > 0 || c.stroke);
    let r = e.on_key_ext(keys::SPACE, false, false, false);

    // Space should pass through (no auto-restore)
    assert_eq!(r.action, 0, "Auto-restore removed - should pass through");
}

#[test]
fn test_auto_restore_please() {

    // Test: "please" - has "pl" consonant cluster (impossible in Vietnamese)
    let mut e = Engine::new();
    e.set_method(0); // Telex
    e.set_enabled(true);

    for key in [keys::P, keys::L, keys::E, keys::A, keys::S, keys::E] {
        e.on_key_ext(key, false, false, false);
    }

    // Auto-restore feature has been removed
    // Just verify that space passes through
    let _has_transforms = e.word_chars().iter().any(|c| c.mark > 0 || c.tone > 0 || c.stroke);
    let r = e.on_key_ext(keys::SPACE, false, false, false);

    // Space should pass through (no auto-restore)
    assert_eq!(r.action, 0, "Auto-restore removed - should pass through");
}

#[test]
fn test_auto_restore_improve_fix_verification() {

    // This test verifies the fix for the reported bug:
    // "improve" + space → should result in "improve " (not "ỉmpove ")
    //
    // The fix adds consonant cluster detection (mp, pr, etc.) to
    // has_english_word_pattern() so auto-restore triggers correctly.
    let mut e = Engine::new();
    e.set_method(0); // Telex
    e.set_enabled(true);

    // Type "improve"
    for key in [
        keys::I,
        keys::M,
        keys::P,
        keys::R,
        keys::O,
        keys::V,
        keys::E,
    ] {
        e.on_key_ext(key, false, false, false);
    }

    assert_eq!(e.raw_input_len(), 7, "raw_input should have 7 keys");

    // Auto-restore feature has been removed
    // Just verify buffer state and that space passes through
    let _has_transform = e.word_chars().iter().any(|c| c.mark > 0 || c.tone > 0 || c.stroke);

    let r = e.on_key_ext(keys::SPACE, false, false, false);

    // Space should pass through (no auto-restore)
    assert_eq!(r.action, 0, "Auto-restore removed - should pass through");
}

// NOTE: This test is commented out because it tests behavior that may have changed
// in recent engine updates. The core memory optimization doesn't affect this behavior.
// TODO: Review and update this test to match current engine behavior

#[test]
fn test_english_bypass_after_detection_better() {

    // Test: [b,e,t,t,e,r] → "better"
    // - "tt" (double consonant) triggers English detection
    // - Subsequent 'e' and 'r' should bypass Vietnamese transforms
    let mut e = Engine::new();
    e.set_method(0); // Telex
    e.set_enabled(true);

    // Type "better"
    for key in [keys::B, keys::E, keys::T, keys::T, keys::E, keys::R] {
        e.on_key_ext(key, false, false, false);
    }

    assert_eq!(
        e.buffer_len(),
        6,
        "Buffer should have 6 characters for 'better'"
    );

    // Verify NO transforms were applied
    let has_transforms = e.word_chars().iter().any(|c| c.mark > 0 || c.tone > 0 || c.stroke);
    assert!(
        !has_transforms,
        "Buffer should have no Vietnamese transforms for 'better'"
    );

    let output = e.get_buffer();
    assert_eq!(output, "better", "Output should be 'better'");
}

#[test]
fn test_english_bypass_after_detection_process() {

    // Test: [p,r,o,c,e,s,s] → "process"
    // - "pr" cluster triggers English detection early
    // - Subsequent keys should bypass Vietnamese transforms
    let mut e = Engine::new();
    e.set_method(0); // Telex
    e.set_enabled(true);

    // Type "process"
    for key in [
        keys::P,
        keys::R,
        keys::O,
        keys::C,
        keys::E,
        keys::S,
        keys::S,
    ] {
        e.on_key_ext(key, false, false, false);
    }

    assert_eq!(
        e.buffer_len(),
        7,
        "Buffer should have 7 characters for 'process'"
    );

    // Verify NO transforms were applied
    let has_transforms = e.word_chars().iter().any(|c| c.mark > 0 || c.tone > 0 || c.stroke);
    assert!(
        !has_transforms,
        "Buffer should have no Vietnamese transforms for 'process'"
    );

    let output = e.get_buffer();
    assert_eq!(output, "process", "Output should be 'process'");
}

#[test]
fn test_english_bypass_stress() {

    // Test: "stress" - has 'ss' double consonant AND 'str' cluster
    // 's' is a tone key in Telex, but should be bypassed after English detection
    let mut e = Engine::new();
    e.set_method(0); // Telex
    e.set_enabled(true);

    // Type "stress"
    for key in [keys::S, keys::T, keys::R, keys::E, keys::S, keys::S] {
        e.on_key_ext(key, false, false, false);
    }

    assert_eq!(
        e.buffer_len(),
        6,
        "Buffer should have 6 characters for 'stress'"
    );

    // Verify NO transforms were applied
    let has_transforms = e.word_chars().iter().any(|c| c.mark > 0 || c.tone > 0 || c.stroke);
    assert!(
        !has_transforms,
        "Buffer should have no Vietnamese transforms for 'stress'"
    );

    let output = e.get_buffer();
    assert_eq!(output, "stress", "Output should be 'stress'");
}

#[test]
fn test_english_bypass_express() {

    // Test: "express" - has 'ex' pattern and 'ss' double consonant
    // Multiple tone keys (s, r, x) should all be bypassed
    let mut e = Engine::new();
    e.set_method(0); // Telex
    e.set_enabled(true);

    // Type "express"
    for key in [
        keys::E,
        keys::X,
        keys::P,
        keys::R,
        keys::E,
        keys::S,
        keys::S,
    ] {
        e.on_key_ext(key, false, false, false);
    }

    assert_eq!(
        e.buffer_len(),
        7,
        "Buffer should have 7 characters for 'express'"
    );

    // Verify NO transforms were applied
    let has_transforms = e.word_chars().iter().any(|c| c.mark > 0 || c.tone > 0 || c.stroke);
    assert!(
        !has_transforms,
        "Buffer should have no Vietnamese transforms for 'express'"
    );

    let output = e.get_buffer();
    assert_eq!(output, "express", "Output should be 'express'");
}

#[test]
fn test_nghieem_bug_fix() {
    let mut e = Engine::new();
    e.set_method(0); // Telex
    e.set_enabled(true);

    // Test patterns with "ngh" prefix
    let result = type_word(&mut e, "nghia");
    println!("nghia -> '{}'", result);

    e = Engine::new();
    e.set_method(0);
    e.set_enabled(true);
    let result = type_word(&mut e, "nghiaa");
    println!("nghiaa -> '{}'", result);

    e = Engine::new();
    e.set_method(0);
    e.set_enabled(true);
    let result = type_word(&mut e, "nghie");
    println!("nghie -> '{}'", result);

    e = Engine::new();
    e.set_method(0);
    e.set_enabled(true);
    let result = type_word(&mut e, "nghiee");
    println!("nghiee -> '{}'", result);
    assert_eq!(result, "nghiê", "nghiee should become nghiê");
}

#[test]
fn test_telex_single_vowel_tone() {
    // Single vowel + tone key should apply the tone, not be treated as English
    let cases: &[(&str, &str)] = &[
        ("of", "ò"), // o + f(huyền) = ò
        ("is", "í"), // i + s(sắc) = í
        ("ax", "ã"), // a + x(ngã) = ã
        ("ej", "ẹ"), // e + j(nặng) = ẹ
    ];
    telex(cases);
}

#[test]
fn test_double_consonant_english_restore() {
    // After double-key revert (ss), subsequent letters should produce
    // the full English word with both consonants preserved.
    // e.g., "a-s-s-i-g-n" → "assign" (not "asign")

    let mut e = Engine::new();
    e.set_method(0); // Telex
    e.set_enabled(true);

    // Type "assign": a-s(sắc)-s(revert)-i-g-n
    for &k in &[keys::A, keys::S, keys::S, keys::I, keys::G, keys::N] {
        e.on_key_ext(k, false, false, false);
    }

    // After all keys, buf should have all 6 chars (synced with raw_input)
    let buf_word: String = e
        .word_chars()
        .iter()
        .filter_map(|c| keys::key_to_char(c.key, c.caps))
        .collect();

    assert_eq!(
        buf_word,
        "assign",
        "Expected 'assign' but got '{}' (buf.len={}, raw.len={})",
        buf_word,
        e.buffer_len(),
        e.raw_input_len()
    );
}

#[test]
fn test_double_consonant_english_message() {

    let mut e = Engine::new();
    e.set_method(0);
    e.set_enabled(true);

    // Type "message": m-e-s-s-a-g-e
    for &k in &[
        keys::M,
        keys::E,
        keys::S,
        keys::S,
        keys::A,
        keys::G,
        keys::E,
    ] {
        e.on_key_ext(k, false, false, false);
    }

    let buf_word: String = e
        .word_chars()
        .iter()
        .filter_map(|c| keys::key_to_char(c.key, c.caps))
        .collect();

    assert_eq!(
        buf_word, "message",
        "Expected 'message' but got '{}'",
        buf_word
    );
}

#[test]
fn test_double_consonant_english_afford() {

    let mut e = Engine::new();
    e.set_method(0);
    e.set_enabled(true);

    // Type "afford": a-f-f-o-r-d
    for &k in &[keys::A, keys::F, keys::F, keys::O, keys::R, keys::D] {
        e.on_key_ext(k, false, false, false);
    }

    let buf_word: String = e
        .word_chars()
        .iter()
        .filter_map(|c| keys::key_to_char(c.key, c.caps))
        .collect();

    assert_eq!(
        buf_word, "afford",
        "Expected 'afford' but got '{}'",
        buf_word
    );
}

#[test]
fn test_restore_does_not_eat_space() {
    // "auto" + space + "restore" should NOT merge into "autorestore"
    // The restore mechanism should only backspace within the current word

    let mut e = Engine::new();
    e.set_method(0);
    e.set_enabled(true);

    // Type "auto"
    for &k in &[keys::A, keys::U, keys::T, keys::O] {
        e.on_key_ext(k, false, false, false);
    }
    // Space commits word
    let _space_result = e.on_key_ext(keys::SPACE, false, false, false);
    // After space, buffer should be empty
    assert_eq!(e.buffer_len(), 0, "Buffer should be empty after space");
    assert_eq!(
        e.raw_input_len(),
        0,
        "Raw input should be empty after space"
    );

    // Type "restore" and track cumulative screen position
    let mut screen_chars: usize = 0; // chars currently on screen for this word
    let restore_keys = [
        keys::R,
        keys::E,
        keys::S,
        keys::T,
        keys::O,
        keys::R,
        keys::E,
    ];
    for (i, &k) in restore_keys.iter().enumerate() {
        let r = e.on_key_ext(k, false, false, false);
        if r.action != 0 {
            // For Send/Restore results, pending key is swallowed.
            // Backspace must NEVER exceed what is currently on screen.
            assert!(
                r.backspace as usize <= screen_chars,
                "Step {} (key {}): backspace {} exceeds screen_chars {}",
                i,
                k,
                r.backspace,
                screen_chars
            );
            screen_chars = screen_chars.saturating_sub(r.backspace as usize);
            screen_chars += r.count as usize;
        } else {
            // Pass-through adds one visible character
            screen_chars += 1;
        }
    }
}

#[test]
fn test_auto_restore_cost() {

    let mut e = Engine::new();
    e.set_method(0); // Telex
    e.set_enabled(true);

    // "cost" → 's' applies sắc to 'o' → "cóst" should restore to "cost"
    e.on_key_ext(keys::C, false, false, false);
    e.on_key_ext(keys::O, false, false, false);
    e.on_key_ext(keys::S, false, false, false);
    e.on_key_ext(keys::T, false, false, false);

    let has_transforms = e.word_chars().iter().any(|c| c.tone != 0 || c.mark != 0 || c.stroke);
    assert!(
        !has_transforms,
        "'cost' should have no Vietnamese transforms after auto-restore"
    );
}

#[test]
fn test_auto_restore_console() {

    let mut e = Engine::new();
    e.set_method(0); // Telex
    e.set_enabled(true);

    for key in [
        keys::C,
        keys::O,
        keys::N,
        keys::S,
        keys::O,
        keys::L,
        keys::E,
    ] {
        e.on_key_ext(key, false, false, false);
    }

    let has_transforms = e.word_chars().iter().any(|c| c.tone != 0 || c.mark != 0 || c.stroke);
    assert!(
        !has_transforms,
        "'console' should have no Vietnamese transforms after auto-restore"
    );
}

#[test]
fn test_mark_not_restored_by_english_dict_vow() {

    // Test: "v-o-w" should produce "vơ" (horn on o), NOT restore to "vow"
    // Even though "vow" is an English word, the horn modifier 'w' signals
    // explicit Vietnamese typing intent. The user wants vơ → vơi, với, etc.
    let mut e = Engine::new();
    e.set_method(0); // Telex
    e.set_enabled(true);

    e.on_key_ext(keys::V, false, false, false);
    e.on_key_ext(keys::O, false, false, false);
    let r = e.on_key_ext(keys::W, false, false, false);

    // 'w' should apply horn diacritical (stored in tone field), producing "vơ"
    let has_horn = e.word_chars().iter().any(|c| c.tone != 0);
    assert!(
        has_horn,
        "'vow' should keep Vietnamese horn (vơ), not restore to English 'vow'"
    );
    // Result should send the transformed text (action=Send)
    assert_eq!(r.action, 1, "Should send transformed text 'vơ'");

    // Continue typing 'i' → should produce "vơi"
    let _r2 = e.on_key_ext(keys::I, false, false, false);
    assert_eq!(
        e.buffer_len(),
        3,
        "Buffer should have 3 chars for 'vơi'"
    );
    let has_horn = e.word_chars().iter().any(|c| c.tone != 0);
    assert!(
        has_horn,
        "'vơi' should retain horn after adding 'i'"
    );
}

#[test]
fn test_mark_not_restored_by_english_dict_how() {

    // Test: "h-o-w" should produce "hơ", NOT restore to "how"
    let mut e = Engine::new();
    e.set_method(0); // Telex
    e.set_enabled(true);

    e.on_key_ext(keys::H, false, false, false);
    e.on_key_ext(keys::O, false, false, false);
    e.on_key_ext(keys::W, false, false, false);

    let has_horn = e.word_chars().iter().any(|c| c.tone != 0);
    assert!(
        has_horn,
        "'how' should keep Vietnamese horn (hơ), not restore to English 'how'"
    );
}

#[test]
fn test_shift_backspace_deletes_word() {
    let mut e = Engine::new();
    type_word(&mut e, "vieejt");
    let r = e.on_key_ext(keys::DELETE, false, false, true);
    assert!(r.backspace > 0, "Shift+Backspace should produce backspaces, got backspace={}", r.backspace);
    assert!(r.backspace > 0, "Shift+Backspace should produce backspaces, got backspace={}", r.backspace);
}

#[test]
fn test_performance_english_detection() {
    let mut e = Engine::new();
    e.set_method(0);
    e.set_enabled(true);
    let test_words = vec![
        ("express", "express"),
        ("stress", "stress"),
        ("export", "export"),
        ("address", "address"),
        ("better", "better"),
    ];
    let start = Instant::now();
    for (input, expected) in test_words {
        e.clear();
        let result = type_word(&mut e, input);
        assert_eq!(result, expected, "English detection should work for {}", input);
    }
    let elapsed = start.elapsed();
    assert!(elapsed.as_millis() < 10, "English detection too slow: {:?}", elapsed);
}

#[test]
fn test_backspace_after_select_all_deletion() {

    // Test: Fix bug where pressing backspace after select-all deletion
    // incorrectly restores content from word history
    // Scenario: Type "gõ " → Cmd+A → backspace → backspace again
    // Expected: Second backspace should do nothing (not restore "g")
    let mut e = Engine::new();
    e.set_method(0); // Telex
    e.set_enabled(true);

    // Type "gox " → produces "gõ " and commits to word history
    e.on_key_ext(keys::G, false, false, false); // g
    e.on_key_ext(keys::O, false, false, false); // go
    e.on_key_ext(keys::X, false, false, false); // gõ

    let space_result = e.on_key_ext(keys::SPACE, false, false, false); // gõ + space
    assert_eq!(space_result.action, 0, "Space should pass through");

    // At this point: buf is empty, word_history has "gõ", spaces_after_commit = 1
    assert!((e.buffer_len() == 0), "Buffer should be cleared after space");
    assert_eq!(
        e.spaces_after_commit(), 1,
        "Should track one space after commit"
    );

    // Simulate: User does Cmd+A (selects "gõ ") and presses backspace
    // The native app deletes the selected text, but IME buffer is already empty
    // So when IME receives the backspace event, buf.is_empty() is true
    let _first_backspace = e.on_key_ext(keys::DELETE, false, false, false);

    // The first backspace should either:
    // - Delete a space and decrement spaces_after_commit, OR
    // - Pass through because buffer is empty
    // But it should NOT restore from word_history yet

    // Press backspace again (the problematic case)
    let second_backspace = e.on_key_ext(keys::DELETE, false, false, false);

    // BUGFIX VERIFICATION:
    // Before fix: second backspace would restore "gõ" from word_history,
    //             then return backspace=1, causing "g" to appear
    // After fix: second backspace should pass through (action=0)
    //            because word_history and spaces_after_commit are cleared
    assert_eq!(
        second_backspace.action, 0,
        "Second backspace should pass through, not restore from history"
    );
    assert_eq!(
        second_backspace.backspace, 0,
        "Should not send any backspace commands"
    );

    // Verify state is fully cleared
    assert!((e.buffer_len() == 0), "Buffer should remain empty");
    assert!((e.raw_input_len() == 0), "Raw input should be cleared");
    assert_eq!(e.spaces_after_commit(), 0, "Spaces counter should be reset");
    assert_eq!(e.history_len(), 0, "Word history should be cleared");
}

#[test]
fn test_backspace_consecutive_fast_path() {

    // Test: rapid consecutive backspaces should use fast path when possible
    let mut e = Engine::new();
    e.set_method(0); // Telex
    e.set_enabled(true);

    // Type "chao" then add trailing consonants
    e.on_key_ext(keys::C, false, false, false);
    e.on_key_ext(keys::H, false, false, false);
    e.on_key_ext(keys::A, false, false, false);
    e.on_key_ext(keys::O, false, false, false); // "chao"
    e.on_key_ext(keys::N, false, false, false); // "chaon"
    e.on_key_ext(keys::G, false, false, false); // "chaong"
    e.on_key_ext(keys::T, false, false, false); // "chaongt"

    // Delete 't' - fast path (independent consonant)
    let r1 = e.on_key_ext(keys::DELETE, false, false, false);
    assert_eq!(r1.backspace, 1, "First delete should be fast path");

    // Delete 'g' - fast path (independent consonant)
    let r2 = e.on_key_ext(keys::DELETE, false, false, false);
    assert_eq!(r2.backspace, 1, "Second delete should be fast path");

    // Delete 'n' - fast path (independent consonant)
    let r3 = e.on_key_ext(keys::DELETE, false, false, false);
    assert_eq!(r3.backspace, 1, "Third delete should be fast path");
}

#[test]
fn test_backspace_fast_path_trailing_consonant() {

    // Test: "hoán" + backspace → should use fast path (just delete 'n')
    let mut e = Engine::new();
    e.set_method(0); // Telex
    e.set_enabled(true);

    // Type "hoan" → "hoán" (add tone after consonant to avoid rebuild)
    e.on_key_ext(keys::H, false, false, false);
    e.on_key_ext(keys::O, false, false, false);
    e.on_key_ext(keys::A, false, false, false);
    e.on_key_ext(keys::N, false, false, false);
    e.on_key_ext(keys::S, false, false, false); // Add tone → "hoán"

    // Add trailing consonant "g"
    let _result = e.on_key_ext(keys::G, false, false, false);
    // Buffer now: "hoáng"

    // Delete 'g' - should use fast path (independent trailing consonant)
    let delete_result = e.on_key_ext(keys::DELETE, false, false, false);
    assert_eq!(
        delete_result.backspace, 1,
        "Should only send 1 backspace for independent trailing char"
    );
    assert_eq!(
        delete_result.count, 0,
        "Should not send replacement text in fast path"
    );
}

#[test]
fn test_backspace_screen_char_accuracy() {

    // Test: "hoá" has 3 screen chars, not 4 buffer positions
    let mut e = Engine::new();
    e.set_method(0); // Telex
    e.set_enabled(true);

    // Type "hoas" → "hoá" (4 buffer positions, 3 screen chars)
    e.on_key_ext(keys::H, false, false, false);
    e.on_key_ext(keys::O, false, false, false);
    e.on_key_ext(keys::A, false, false, false);
    e.on_key_ext(keys::S, false, false, false);

    // Delete 's' - should rebuild syllable with correct backspace count
    let delete_result = e.on_key_ext(keys::DELETE, false, false, false);
    // After deleting 's', "hoá" becomes "hoa"
    // Should send 3 backspaces (for "hoá"), then "hoa"
    assert_eq!(
        delete_result.backspace, 3,
        "Should send 3 backspaces for 3 screen chars"
    );
    assert!(delete_result.count > 0, "Should send replacement text");
}


#[test]
fn engine_plain_letters_send_nothing() {
    let mut e = Engine::new();
    for (i, c) in "hoc".chars().enumerate() {
        let r = e.on_key(key_of(c), false, false);
        assert_eq!(r.action, 0);
        assert_eq!(r.backspace, 0);
        assert_eq!(e.get_buffer().chars().count(), i + 1);
    }
    assert_eq!(e.get_buffer(), "hoc");
    let r = e.on_key(keys::H, true, false);
    assert_eq!(r.action, 0);
    assert_eq!(e.get_buffer(), "hocH");
}

#[test]
fn engine_delete_after_plain_letter_takes_one_char() {
    let mut e = Engine::new();
    type_word(&mut e, "hoan");
    let r = e.on_key(keys::DELETE, false, false);
    assert_eq!(r.action, 1);
    assert_eq!(r.backspace, 1);
    assert_eq!(r.count, 0);
    assert_eq!(e.get_buffer(), "hoa");
}

#[test]
fn engine_first_j_marks_word_english() {
    let mut e = Engine::new();
    e.set_method(1);
    assert_eq!(type_word(&mut e, "jo"), "jo");
    assert!(e.is_english_word());
}
