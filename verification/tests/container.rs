use goxviet_core::config::{Container, EngineConfig};
use goxviet_core::domain::InputMethodId;
use goxviet_core::transform::ToneStrategy;


#[test]
fn test_container_new() {
    let container = Container::new();
    let config = container.get_config();
    assert_eq!(config.input_method, InputMethodId::Telex);
}

#[test]
fn test_container_with_custom_config() {
    let custom_config = EngineConfig {
        input_method: InputMethodId::Vni,
        tone_strategy: ToneStrategy::default(),
        enabled: true,
        smart_mode: false,
        spell_check: true,
        auto_correct: false,
        max_history_size: 100,
        buffer_timeout_ms: 1000,
        use_modern_tone_placement: false,
        enable_shortcuts: true,
        instant_restore_enabled: true,
        esc_restore_enabled: false,
    };

    let container = Container::with_config(custom_config.clone());
    let config = container.get_config();

    assert_eq!(config.input_method, InputMethodId::Vni);
    assert!(!config.smart_mode);
}

#[test]
fn test_container_update_config() {
    let mut container = Container::new();

    let new_config = EngineConfig {
        input_method: InputMethodId::Vni,
        tone_strategy: ToneStrategy::default(),
        enabled: true,
        smart_mode: false,
        spell_check: true,
        auto_correct: false,
        max_history_size: 100,
        buffer_timeout_ms: 1000,
        use_modern_tone_placement: true,
        enable_shortcuts: true,
        instant_restore_enabled: true,
        esc_restore_enabled: false,
    };

    container.update_config(new_config.clone());
    let config = container.get_config();

    assert_eq!(config.input_method, InputMethodId::Vni);
}

#[test]
fn test_container_default() {
    let container = Container::default();
    let config = container.get_config();
    assert_eq!(config.input_method, InputMethodId::Telex);
}


#[test]
fn default_config_values() {
    let c = goxviet_core::config::default_config();
    assert_eq!(c, EngineConfig::default());
    assert_eq!(c.tone_strategy, ToneStrategy::Modern);
    assert!(c.enabled && c.smart_mode && c.spell_check && !c.auto_correct);
    assert!(c.use_modern_tone_placement && c.enable_shortcuts && c.instant_restore_enabled);
    assert!(!c.esc_restore_enabled);
    assert_eq!(c.max_history_size, 100);
    assert_eq!(c.buffer_timeout_ms, 1000);
    let container = Container::with_config(c);
    assert_eq!(container.get_config(), c);
}

#[test]
fn container_keeps_shortcuts_across_config_updates() {
    let mut container = Container::new();
    assert!(container.shortcut_manager().add("tks", "thanks"));
    let mut c = container.get_config();
    c.input_method = InputMethodId::Vni;
    container.update_config(c);
    assert_eq!(container.shortcut_manager().len(), 1);
    assert_eq!(container.get_config().input_method, InputMethodId::Vni);
}
