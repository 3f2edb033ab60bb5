use goxviet_core::bridge::{
    from_engine_config, from_input_method_id, from_tone_style, to_engine_config,
    to_input_method_id, to_tone_style, FfiConfig, FfiInputMethod, FfiToneStyle, TonePlacementStyle,
};
use goxviet_core::domain::InputMethodId;


#[test]
fn test_input_method_conversions() {
    let telex = FfiInputMethod::Telex;
    let id = to_input_method_id(telex);
    assert_eq!(id, InputMethodId::Telex);
    assert_eq!(from_input_method_id(id), telex);

    let vni = FfiInputMethod::Vni;
    let id = to_input_method_id(vni);
    assert_eq!(id, InputMethodId::Vni);
    assert_eq!(from_input_method_id(id), vni);
}

#[test]
fn test_tone_style_conversions() {
    let old = FfiToneStyle::Old;
    let style = to_tone_style(old);
    assert_eq!(style, TonePlacementStyle::Old);
    assert_eq!(from_tone_style(style), old);

    let new = FfiToneStyle::New;
    let style = to_tone_style(new);
    assert_eq!(style, TonePlacementStyle::New);
    assert_eq!(from_tone_style(style), new);
}

#[test]
fn test_engine_config_conversions() {
    let ffi_config = FfiConfig {
        input_method: FfiInputMethod::Vni,
        tone_style: FfiToneStyle::Old,
        smart_mode: false,
        enable_shortcuts: true,
    };

    let engine_config = to_engine_config(ffi_config);
    assert_eq!(engine_config.input_method, InputMethodId::Vni);
    assert!(!engine_config.smart_mode);

    let back = from_engine_config(&engine_config);
    assert_eq!(back.input_method, ffi_config.input_method);
    assert_eq!(back.smart_mode, ffi_config.smart_mode);
}

#[test]
fn conversions_v2_and_defaults() {
    use_v2();
}

fn use_v2() {
    let c = goxviet_core::bridge::FfiConfig_v2 {
        input_method: FfiInputMethod::Vni,
        tone_style: FfiToneStyle::New,
        smart_mode: true,
        instant_restore_enabled: false,
        esc_restore_enabled: true,
        enable_shortcuts: false,
    };
    let e = goxviet_core::bridge::to_engine_config_v2(&c);
    assert_eq!(e.input_method, InputMethodId::Vni);
    assert!(e.use_modern_tone_placement);
    assert!(!e.instant_restore_enabled);
    assert!(e.esc_restore_enabled);
    assert_eq!(e.max_history_size, 100);
    assert_eq!(e.buffer_timeout_ms, 1000);
    let back = goxviet_core::bridge::from_engine_config_v2(&e);
    assert_eq!(back, c);
    assert_eq!(from_input_method_id(InputMethodId::Plain), FfiInputMethod::Telex);
    let old = to_engine_config(FfiConfig { input_method: FfiInputMethod::Telex, tone_style: FfiToneStyle::Old, smart_mode: true, enable_shortcuts: false });
    assert!(!old.use_modern_tone_placement);
    assert!(old.instant_restore_enabled);
    assert!(!old.esc_restore_enabled);
}
