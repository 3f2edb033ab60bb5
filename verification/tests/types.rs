use goxviet_core::bridge::{FfiConfig, FfiInputMethod, FfiResult, FfiStatusCode, FfiToneStyle};


#[test]
fn test_ffi_input_method_default() {
    let method = FfiInputMethod::default();
    assert_eq!(method, FfiInputMethod::Telex);
}

#[test]
fn test_ffi_tone_style_default() {
    let style = FfiToneStyle::default();
    assert_eq!(style, FfiToneStyle::New);
}

#[test]
fn test_ffi_config_default() {
    let config = FfiConfig::default();
    assert_eq!(config.input_method, FfiInputMethod::Telex);
    assert_eq!(config.tone_style, FfiToneStyle::New);
    assert!(config.smart_mode);
    assert!(config.enable_shortcuts);
}

#[test]
fn status_codes() {
    assert!(FfiStatusCode::Success.is_success());
    assert!(!FfiStatusCode::ErrorNotFound.is_success());
    assert_eq!(FfiStatusCode::Success.to_c_int(), 0);
    assert_eq!(FfiStatusCode::ErrorNotFound.to_c_int(), -31);
    assert_eq!(FfiStatusCode::ErrorPanic.to_c_int(), -99);
    assert_eq!(FfiStatusCode::ErrorOutOfMemory.to_c_int(), -20);
}

#[test]
fn test_ffi_result_ok() {
    let result = FfiResult::ok();
    assert!(result.success);
    assert_eq!(result.error_code, 0);
}

#[test]
fn test_ffi_result_err() {
    let result = FfiResult::err(42);
    assert!(!result.success);
    assert_eq!(result.error_code, 42);
}
