//! Plain data types of the C interface (input method, tone style, configurations, status
//! codes, version) and the conversions between them and the engine configuration.

use vstd::prelude::*;
use crate::config::EngineConfig;
use crate::domain::InputMethodId;
use crate::transform::ToneStrategy;

verus! {

/// Success flag and error code (0 for success) of the C interface.
#[derive(Debug, Clone, Copy, PartialEq, Eq, Structural)]
pub struct FfiResult {
    pub success: bool,
    pub error_code: i32,
}

impl FfiResult {
    pub fn ok() -> (r: FfiResult)
        ensures
            r == (FfiResult { success: true, error_code: 0 }),
    {
        FfiResult { success: true, error_code: 0 }
    }

    pub fn err(code: i32) -> (r: FfiResult)
        ensures
            r == (FfiResult { success: false, error_code: code }),
    {
        FfiResult { success: false, error_code: code }
    }
}

/// Input method of the C interface.
#[derive(Debug, Clone, Copy, PartialEq, Eq, Structural)]
pub enum FfiInputMethod {
    Telex,
    Vni,
}

impl Default for FfiInputMethod {
    fn default() -> (r: FfiInputMethod)
        ensures
            r == FfiInputMethod::Telex,
    {
        FfiInputMethod::Telex
    }
}

/// Tone placement style of the C interface.
#[derive(Debug, Clone, Copy, PartialEq, Eq, Structural)]
pub enum FfiToneStyle {
    /// hòa, thủy
    Old,
    /// hoà, thuỷ
    New,
}

impl Default for FfiToneStyle {
    fn default() -> (r: FfiToneStyle)
        ensures
            r == FfiToneStyle::New,
    {
        FfiToneStyle::New
    }
}

/// Configuration of the C interface.
#[derive(Debug, Clone, Copy, PartialEq, Eq, Structural)]
pub struct FfiConfig {
    pub input_method: FfiInputMethod,
    pub tone_style: FfiToneStyle,
    pub smart_mode: bool,
    pub enable_shortcuts: bool,
}

impl Default for FfiConfig {
    fn default() -> (r: FfiConfig)
        ensures
            r == (FfiConfig { input_method: FfiInputMethod::Telex, tone_style: FfiToneStyle::New, smart_mode: true, enable_shortcuts: true }),
    {
        FfiConfig { input_method: FfiInputMethod::Telex, tone_style: FfiToneStyle::New, smart_mode: true, enable_shortcuts: true }
    }
}

/// Status codes of the C interface.
#[derive(Debug, Clone, Copy, PartialEq, Eq, Structural)]
pub enum FfiStatusCode {
    Success,
    ErrorNullEngine,
    ErrorNullOutput,
    ErrorNullConfig,
    ErrorInvalidKey,
    ErrorInvalidArgument,
    ErrorProcessingFailed,
    ErrorInvalidUtf8,
    ErrorAlreadyExists,
    ErrorNotFound,
    ErrorOutOfMemory,
    ErrorUnknown,
    ErrorPanic,
}

/// The number the C interface gives each status.
pub open spec fn status_number(s: FfiStatusCode) -> i32 {
    match s {
        FfiStatusCode::Success => 0i32,
        FfiStatusCode::ErrorNullEngine => -1i32,
        FfiStatusCode::ErrorNullOutput => -2i32,
        FfiStatusCode::ErrorNullConfig => -3i32,
        FfiStatusCode::ErrorInvalidKey => -4i32,
        FfiStatusCode::ErrorInvalidArgument => -5i32,
        FfiStatusCode::ErrorProcessingFailed => -10i32,
        FfiStatusCode::ErrorInvalidUtf8 => -11i32,
        FfiStatusCode::ErrorAlreadyExists => -30i32,
        FfiStatusCode::ErrorNotFound => -31i32,
        FfiStatusCode::ErrorOutOfMemory => -20i32,
        FfiStatusCode::ErrorUnknown => -98i32,
        FfiStatusCode::ErrorPanic => -99i32,
    }
}

impl FfiStatusCode {
    /// The status as the number the C interface uses.
    pub fn to_c_int(self) -> (r: i32)
        ensures
            r == status_number(self),
    {
        match self {
            FfiStatusCode::Success => 0,
            FfiStatusCode::ErrorNullEngine => -1,
            FfiStatusCode::ErrorNullOutput => -2,
            FfiStatusCode::ErrorNullConfig => -3,
            FfiStatusCode::ErrorInvalidKey => -4,
            FfiStatusCode::ErrorInvalidArgument => -5,
            FfiStatusCode::ErrorProcessingFailed => -10,
            FfiStatusCode::ErrorInvalidUtf8 => -11,
            FfiStatusCode::ErrorAlreadyExists => -30,
            FfiStatusCode::ErrorNotFound => -31,
            FfiStatusCode::ErrorOutOfMemory => -20,
            FfiStatusCode::ErrorUnknown => -98,
            FfiStatusCode::ErrorPanic => -99,
        }
    }

    pub fn is_success(self) -> (r: bool)
        ensures
            r == (self == FfiStatusCode::Success),
    {
        match self {
            FfiStatusCode::Success => true,
            _ => false,
        }
    }
}

/// Configuration of the second C interface.
#[allow(non_camel_case_types)]
#[derive(Debug, Clone, Copy, PartialEq, Eq, Structural)]
pub struct FfiConfig_v2 {
    pub input_method: FfiInputMethod,
    pub tone_style: FfiToneStyle,
    pub smart_mode: bool,
    pub instant_restore_enabled: bool,
    pub esc_restore_enabled: bool,
    pub enable_shortcuts: bool,
}

impl Default for FfiConfig_v2 {
    fn default() -> (r: FfiConfig_v2)
        ensures
            r == (FfiConfig_v2 {
                input_method: FfiInputMethod::Telex,
                tone_style: FfiToneStyle::New,
                smart_mode: true,
                instant_restore_enabled: true,
                esc_restore_enabled: false,
                enable_shortcuts: true,
            }),
    {
        FfiConfig_v2 {
            input_method: FfiInputMethod::Telex,
            tone_style: FfiToneStyle::New,
            smart_mode: true,
            instant_restore_enabled: true,
            esc_restore_enabled: false,
            enable_shortcuts: true,
        }
    }
}

/// Version information of the C interface.
#[derive(Debug, Clone, Copy, PartialEq, Eq, Structural)]
pub struct FfiVersionInfo {
    pub major: u32,
    pub minor: u32,
    pub patch: u32,
    pub api_version: u32,
}

/// Tone placement style of the engine.
#[derive(Debug, Clone, Copy, PartialEq, Eq, Structural)]
pub enum TonePlacementStyle {
    Old,
    New,
}

// ── Conversions ──────────────────────────────────────────────────────────────

/// Input method of a C-interface input method.
pub open spec fn input_method_id(m: FfiInputMethod) -> InputMethodId {
    match m {
        FfiInputMethod::Telex => InputMethodId::Telex,
        FfiInputMethod::Vni => InputMethodId::Vni,
    }
}

/// C-interface input method of an input method (plain typing falls back to Telex).
pub open spec fn ffi_input_method(id: InputMethodId) -> FfiInputMethod {
    match id {
        InputMethodId::Telex => FfiInputMethod::Telex,
        InputMethodId::Vni => FfiInputMethod::Vni,
        InputMethodId::Plain => FfiInputMethod::Telex,
    }
}

pub fn to_input_method_id(method: FfiInputMethod) -> (r: InputMethodId)
    ensures
        r == input_method_id(method),
{
    match method {
        FfiInputMethod::Telex => InputMethodId::Telex,
        FfiInputMethod::Vni => InputMethodId::Vni,
    }
}

pub fn from_input_method_id(id: InputMethodId) -> (r: FfiInputMethod)
    ensures
        r == ffi_input_method(id),
{
    match id {
        InputMethodId::Telex => FfiInputMethod::Telex,
        InputMethodId::Vni => FfiInputMethod::Vni,
        InputMethodId::Plain => FfiInputMethod::Telex,
    }
}

pub fn to_tone_style(style: FfiToneStyle) -> (r: TonePlacementStyle)
    ensures
        r == (match style {
            FfiToneStyle::Old => TonePlacementStyle::Old,
            FfiToneStyle::New => TonePlacementStyle::New,
        }),
{
    match style {
        FfiToneStyle::Old => TonePlacementStyle::Old,
        FfiToneStyle::New => TonePlacementStyle::New,
    }
}

pub fn from_tone_style(style: TonePlacementStyle) -> (r: FfiToneStyle)
    ensures
        r == (match style {
            TonePlacementStyle::Old => FfiToneStyle::Old,
            TonePlacementStyle::New => FfiToneStyle::New,
        }),
{
    match style {
        TonePlacementStyle::Old => FfiToneStyle::Old,
        TonePlacementStyle::New => FfiToneStyle::New,
    }
}

/// Engine configuration for a C-interface configuration: the interface's input method, tone
/// style, smart mode and shortcuts; the modern tone strategy; enabled with spell check;
/// no auto-correct; a history of 100 words; a 1000 ms buffer timeout; instant restore on and
/// ESC restore off unless the second interface says otherwise.
pub open spec fn engine_config_of(input_method: FfiInputMethod, tone_style: FfiToneStyle, smart_mode: bool, enable_shortcuts: bool, instant_restore_enabled: bool, esc_restore_enabled: bool) -> EngineConfig {
    EngineConfig {
        input_method: input_method_id(input_method),
        tone_strategy: ToneStrategy::Modern,
        enabled: true,
        smart_mode,
        spell_check: true,
        auto_correct: false,
        max_history_size: 100,
        buffer_timeout_ms: 1000,
        use_modern_tone_placement: tone_style == FfiToneStyle::New,
        enable_shortcuts,
        instant_restore_enabled,
        esc_restore_enabled,
    }
}

/// Tone style of an engine configuration.
pub open spec fn tone_style_of(config: EngineConfig) -> FfiToneStyle {
    if config.use_modern_tone_placement { FfiToneStyle::New } else { FfiToneStyle::Old }
}

pub fn to_engine_config(config: FfiConfig) -> (r: EngineConfig)
    ensures
        r == engine_config_of(config.input_method, config.tone_style, config.smart_mode, config.enable_shortcuts, true, false),
{
    EngineConfig {
        input_method: to_input_method_id(config.input_method),
        tone_strategy: ToneStrategy::default(),
        enabled: true,
        smart_mode: config.smart_mode,
        spell_check: true,
        auto_correct: false,
        max_history_size: 100,
        buffer_timeout_ms: 1000,
        use_modern_tone_placement: match config.tone_style {
            FfiToneStyle::New => true,
            FfiToneStyle::Old => false,
        },
        enable_shortcuts: config.enable_shortcuts,
        instant_restore_enabled: true,
        esc_restore_enabled: false,
    }
}

pub fn from_engine_config(config: &EngineConfig) -> (r: FfiConfig)
    ensures
        r == (FfiConfig {
            input_method: ffi_input_method(config.input_method),
            tone_style: tone_style_of(*config),
            smart_mode: config.smart_mode,
            enable_shortcuts: config.enable_shortcuts,
        }),
{
    FfiConfig {
        input_method: from_input_method_id(config.input_method),
        tone_style: if config.use_modern_tone_placement { FfiToneStyle::New } else { FfiToneStyle::Old },
        smart_mode: config.smart_mode,
        enable_shortcuts: config.enable_shortcuts,
    }
}

pub fn to_engine_config_v2(config: &FfiConfig_v2) -> (r: EngineConfig)
    ensures
        r == engine_config_of(config.input_method, config.tone_style, config.smart_mode, config.enable_shortcuts, config.instant_restore_enabled, config.esc_restore_enabled),
{
    EngineConfig {
        input_method: to_input_method_id(config.input_method),
        tone_strategy: ToneStrategy::default(),
        enabled: true,
        smart_mode: config.smart_mode,
        spell_check: true,
        auto_correct: false,
        max_history_size: 100,
        buffer_timeout_ms: 1000,
        use_modern_tone_placement: match config.tone_style {
            FfiToneStyle::New => true,
            FfiToneStyle::Old => false,
        },
        enable_shortcuts: config.enable_shortcuts,
        instant_restore_enabled: config.instant_restore_enabled,
        esc_restore_enabled: config.esc_restore_enabled,
    }
}

pub fn from_engine_config_v2(config: &EngineConfig) -> (r: FfiConfig_v2)
    ensures
        r == (FfiConfig_v2 {
            input_method: ffi_input_method(config.input_method),
            tone_style: tone_style_of(*config),
            smart_mode: config.smart_mode,
            instant_restore_enabled: config.instant_restore_enabled,
            esc_restore_enabled: config.esc_restore_enabled,
            enable_shortcuts: config.enable_shortcuts,
        }),
{
    FfiConfig_v2 {
        input_method: from_input_method_id(config.input_method),
        tone_style: if config.use_modern_tone_placement { FfiToneStyle::New } else { FfiToneStyle::Old },
        smart_mode: config.smart_mode,
        instant_restore_enabled: config.instant_restore_enabled,
        esc_restore_enabled: config.esc_restore_enabled,
        enable_shortcuts: config.enable_shortcuts,
    }
}

// ── Laws ─────────────────────────────────────────────────────────────────────

/// A C-interface input method survives the trip to the engine and back.
pub proof fn lemma_input_method_roundtrip(m: FfiInputMethod)
    ensures
        ffi_input_method(input_method_id(m)) == m,
{
}

/// A C-interface configuration survives the trip to the engine configuration and back.
pub proof fn lemma_config_roundtrip(c: FfiConfig)
    ensures
        ({
            let e = engine_config_of(c.input_method, c.tone_style, c.smart_mode, c.enable_shortcuts, true, false);
            FfiConfig { input_method: ffi_input_method(e.input_method), tone_style: tone_style_of(e), smart_mode: e.smart_mode, enable_shortcuts: e.enable_shortcuts }
        }) == c,
{
}

/// A second-interface configuration survives the trip to the engine configuration and back.
pub proof fn lemma_config_v2_roundtrip(c: FfiConfig_v2)
    ensures
        ({
            let e = engine_config_of(c.input_method, c.tone_style, c.smart_mode, c.enable_shortcuts, c.instant_restore_enabled, c.esc_restore_enabled);
            FfiConfig_v2 {
                input_method: ffi_input_method(e.input_method),
                tone_style: tone_style_of(e),
                smart_mode: e.smart_mode,
                instant_restore_enabled: e.instant_restore_enabled,
                esc_restore_enabled: e.esc_restore_enabled,
                enable_shortcuts: e.enable_shortcuts,
            }
        }) == c,
{
}

} // verus!
