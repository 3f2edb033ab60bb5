//! Engine configuration and the container that holds the current one.

use vstd::prelude::*;
use crate::domain::InputMethodId;
use crate::shortcut::{Shortcut, ShortcutRepo};
use crate::transform::ToneStrategy;

verus! {

/// Settings of the input engine.
#[derive(Debug, Clone, Copy, PartialEq, Eq)]
pub struct EngineConfig {
    pub input_method: InputMethodId,
    pub tone_strategy: ToneStrategy,
    pub enabled: bool,
    pub smart_mode: bool,
    pub spell_check: bool,
    pub auto_correct: bool,
    pub max_history_size: usize,
    pub buffer_timeout_ms: u64,
    pub use_modern_tone_placement: bool,
    pub enable_shortcuts: bool,
    pub instant_restore_enabled: bool,
    pub esc_restore_enabled: bool,
}

/// The default settings: Telex, modern tone placement, enabled, smart mode and spell check
/// on, auto-correct off, a history of 100 words, a 1000 ms buffer timeout, shortcuts and
/// instant restore on, ESC restore off.
pub open spec fn default_engine_config() -> EngineConfig {
    EngineConfig {
        input_method: InputMethodId::Telex,
        tone_strategy: ToneStrategy::Modern,
        enabled: true,
        smart_mode: true,
        spell_check: true,
        auto_correct: false,
        max_history_size: 100,
        buffer_timeout_ms: 1000,
        use_modern_tone_placement: true,
        enable_shortcuts: true,
        instant_restore_enabled: true,
        esc_restore_enabled: false,
    }
}

impl Default for EngineConfig {
    fn default() -> (r: EngineConfig)
        ensures
            r == default_engine_config(),
    {
        EngineConfig {
            input_method: InputMethodId::Telex,
            tone_strategy: ToneStrategy::Modern,
            enabled: true,
            smart_mode: true,
            spell_check: true,
            auto_correct: false,
            max_history_size: 100,
            buffer_timeout_ms: 1000,
            use_modern_tone_placement: true,
            enable_shortcuts: true,
            instant_restore_enabled: true,
            esc_restore_enabled: false,
        }
    }
}

/// The default engine configuration.
pub fn default_config() -> (r: EngineConfig)
    ensures
        r == default_engine_config(),
{
    EngineConfig::default()
}

/// Holds the current configuration and the user's shortcuts.
pub struct Container {
    config: EngineConfig,
    shortcuts: ShortcutRepo,
}

impl Container {
    pub closed spec fn config_spec(&self) -> EngineConfig {
        self.config
    }

    pub closed spec fn shortcuts_spec(&self) -> Seq<Shortcut> {
        self.shortcuts@
    }

    pub closed spec fn wf(&self) -> bool {
        self.shortcuts.wf()
    }

    /// A container with the default configuration.
    pub fn new() -> (r: Container)
        ensures
            r.config_spec() == default_engine_config(),
            r.shortcuts_spec() == Seq::<Shortcut>::empty(),
            r.wf(),
    {
        Self::with_config(EngineConfig::default())
    }

    /// A container with the given configuration.
    pub fn with_config(config: EngineConfig) -> (r: Container)
        ensures
            r.config_spec() == config,
            r.shortcuts_spec() == Seq::<Shortcut>::empty(),
            r.wf(),
    {
        Container { config, shortcuts: ShortcutRepo::new() }
    }

    /// Replaces the configuration.
    pub fn update_config(&mut self, new_config: EngineConfig)
        ensures
            final(self).config_spec() == new_config,
            final(self).shortcuts_spec() == old(self).shortcuts_spec(),
            final(self).wf() == old(self).wf(),
    {
        self.config = new_config;
    }

    /// The current configuration.
    pub fn get_config(&self) -> (r: EngineConfig)
        ensures
            r == self.config_spec(),
    {
        self.config
    }

    /// The shortcut repository, for changes; the container holds what it holds afterwards.
    pub fn shortcut_manager(&mut self) -> (r: &mut ShortcutRepo)
        ensures
            r@ == old(self).shortcuts_spec(),
            r.wf() == old(self).wf(),
            final(self).shortcuts_spec() == final(r)@,
            final(self).wf() == final(r).wf(),
            final(self).config_spec() == old(self).config_spec(),
    {
        &mut self.shortcuts
    }
}

impl Default for Container {
    fn default() -> (r: Container)
        ensures
            r.config_spec() == default_engine_config(),
            r.shortcuts_spec() == Seq::<Shortcut>::empty(),
            r.wf(),
    {
        Container::new()
    }
}

} // verus!
