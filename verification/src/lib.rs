use vstd::prelude::*;

pub mod keys;
pub mod chars;
pub mod text;
pub mod domain;
pub mod input;
pub mod buffer;
pub mod restore;
pub mod state;
pub mod history;
pub mod syllable;
pub mod structure;
pub mod phonotactic;
pub mod vietnamese_validator;
pub mod fsm_validator;
pub mod detection;
pub mod tone_positioning;
pub mod transform;
pub mod dictionary;
pub mod updater;
pub mod shortcut;
pub mod config;
pub mod json;
pub mod bridge;
pub mod engine;

verus! {
}
