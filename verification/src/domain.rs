//! Domain values shared by the adapters: tones, diacritics, input method identities, key events.

use vstd::prelude::*;
use crate::text::char_from_u32;

verus! {

/// The six Vietnamese tones.
#[derive(Debug, Clone, Copy, PartialEq, Eq, Structural)]
pub enum ToneType {
    Ngang,
    Sac,
    Huyen,
    Hoi,
    Nga,
    Nang,
}

/// Vowel diacritics (modifiers) and the đ stroke.
#[derive(Debug, Clone, Copy, PartialEq, Eq, Structural)]
pub enum DiacriticType {
    Circumflex,
    Horn,
    Breve,
    Stroke,
}

/// Identity of an input method.
#[derive(Debug, Clone, Copy, PartialEq, Eq, Structural)]
pub enum InputMethodId {
    Telex,
    Vni,
    Plain,
}

/// A key press, identified by the character code it types.
#[derive(Debug, Clone, Copy, PartialEq, Eq, Structural)]
pub struct KeyEvent {
    pub code: u16,
}

/// Whether a code is a Unicode scalar value.
pub open spec fn is_scalar(v: u16) -> bool {
    v <= 0xD7FF || 0xE000 <= v
}

impl KeyEvent {
    /// A key event for the character code `code` with no modifiers.
    pub fn simple(code: u16) -> (r: KeyEvent)
        ensures
            r.code == code,
    {
        KeyEvent { code }
    }

    /// The character the event types, if its code is a character.
    pub open spec fn char_spec(self) -> Option<char> {
        if is_scalar(self.code) { Some(self.code as char) } else { None }
    }

    pub fn as_char(&self) -> (r: Option<char>)
        ensures
            r == self.char_spec(),
    {
        char_from_u32(self.code as u32)
    }
}

}
