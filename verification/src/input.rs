//! Telex and VNI input methods: which keys set a tone, a diacritic or remove marks.

use vstd::prelude::*;
use crate::domain::{DiacriticType, InputMethodId, KeyEvent, ToneType};
use crate::keys::{lower_spec, to_lower};

verus! {

/// Tone set by a Telex key (either case): s f r x j.
pub open spec fn telex_tone(c: char) -> Option<ToneType> {
    let l = lower_spec(c);
    if l == 's' { Some(ToneType::Sac) }
    else if l == 'f' { Some(ToneType::Huyen) }
    else if l == 'r' { Some(ToneType::Hoi) }
    else if l == 'x' { Some(ToneType::Nga) }
    else if l == 'j' { Some(ToneType::Nang) }
    else { None }
}

/// Diacritic started by a Telex key (either case): a e o (circumflex), w (horn), d (stroke).
pub open spec fn telex_diacritic(c: char) -> Option<DiacriticType> {
    let l = lower_spec(c);
    if l == 'a' || l == 'e' || l == 'o' { Some(DiacriticType::Circumflex) }
    else if l == 'w' { Some(DiacriticType::Horn) }
    else if l == 'd' { Some(DiacriticType::Stroke) }
    else { None }
}

/// Telex remove-mark key.
pub open spec fn telex_remove(c: char) -> bool {
    c == 'z' || c == 'Z'
}

/// Tone set by a VNI digit: 1-5.
pub open spec fn vni_tone(c: char) -> Option<ToneType> {
    if c == '1' { Some(ToneType::Sac) }
    else if c == '2' { Some(ToneType::Huyen) }
    else if c == '3' { Some(ToneType::Hoi) }
    else if c == '4' { Some(ToneType::Nga) }
    else if c == '5' { Some(ToneType::Nang) }
    else { None }
}

/// Diacritic set by a VNI digit: 6-9.
pub open spec fn vni_diacritic(c: char) -> Option<DiacriticType> {
    if c == '6' { Some(DiacriticType::Circumflex) }
    else if c == '7' { Some(DiacriticType::Horn) }
    else if c == '8' { Some(DiacriticType::Breve) }
    else if c == '9' { Some(DiacriticType::Stroke) }
    else { None }
}

/// The Telex input method.
#[derive(Debug, Clone, Copy, Default)]
pub struct TelexAdapter;

impl TelexAdapter {
    pub fn new() -> (r: TelexAdapter) {
        TelexAdapter
    }

    fn is_tone_key(ch: char) -> (r: bool)
        ensures
            r == (telex_tone(ch) is Some),
    {
        ch == 's' || ch == 'S' || ch == 'f' || ch == 'F' || ch == 'r' || ch == 'R' || ch == 'x'
            || ch == 'X' || ch == 'j' || ch == 'J'
    }

    fn is_diacritic_key(ch: char) -> (r: bool)
        ensures
            r == (telex_diacritic(ch) is Some),
    {
        ch == 'a' || ch == 'A' || ch == 'e' || ch == 'E' || ch == 'o' || ch == 'O' || ch == 'w'
            || ch == 'W' || ch == 'd' || ch == 'D'
    }

    fn is_remove_key(ch: char) -> (r: bool)
        ensures
            r == telex_remove(ch),
    {
        ch == 'z' || ch == 'Z'
    }

    pub fn method_id(&self) -> (r: InputMethodId)
        ensures
            r == InputMethodId::Telex,
    {
        InputMethodId::Telex
    }

    /// The tone the key sets, if it is a Telex tone key.
    pub fn detect_tone(&self, event: &KeyEvent) -> (r: Option<ToneType>)
        ensures
            r == (match event.char_spec() {
                Some(c) => telex_tone(c),
                None => None,
            }),
    {
        let ch = match event.as_char() {
            Some(c) => c,
            None => return None,
        };
        let l = to_lower(ch);
        if l == 's' { Some(ToneType::Sac) }
        else if l == 'f' { Some(ToneType::Huyen) }
        else if l == 'r' { Some(ToneType::Hoi) }
        else if l == 'x' { Some(ToneType::Nga) }
        else if l == 'j' { Some(ToneType::Nang) }
        else { None }
    }

    /// The diacritic the key starts, if it is a Telex modifier key ('w' is reported as horn;
    /// whether it becomes a breve is decided by the vowel it lands on).
    pub fn detect_diacritic(&self, event: &KeyEvent) -> (r: Option<DiacriticType>)
        ensures
            r == (match event.char_spec() {
                Some(c) => telex_diacritic(c),
                None => None,
            }),
    {
        let ch = match event.as_char() {
            Some(c) => c,
            None => return None,
        };
        let l = to_lower(ch);
        if l == 'a' || l == 'e' || l == 'o' { Some(DiacriticType::Circumflex) }
        else if l == 'w' { Some(DiacriticType::Horn) }
        else if l == 'd' { Some(DiacriticType::Stroke) }
        else { None }
    }

    pub fn is_remove_mark(&self, event: &KeyEvent) -> (r: bool)
        ensures
            r == (match event.char_spec() {
                Some(c) => telex_remove(c),
                None => false,
            }),
    {
        match event.as_char() {
            Some(ch) => Self::is_remove_key(ch),
            None => false,
        }
    }

    /// Whether the key is any Telex modifier: tone, diacritic or remove key.
    pub fn is_modifier(&self, event: &KeyEvent) -> (r: bool)
        ensures
            r == (match event.char_spec() {
                Some(c) => telex_tone(c) is Some || telex_diacritic(c) is Some || telex_remove(c),
                None => false,
            }),
    {
        match event.as_char() {
            Some(ch) => Self::is_tone_key(ch) || Self::is_diacritic_key(ch) || Self::is_remove_key(ch),
            None => false,
        }
    }
}

/// The VNI input method.
#[derive(Debug, Clone, Copy, Default)]
pub struct VniAdapter;

impl VniAdapter {
    pub fn new() -> (r: VniAdapter) {
        VniAdapter
    }

    fn is_tone_key(ch: char) -> (r: bool)
        ensures
            r == ('0' <= ch <= '5'),
    {
        ch == '0' || ch == '1' || ch == '2' || ch == '3' || ch == '4' || ch == '5'
    }

    fn is_diacritic_key(ch: char) -> (r: bool)
        ensures
            r == (vni_diacritic(ch) is Some),
    {
        ch == '6' || ch == '7' || ch == '8' || ch == '9'
    }

    pub fn method_id(&self) -> (r: InputMethodId)
        ensures
            r == InputMethodId::Vni,
    {
        InputMethodId::Vni
    }

    pub fn detect_tone(&self, event: &KeyEvent) -> (r: Option<ToneType>)
        ensures
            r == (match event.char_spec() {
                Some(c) => vni_tone(c),
                None => None,
            }),
    {
        let ch = match event.as_char() {
            Some(c) => c,
            None => return None,
        };
        if ch == '1' { Some(ToneType::Sac) }
        else if ch == '2' { Some(ToneType::Huyen) }
        else if ch == '3' { Some(ToneType::Hoi) }
        else if ch == '4' { Some(ToneType::Nga) }
        else if ch == '5' { Some(ToneType::Nang) }
        else { None }
    }

    pub fn detect_diacritic(&self, event: &KeyEvent) -> (r: Option<DiacriticType>)
        ensures
            r == (match event.char_spec() {
                Some(c) => vni_diacritic(c),
                None => None,
            }),
    {
        let ch = match event.as_char() {
            Some(c) => c,
            None => return None,
        };
        if ch == '6' { Some(DiacriticType::Circumflex) }
        else if ch == '7' { Some(DiacriticType::Horn) }
        else if ch == '8' { Some(DiacriticType::Breve) }
        else if ch == '9' { Some(DiacriticType::Stroke) }
        else { None }
    }

    /// '0' removes marks.
    pub fn is_remove_mark(&self, event: &KeyEvent) -> (r: bool)
        ensures
            r == (event.char_spec() == Some('0')),
    {
        match event.as_char() {
            Some(ch) => ch == '0',
            None => false,
        }
    }

    /// Digits 0-9 are VNI modifiers.
    pub fn is_modifier(&self, event: &KeyEvent) -> (r: bool)
        ensures
            r == (match event.char_spec() {
                Some(c) => '0' <= c <= '9',
                None => false,
            }),
    {
        match event.as_char() {
            Some(ch) => Self::is_tone_key(ch) || Self::is_diacritic_key(ch),
            None => false,
        }
    }
}

}
