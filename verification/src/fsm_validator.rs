//! Syllable validation through the key-sequence check: the syllable's characters are parsed
//! into keys and tone modifiers, checked as a key sequence, and the tone is held to the final.

use vstd::prelude::*;
use crate::syllable::{
    has_vowel, has_vowel_spec, is_valid_tone_final, tone_name, valid_tone_final_spec, Syllable,
    ValidationError, ValidationResult, Verdict,
};
use crate::text::{concat3, str_chars};
use crate::vietnamese_validator::{
    chars_parse, keys_form_syllable, parse_keys_tones, parsed_keys, parsed_tones,
    VietnameseSyllableValidator,
};

verus! {

/// The syllable's characters: initial, vowel and final one after another.
pub open spec fn syllable_chars(s: &Syllable) -> Seq<char> {
    s.initial_spec() + s.vowel_spec() + s.final_spec()
}

/// Outcome of the key-sequence validation of a syllable.
pub open spec fn fsm_verdict(s: &Syllable) -> Verdict {
    let cs = syllable_chars(s);
    if !has_vowel_spec(s) {
        Verdict::Empty
    } else if !chars_parse(cs) {
        Verdict::InvalidStructure
    } else if !keys_form_syllable(parsed_keys(cs), parsed_tones(cs)) {
        Verdict::InvalidStructure
    } else if !valid_tone_final_spec(s.tone_spec(), s.final_spec()) {
        Verdict::InvalidTonePlacement
    } else {
        Verdict::Valid
    }
}

/// Validator that checks a syllable as the key sequence it is typed with.
#[derive(Debug, Clone, Copy, Default)]
pub struct FsmValidatorAdapter;

impl FsmValidatorAdapter {
    pub fn new() -> (r: FsmValidatorAdapter) {
        FsmValidatorAdapter
    }

    /// Keys and tone modifiers of the syllable's characters, if every one parses.
    fn parse_syllable(&self, syllable: &Syllable) -> (r: Option<(Vec<u16>, Vec<u8>)>)
        ensures
            r is Some <==> chars_parse(syllable_chars(syllable)),
            r is Some ==> r.unwrap().0@ == parsed_keys(syllable_chars(syllable))
                && r.unwrap().1@ == parsed_tones(syllable_chars(syllable)),
    {
        let text = syllable.base_form();
        let cs = str_chars(text.as_str());
        parse_keys_tones(cs.as_slice())
    }

    /// Checks, in order: a vowel nucleus is present; the characters parse; the keys with their
    /// modifiers spell a syllable; stop finals take only sắc or nặng.
    pub fn validate(&self, syllable: &Syllable) -> (r: ValidationResult)
        ensures
            r.verdict() == fsm_verdict(syllable),
            r.error matches Some(ValidationError::InvalidStructure { syllable: text, .. }) ==>
                text@ == syllable_chars(syllable),
    {
        if !has_vowel(syllable) {
            return ValidationResult::invalid(ValidationError::Empty);
        }
        let (ks, tones) = match self.parse_syllable(syllable) {
            Some(parsed) => parsed,
            None => {
                return ValidationResult::invalid(ValidationError::InvalidStructure {
                    syllable: syllable.base_form(),
                    reason: "Failed to parse syllable characters".to_owned(),
                });
            },
        };
        let checked = VietnameseSyllableValidator::validate_with_tones(ks.as_slice(), tones.as_slice());
        if !checked.is_valid {
            return ValidationResult::invalid(ValidationError::InvalidStructure {
                syllable: syllable.base_form(),
                reason: "FSM validator rejected syllable structure".to_owned(),
            });
        }
        let final_c = syllable.final_consonant().as_str();
        if !is_valid_tone_final(syllable.tone(), final_c) {
            let mut reason = concat3("Stop consonant '", final_c, "' cannot have ");
            reason.append(tone_name(syllable.tone()));
            reason.append(" tone");
            return ValidationResult::invalid(ValidationError::InvalidTonePlacement {
                syllable: syllable.base_form(),
                reason,
            });
        }
        ValidationResult::valid()
    }

    /// `Ok` for a valid syllable, the validation error otherwise.
    pub fn validate_strict(&self, syllable: &Syllable) -> (r: Result<(), ValidationError>)
        ensures
            r is Ok <==> fsm_verdict(syllable) == Verdict::Valid,
    {
        self.validate(syllable).into_result()
    }
}

} // verus!
