//! Language decision (Vietnamese first) and language detection of text.

use vstd::prelude::*;
use crate::chars;
use crate::phonotactic::{layer_scores_of, lemma_confidence_in_range, overall_confidence, PhonotacticEngine};
use crate::text::CharSequence;
use crate::vietnamese_validator::{
    is_valid_vietnamese_syllable, keys_form_syllable, result_of, text_forms_syllable,
    ValidationResult, VietnameseSyllableValidator,
};

verus! {

/// Outcome of the language decision.
#[derive(Debug, Clone, Copy, PartialEq, Eq, Structural)]
pub struct DecisionResult {
    pub is_english: bool,
    /// English confidence (0-100).
    pub confidence: u8,
}

/// English score: the validator's shift (-30 when the keys are Vietnamese, +20 when not), the
/// phonotactic confidence, and -70 when the word has Vietnamese diacritics.
pub open spec fn english_score(ks: Seq<(u16, bool)>, has_diacritics: bool, validation: Option<ValidationResult>) -> int {
    (match validation {
        Some(v) => if v.is_valid { -30int } else { 20int },
        None => 0int,
    }) + overall_confidence(layer_scores_of(ks)) + if has_diacritics { -70int } else { 0int }
}

/// Vietnamese score: +30 when the keys are Vietnamese, -20 when not, +70 with diacritics.
pub open spec fn vietnamese_score(validation: Option<ValidationResult>, has_diacritics: bool) -> int {
    (match validation {
        Some(v) => if v.is_valid { 30int } else { -20int },
        None => 0int,
    }) + if has_diacritics { 70int } else { 0int }
}

/// `x` clamped to 0..=100.
pub open spec fn clamp_percent(x: int) -> int {
    if x < 0 { 0 } else if x > 100 { 100 } else { x }
}

/// The decision: not English for no keys or for a rendered output that is a Vietnamese
/// syllable; otherwise English exactly when the English score beats the Vietnamese score and
/// the clamped English score is at least 80.
pub open spec fn decision(ks: Seq<(u16, bool)>, has_diacritics: bool, validation: Option<ValidationResult>, output: Option<Seq<char>>) -> DecisionResult {
    if ks.len() == 0 {
        DecisionResult { is_english: false, confidence: 0 }
    } else if output is Some && text_forms_syllable(output.unwrap()) {
        DecisionResult { is_english: false, confidence: 0 }
    } else {
        let e = english_score(ks, has_diacritics, validation);
        let c = clamp_percent(e);
        DecisionResult { is_english: e > vietnamese_score(validation, has_diacritics) && c >= 80, confidence: c as u8 }
    }
}

/// View of an optional string slice.
pub open spec fn opt_view(s: Option<&str>) -> Option<Seq<char>> {
    match s {
        Some(t) => Some(t@),
        None => None,
    }
}

/// Vietnamese-first language decision.
pub struct LanguageDecisionEngine;

impl LanguageDecisionEngine {
    /// Decides whether the keys are English. In order: no keys is not English; a rendered
    /// output that spells a Vietnamese syllable is not English; then the validator result, the
    /// phonotactic analysis and the diacritics shift the English and Vietnamese scores.
    pub fn decide_with_validation(
        ks: &[(u16, bool)],
        has_diacritics: bool,
        vietnamese_validator_result: Option<ValidationResult>,
        output_str: Option<&str>,
    ) -> (r: DecisionResult)
        ensures
            r == decision(ks@, has_diacritics, vietnamese_validator_result, opt_view(output_str)),
    {
        if ks.len() == 0 {
            return DecisionResult { is_english: false, confidence: 0 };
        }
        if let Some(output) = output_str {
            if is_valid_vietnamese_syllable(output) {
                return DecisionResult { is_english: false, confidence: 0 };
            }
        }
        let mut english: i16 = 0;
        let mut vietnamese: i16 = 0;
        if let Some(validation) = vietnamese_validator_result {
            if validation.is_valid {
                vietnamese = vietnamese + 30;
                english = english - 30;
            } else {
                english = english + 20;
                vietnamese = vietnamese - 20;
            }
        }
        let phonotactic = PhonotacticEngine::analyze(ks);
        english = english + phonotactic.english_confidence as i16;
        if has_diacritics {
            english = english - 70;
            vietnamese = vietnamese + 70;
        }
        let confidence: u8 = if english < 0 { 0 } else if english > 100 { 100 } else { english as u8 };
        DecisionResult { is_english: english > vietnamese && confidence >= 80, confidence }
    }

    /// The decision without a validator result or rendered output.
    pub fn decide(ks: &[(u16, bool)], has_diacritics: bool) -> (r: DecisionResult)
        ensures
            r == decision(ks@, has_diacritics, None, None),
    {
        if ks.len() == 0 {
            return DecisionResult { is_english: false, confidence: 0 };
        }
        Self::decide_with_validation(ks, has_diacritics, None, None)
    }

    /// The decision, given only when its confidence is at least 95.
    pub fn identify_early(ks: &[(u16, bool)], has_diacritics: bool) -> (r: Option<DecisionResult>)
        ensures
            r == (if ks@.len() > 0 && decision(ks@, has_diacritics, None, None).confidence >= 95 {
                Some(decision(ks@, has_diacritics, None, None))
            } else {
                None
            }),
    {
        if ks.len() == 0 {
            return None;
        }
        let d = Self::decide_with_validation(ks, has_diacritics, None, None);
        if d.confidence >= 95 { Some(d) } else { None }
    }
}

// ── Language detection of text ───────────────────────────────────────────────

/// Language a text was found to be in.
#[derive(Debug, Clone, Copy, PartialEq, Eq, Structural)]
pub enum DetectedLanguage {
    Vietnamese,
    NonVietnamese,
    Ambiguous,
}

/// How sure a detection is.
#[derive(Debug, Clone, Copy, PartialEq, Eq, Structural)]
pub enum ConfidenceLevel {
    Low,
    Medium,
    High,
    VeryHigh,
}

/// Level of a percentage: 90 and up very high, 70 and up high, 40 and up medium, else low.
pub open spec fn level_of(percent: u8) -> ConfidenceLevel {
    if percent >= 90 {
        ConfidenceLevel::VeryHigh
    } else if percent >= 70 {
        ConfidenceLevel::High
    } else if percent >= 40 {
        ConfidenceLevel::Medium
    } else {
        ConfidenceLevel::Low
    }
}

impl ConfidenceLevel {
    pub fn from_percent(percent: u8) -> (r: ConfidenceLevel)
        ensures
            r == level_of(percent),
    {
        if percent >= 90 {
            ConfidenceLevel::VeryHigh
        } else if percent >= 70 {
            ConfidenceLevel::High
        } else if percent >= 40 {
            ConfidenceLevel::Medium
        } else {
            ConfidenceLevel::Low
        }
    }
}

/// Result of detecting a text's language.
#[derive(Debug, Clone, Copy, PartialEq, Eq, Structural)]
pub struct DetectionResult {
    pub language: DetectedLanguage,
    pub confidence: ConfidenceLevel,
}

impl DetectionResult {
    pub fn vietnamese(confidence: ConfidenceLevel) -> (r: DetectionResult)
        ensures
            r == (DetectionResult { language: DetectedLanguage::Vietnamese, confidence }),
    {
        DetectionResult { language: DetectedLanguage::Vietnamese, confidence }
    }

    pub fn non_vietnamese(confidence: ConfidenceLevel) -> (r: DetectionResult)
        ensures
            r == (DetectionResult { language: DetectedLanguage::NonVietnamese, confidence }),
    {
        DetectionResult { language: DetectedLanguage::NonVietnamese, confidence }
    }

    /// Neither language, with low confidence.
    pub fn ambiguous() -> (r: DetectionResult)
        ensures
            r == (DetectionResult { language: DetectedLanguage::Ambiguous, confidence: ConfidenceLevel::Low }),
    {
        DetectionResult { language: DetectedLanguage::Ambiguous, confidence: ConfidenceLevel::Low }
    }

    /// High or very high confidence.
    pub fn is_confident(&self) -> (r: bool)
        ensures
            r == (self.confidence == ConfidenceLevel::High || self.confidence == ConfidenceLevel::VeryHigh),
    {
        match self.confidence {
            ConfidenceLevel::High | ConfidenceLevel::VeryHigh => true,
            _ => false,
        }
    }
}

/// A character outside ASCII.
pub open spec fn non_ascii(c: char) -> bool {
    c as u32 >= 128
}

/// A character that shows Vietnamese: outside ASCII, or parsed with a modifier, a tone mark
/// or the stroke of đ.
pub open spec fn shows_vietnamese(c: char) -> bool {
    non_ascii(c) || (chars::parse_spec(c) matches Some(p) && (p.tone != 0 || p.mark != 0 || p.stroke))
}

/// Some character shows Vietnamese.
pub open spec fn has_diacritics(cs: Seq<char>) -> bool {
    exists|i: int| 0 <= i < cs.len() && #[trigger] shows_vietnamese(cs[i])
}

/// Key and case of each character that parses, in order.
pub open spec fn text_keys(cs: Seq<char>) -> Seq<(u16, bool)>
    decreases cs.len(),
{
    if cs.len() == 0 {
        Seq::empty()
    } else {
        let rest = text_keys(cs.drop_last());
        match chars::parse_spec(cs.last()) {
            Some(p) => rest.push((p.key, p.caps)),
            None => rest,
        }
    }
}

/// Key codes of key/case pairs.
pub open spec fn key_codes(ks: Seq<(u16, bool)>) -> Seq<u16> {
    ks.map_values(|p: (u16, bool)| p.0)
}

/// Validator result for the text's keys, when it has any.
pub open spec fn text_validation(cs: Seq<char>) -> Option<ValidationResult> {
    let ks = key_codes(text_keys(cs));
    if ks.len() == 0 { None } else { Some(result_of(keys_form_syllable(ks, Seq::empty()))) }
}

/// Detection of a text: ambiguous without keys; Vietnamese (very high) with diacritics;
/// otherwise non-Vietnamese when the decision says English, Vietnamese when the keys spell a
/// syllable, ambiguous else.
pub open spec fn detection(cs: Seq<char>) -> DetectionResult {
    let ks = text_keys(cs);
    if cs.len() == 0 || ks.len() == 0 {
        DetectionResult { language: DetectedLanguage::Ambiguous, confidence: ConfidenceLevel::Low }
    } else if has_diacritics(cs) {
        DetectionResult { language: DetectedLanguage::Vietnamese, confidence: ConfidenceLevel::VeryHigh }
    } else {
        let v = text_validation(cs);
        let d = decision(ks, false, v, None);
        if d.is_english {
            DetectionResult { language: DetectedLanguage::NonVietnamese, confidence: level_of(d.confidence) }
        } else if v.unwrap().is_valid {
            DetectionResult {
                language: DetectedLanguage::Vietnamese,
                confidence: level_of(if d.confidence <= 100 { (100 - d.confidence) as u8 } else { 0 }),
            }
        } else {
            DetectionResult { language: DetectedLanguage::Ambiguous, confidence: ConfidenceLevel::Low }
        }
    }
}

fn is_non_ascii(c: char) -> (r: bool)
    ensures
        r == non_ascii(c),
{
    c as u32 >= 128
}

/// Language detector over the decision engine and the key-sequence validator.
#[derive(Debug, Clone, Copy, Default)]
pub struct LanguageDetectorAdapter;

impl LanguageDetectorAdapter {
    pub fn new() -> (r: LanguageDetectorAdapter) {
        LanguageDetectorAdapter
    }

    /// Keys (with case) of the characters that parse, and whether some character shows
    /// Vietnamese.
    pub fn parse_text(&self, text: &CharSequence) -> (r: (Vec<(u16, bool)>, bool))
        ensures
            r.0@ == text_keys(text@),
            r.1 == has_diacritics(text@),
    {
        let cs = text.chars();
        let mut ks: Vec<(u16, bool)> = Vec::new();
        let mut diacritics = false;
        let mut i: usize = 0;
        while i < cs.len()
            invariant
                cs@ == text@,
                i <= cs@.len(),
                ks@ == text_keys(cs@.subrange(0, i as int)),
                diacritics == (exists|j: int| 0 <= j < i && #[trigger] shows_vietnamese(cs@[j])),
            decreases cs@.len() - i,
        {
            let c = cs[i];
            assert(cs@.subrange(0, i + 1).drop_last() =~= cs@.subrange(0, i as int));
            let shows = match chars::parse_char(c) {
                Some(p) => {
                    ks.push((p.key, p.caps));
                    p.tone != 0 || p.mark != 0 || p.stroke || is_non_ascii(c)
                },
                None => is_non_ascii(c),
            };
            assert(shows == shows_vietnamese(cs@[i as int]));
            if shows {
                diacritics = true;
            }
            i = i + 1;
        }
        assert(cs@.subrange(0, cs@.len() as int) =~= cs@);
        (ks, diacritics)
    }

    /// The validator's result for the text's keys; `None` when no character parses.
    pub fn validate_vietnamese(&self, text: &CharSequence) -> (r: Option<ValidationResult>)
        ensures
            r == text_validation(text@),
    {
        let (pairs, _) = self.parse_text(text);
        let mut ks: Vec<u16> = Vec::new();
        let mut i: usize = 0;
        while i < pairs.len()
            invariant
                i <= pairs@.len(),
                ks@ == key_codes(pairs@.subrange(0, i as int)),
            decreases pairs@.len() - i,
        {
            ks.push(pairs[i].0);
            i = i + 1;
            assert(ks@ =~= key_codes(pairs@.subrange(0, i as int)));
        }
        assert(pairs@.subrange(0, pairs@.len() as int) =~= pairs@);
        if ks.len() == 0 {
            return None;
        }
        Some(VietnameseSyllableValidator::validate(ks.as_slice()))
    }

    /// Detects the language of a text.
    pub fn detect(&self, text: &CharSequence) -> (r: DetectionResult)
        ensures
            r == detection(text@),
    {
        if text.is_empty() {
            return DetectionResult::ambiguous();
        }
        let (ks, diacritics) = self.parse_text(text);
        if ks.len() == 0 {
            return DetectionResult::ambiguous();
        }
        if diacritics {
            return DetectionResult::vietnamese(ConfidenceLevel::VeryHigh);
        }
        let validation = self.validate_vietnamese(text);
        let is_valid = match validation {
            Some(v) => v.is_valid,
            None => false,
        };
        let d = LanguageDecisionEngine::decide_with_validation(ks.as_slice(), diacritics, validation, None);
        if d.is_english {
            DetectionResult::non_vietnamese(ConfidenceLevel::from_percent(d.confidence))
        } else if is_valid {
            let rest: u8 = if d.confidence <= 100 { 100 - d.confidence } else { 0 };
            DetectionResult::vietnamese(ConfidenceLevel::from_percent(rest))
        } else {
            DetectionResult::ambiguous()
        }
    }

    /// Whether the text is detected as Vietnamese.
    pub fn is_vietnamese(&self, text: &CharSequence) -> (r: bool)
        ensures
            r == (detection(text@).language == DetectedLanguage::Vietnamese),
    {
        let d = self.detect(text);
        d.language == DetectedLanguage::Vietnamese
    }
}

// ── Laws ─────────────────────────────────────────────────────────────────────

/// Vietnamese first: a rendered output that spells a Vietnamese syllable is never English,
/// and neither is a word with Vietnamese diacritics.
pub proof fn lemma_vietnamese_first(ks: Seq<(u16, bool)>, has_diacritics: bool, validation: Option<ValidationResult>, output: Option<Seq<char>>)
    ensures
        output is Some && text_forms_syllable(output.unwrap()) ==> !decision(ks, has_diacritics, validation, output).is_english,
        has_diacritics ==> !decision(ks, has_diacritics, validation, output).is_english,
{
    lemma_confidence_in_range(layer_scores_of(ks));
}

/// A text with Vietnamese diacritics (and at least one letter) is detected as Vietnamese,
/// with very high confidence.
pub proof fn lemma_diacritics_mean_vietnamese(cs: Seq<char>)
    requires
        text_keys(cs).len() > 0,
        has_diacritics(cs),
    ensures
        detection(cs) == (DetectionResult { language: DetectedLanguage::Vietnamese, confidence: ConfidenceLevel::VeryHigh }),
{
}

} // verus!
