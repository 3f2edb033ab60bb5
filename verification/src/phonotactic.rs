//! English detection from key sequences in eight phonotactic layers, each scoring how strongly
//! a pattern that Vietnamese lacks is present, and the decision whether to restore the raw keys.

use vstd::prelude::*;
use crate::keys;
use crate::vietnamese_validator::ValidationResult;

verus! {

/// Key code at position `i`.
pub open spec fn key_at(ks: Seq<(u16, bool)>, i: int) -> u16 {
    ks[i].0
}

/// Key codes at positions `i` and `i + 1`.
pub open spec fn pair_at(ks: Seq<(u16, bool)>, i: int) -> (u16, u16) {
    (ks[i].0, ks[i + 1].0)
}

/// Whether position `i` starts a pair of keys in the sequence.
pub open spec fn pair_index(ks: Seq<(u16, bool)>, i: int) -> bool {
    0 <= i && i + 1 < ks.len()
}

// ── Layer 1: initials Vietnamese never starts with ───────────────────────────

/// Initial letters that no native Vietnamese word has: F, J, W, Z.
pub open spec fn foreign_initials() -> Set<u16> {
    set![keys::F, keys::J, keys::W, keys::Z]
}

/// Layer 1: 100 when the word starts with F, J, W, Z or with S followed by H.
pub open spec fn initial_score(ks: Seq<(u16, bool)>) -> u8 {
    if ks.len() == 0 {
        0
    } else if foreign_initials().contains(key_at(ks, 0)) {
        100
    } else if ks.len() >= 2 && key_at(ks, 0) == keys::S && key_at(ks, 1) == keys::H {
        100
    } else {
        0
    }
}

// ── Layer 2: onset clusters ──────────────────────────────────────────────────

/// English onset clusters that Vietnamese lacks.
pub open spec fn onset_clusters() -> Set<(u16, u16)> {
    set![
        (keys::B, keys::L), (keys::B, keys::R), (keys::C, keys::L), (keys::C, keys::R),
        (keys::D, keys::R), (keys::F, keys::L), (keys::F, keys::R), (keys::G, keys::L),
        (keys::G, keys::R), (keys::P, keys::L), (keys::P, keys::R), (keys::S, keys::C),
        (keys::S, keys::K), (keys::S, keys::L), (keys::S, keys::M), (keys::S, keys::N),
        (keys::S, keys::P), (keys::S, keys::T), (keys::S, keys::W), (keys::T, keys::W),
        (keys::V, keys::R), (keys::W, keys::H), (keys::W, keys::R)
    ]
}

/// Layer 2: 98 when the first two keys form an English onset cluster.
pub open spec fn onset_score(ks: Seq<(u16, bool)>) -> u8 {
    if ks.len() >= 2 && onset_clusters().contains(pair_at(ks, 0)) { 98 } else { 0 }
}

// ── Layer 3: doubled consonants ──────────────────────────────────────────────

/// Consonants that English doubles and Vietnamese never does.
pub open spec fn doubling_consonants() -> Set<u16> {
    set![
        keys::B, keys::C, keys::F, keys::G, keys::H, keys::K, keys::L, keys::M, keys::N,
        keys::P, keys::R, keys::S, keys::T, keys::V, keys::Z
    ]
}

/// Position `i` holds a doubled consonant.
pub open spec fn double_at(ks: Seq<(u16, bool)>, i: int) -> bool {
    key_at(ks, i) == key_at(ks, i + 1) && doubling_consonants().contains(key_at(ks, i))
}

/// Layer 3: 95 when two equal consonants stand next to each other.
pub open spec fn double_score(ks: Seq<(u16, bool)>) -> u8 {
    if exists|i: int| pair_index(ks, i) && #[trigger] double_at(ks, i) { 95 } else { 0 }
}

// ── Layer 4: suffixes ────────────────────────────────────────────────────────

/// Three-key English suffixes.
pub open spec fn suffixes_3() -> Set<(u16, u16, u16)> {
    set![
        (keys::I, keys::N, keys::G), (keys::E, keys::D, keys::SPACE),
        (keys::L, keys::Y, keys::SPACE), (keys::E, keys::R, keys::SPACE),
        (keys::O, keys::R, keys::E), (keys::I, keys::V, keys::E), (keys::O, keys::U, keys::S),
        (keys::A, keys::T, keys::E), (keys::I, keys::T, keys::Y), (keys::A, keys::L, keys::L),
        (keys::F, keys::U, keys::L)
    ]
}

/// Four-key English suffixes.
pub open spec fn suffixes_4() -> Set<(u16, u16, u16, u16)> {
    set![
        (keys::T, keys::I, keys::O, keys::N), (keys::S, keys::I, keys::O, keys::N),
        (keys::N, keys::E, keys::S, keys::S), (keys::M, keys::E, keys::N, keys::T),
        (keys::A, keys::B, keys::L, keys::E), (keys::I, keys::B, keys::L, keys::E),
        (keys::A, keys::N, keys::C, keys::E), (keys::E, keys::N, keys::C, keys::E),
        (keys::I, keys::T, keys::E, keys::D)
    ]
}

/// Five-key English suffixes.
pub open spec fn suffixes_5() -> Set<(u16, u16, u16, u16, u16)> {
    set![(keys::A, keys::T, keys::I, keys::O, keys::N)]
}

/// Layer 4: 90 when the word ends with an English suffix.
pub open spec fn suffix_score(ks: Seq<(u16, bool)>) -> u8 {
    let n = ks.len() as int;
    if (n >= 3 && suffixes_3().contains((key_at(ks, n - 3), key_at(ks, n - 2), key_at(ks, n - 1))))
        || (n >= 4 && suffixes_4().contains(
            (key_at(ks, n - 4), key_at(ks, n - 3), key_at(ks, n - 2), key_at(ks, n - 1)),
        ))
        || (n >= 5 && suffixes_5().contains(
            (key_at(ks, n - 5), key_at(ks, n - 4), key_at(ks, n - 3), key_at(ks, n - 2), key_at(ks, n - 1)),
        )) {
        90
    } else {
        0
    }
}

// ── Layer 5: coda clusters ───────────────────────────────────────────────────

/// English coda clusters.
pub open spec fn coda_clusters() -> Set<(u16, u16)> {
    set![
        (keys::S, keys::T), (keys::N, keys::D), (keys::N, keys::T), (keys::M, keys::P),
        (keys::N, keys::K), (keys::L, keys::D), (keys::L, keys::T), (keys::R, keys::D),
        (keys::R, keys::N), (keys::R, keys::S), (keys::R, keys::T), (keys::F, keys::T),
        (keys::L, keys::S), (keys::L, keys::Z)
    ]
}

/// Position `i` holds a coda cluster; "nt" followed by a vowel starts the next syllable
/// and does not count.
pub open spec fn coda_at(ks: Seq<(u16, bool)>, i: int) -> bool {
    &&& coda_clusters().contains(pair_at(ks, i))
    &&& !(key_at(ks, i) == keys::N && key_at(ks, i + 1) == keys::T && i + 2 < ks.len()
        && keys::is_vowel_key(key_at(ks, i + 2)))
}

/// Layer 5: 91 when a coda cluster occurs.
pub open spec fn coda_score(ks: Seq<(u16, bool)>) -> u8 {
    if exists|i: int| pair_index(ks, i) && #[trigger] coda_at(ks, i) { 91 } else { 0 }
}

// ── Layer 6: prefixes ────────────────────────────────────────────────────────

/// Three-key English prefixes.
pub open spec fn prefixes_3() -> Set<(u16, u16, u16)> {
    set![
        (keys::P, keys::R, keys::E), (keys::D, keys::I, keys::S), (keys::O, keys::V, keys::E),
        (keys::I, keys::M, keys::P), (keys::E, keys::X, keys::P), (keys::C, keys::O, keys::N),
        (keys::S, keys::U, keys::B)
    ]
}

/// Four-key English prefixes.
pub open spec fn prefixes_4() -> Set<(u16, u16, u16, u16)> {
    set![
        (keys::R, keys::E, keys::S, keys::T), (keys::O, keys::V, keys::E, keys::R),
        (keys::U, keys::N, keys::D, keys::E)
    ]
}

/// Layer 6: 95 when the word starts with an English prefix.
pub open spec fn prefix_score(ks: Seq<(u16, bool)>) -> u8 {
    if (ks.len() >= 3 && prefixes_3().contains((key_at(ks, 0), key_at(ks, 1), key_at(ks, 2))))
        || (ks.len() >= 4 && prefixes_4().contains(
            (key_at(ks, 0), key_at(ks, 1), key_at(ks, 2), key_at(ks, 3)),
        )) {
        95
    } else {
        0
    }
}

// ── Layer 7: vowel patterns ──────────────────────────────────────────────────

/// English vowel digraphs: "ea" and "ou".
pub open spec fn vowel_patterns() -> Set<(u16, u16)> {
    set![(keys::E, keys::A), (keys::O, keys::U)]
}

/// Layer 7: 85 when an English vowel digraph occurs.
pub open spec fn vowel_pattern_score(ks: Seq<(u16, bool)>) -> u8 {
    if exists|i: int| pair_index(ks, i) && vowel_patterns().contains(#[trigger] pair_at(ks, i)) { 85 } else { 0 }
}

// ── Layer 8: impossible bigrams ──────────────────────────────────────────────

/// Bigrams that never occur in Vietnamese.
pub open spec fn impossible_bigrams() -> Set<(u16, u16)> {
    set![
        (keys::Q, keys::B), (keys::Q, keys::D), (keys::Q, keys::F), (keys::Z, keys::S),
        (keys::Z, keys::N), (keys::J, keys::M), (keys::F, keys::N), (keys::W, keys::G),
        (keys::X, keys::B), (keys::V, keys::T)
    ]
}

/// Layer 8: 80 when a bigram impossible in Vietnamese occurs.
pub open spec fn bigram_score(ks: Seq<(u16, bool)>) -> u8 {
    if exists|i: int| pair_index(ks, i) && impossible_bigrams().contains(#[trigger] pair_at(ks, i)) { 80 } else { 0 }
}

// ── Combination ──────────────────────────────────────────────────────────────

/// The eight layer scores of a key sequence, in layer order.
pub open spec fn layer_scores_of(ks: Seq<(u16, bool)>) -> Seq<u8> {
    seq![
        initial_score(ks), onset_score(ks), double_score(ks), suffix_score(ks),
        coda_score(ks), prefix_score(ks), vowel_pattern_score(ks), bigram_score(ks)
    ]
}

/// Bit `b` of the matched-layer mask when a layer scored `s`.
pub open spec fn layer_bit(s: u8, b: int) -> int {
    if s > 0 { b } else { 0 }
}

/// Mask of the layers with a positive score (bit `i` for layer `i + 1`).
pub open spec fn mask_of(sc: Seq<u8>) -> int {
    layer_bit(sc[0], 1) + layer_bit(sc[1], 2) + layer_bit(sc[2], 4) + layer_bit(sc[3], 8)
        + layer_bit(sc[4], 16) + layer_bit(sc[5], 32) + layer_bit(sc[6], 64) + layer_bit(sc[7], 128)
}

/// Score `s` of a layer of weight `w`, weighted; zero when the layer did not match.
pub open spec fn weighted_term(s: u8, w: int) -> int {
    if s > 0 { s * w } else { 0 }
}

/// Weight `w` of a layer that scored `s`; zero when it did not match.
pub open spec fn weight_term(s: u8, w: int) -> int {
    if s > 0 { w } else { 0 }
}

/// Sum of the matched layers' weighted scores; the layers weigh 100, 98, 95, 90, 91, 95, 85, 80.
pub open spec fn weighted_sum(sc: Seq<u8>) -> int {
    weighted_term(sc[0], 100) + weighted_term(sc[1], 98) + weighted_term(sc[2], 95)
        + weighted_term(sc[3], 90) + weighted_term(sc[4], 91) + weighted_term(sc[5], 95)
        + weighted_term(sc[6], 85) + weighted_term(sc[7], 80)
}

/// Sum of the matched layers' weights.
pub open spec fn weight_sum(sc: Seq<u8>) -> int {
    weight_term(sc[0], 100) + weight_term(sc[1], 98) + weight_term(sc[2], 95)
        + weight_term(sc[3], 90) + weight_term(sc[4], 91) + weight_term(sc[5], 95)
        + weight_term(sc[6], 85) + weight_term(sc[7], 80)
}

/// `total / count`, at most 100; 0 when `count` is 0.
pub open spec fn capped_mean(total: int, count: int) -> int {
    if count > 0 {
        let m = total / count;
        if m < 100 { m } else { 100 }
    } else {
        0
    }
}

/// Overall English confidence: the weighted mean of the matched layers' scores, at most 100.
pub open spec fn overall_confidence(sc: Seq<u8>) -> int {
    capped_mean(weighted_sum(sc), weight_sum(sc))
}

// ── Table lookups ────────────────────────────────────────────────────────────

fn is_foreign_initial(k: u16) -> (r: bool)
    ensures
        r == foreign_initials().contains(k),
{
    k == keys::F || k == keys::J || k == keys::W || k == keys::Z
}

fn is_onset_cluster(a: u16, b: u16) -> (r: bool)
    ensures
        r == onset_clusters().contains((a, b)),
{
    (a == keys::B && (b == keys::L || b == keys::R))
        || (a == keys::C && (b == keys::L || b == keys::R))
        || (a == keys::D && b == keys::R)
        || (a == keys::F && (b == keys::L || b == keys::R))
        || (a == keys::G && (b == keys::L || b == keys::R))
        || (a == keys::P && (b == keys::L || b == keys::R))
        || (a == keys::S && (b == keys::C || b == keys::K || b == keys::L || b == keys::M
            || b == keys::N || b == keys::P || b == keys::T || b == keys::W))
        || (a == keys::T && b == keys::W)
        || (a == keys::V && b == keys::R)
        || (a == keys::W && (b == keys::H || b == keys::R))
}

fn is_doubling_consonant(k: u16) -> (r: bool)
    ensures
        r == doubling_consonants().contains(k),
{
    k == keys::B || k == keys::C || k == keys::F || k == keys::G || k == keys::H || k == keys::K
        || k == keys::L || k == keys::M || k == keys::N || k == keys::P || k == keys::R
        || k == keys::S || k == keys::T || k == keys::V || k == keys::Z
}

fn is_suffix_3(a: u16, b: u16, c: u16) -> (r: bool)
    ensures
        r == suffixes_3().contains((a, b, c)),
{
    (a == keys::I && b == keys::N && c == keys::G)
        || (a == keys::E && b == keys::D && c == keys::SPACE)
        || (a == keys::L && b == keys::Y && c == keys::SPACE)
        || (a == keys::E && b == keys::R && c == keys::SPACE)
        || (a == keys::O && b == keys::R && c == keys::E)
        || (a == keys::I && b == keys::V && c == keys::E)
        || (a == keys::O && b == keys::U && c == keys::S)
        || (a == keys::A && b == keys::T && c == keys::E)
        || (a == keys::I && b == keys::T && c == keys::Y)
        || (a == keys::A && b == keys::L && c == keys::L)
        || (a == keys::F && b == keys::U && c == keys::L)
}

fn is_suffix_4(a: u16, b: u16, c: u16, d: u16) -> (r: bool)
    ensures
        r == suffixes_4().contains((a, b, c, d)),
{
    (a == keys::T && b == keys::I && c == keys::O && d == keys::N)
        || (a == keys::S && b == keys::I && c == keys::O && d == keys::N)
        || (a == keys::N && b == keys::E && c == keys::S && d == keys::S)
        || (a == keys::M && b == keys::E && c == keys::N && d == keys::T)
        || (a == keys::A && b == keys::B && c == keys::L && d == keys::E)
        || (a == keys::I && b == keys::B && c == keys::L && d == keys::E)
        || (a == keys::A && b == keys::N && c == keys::C && d == keys::E)
        || (a == keys::E && b == keys::N && c == keys::C && d == keys::E)
        || (a == keys::I && b == keys::T && c == keys::E && d == keys::D)
}

fn is_suffix_5(a: u16, b: u16, c: u16, d: u16, e: u16) -> (r: bool)
    ensures
        r == suffixes_5().contains((a, b, c, d, e)),
{
    a == keys::A && b == keys::T && c == keys::I && d == keys::O && e == keys::N
}

fn is_coda_cluster(a: u16, b: u16) -> (r: bool)
    ensures
        r == coda_clusters().contains((a, b)),
{
    (a == keys::S && b == keys::T)
        || (a == keys::N && (b == keys::D || b == keys::T || b == keys::K))
        || (a == keys::M && b == keys::P)
        || (a == keys::L && (b == keys::D || b == keys::T || b == keys::S || b == keys::Z))
        || (a == keys::R && (b == keys::D || b == keys::N || b == keys::S || b == keys::T))
        || (a == keys::F && b == keys::T)
}

fn is_prefix_3(a: u16, b: u16, c: u16) -> (r: bool)
    ensures
        r == prefixes_3().contains((a, b, c)),
{
    (a == keys::P && b == keys::R && c == keys::E)
        || (a == keys::D && b == keys::I && c == keys::S)
        || (a == keys::O && b == keys::V && c == keys::E)
        || (a == keys::I && b == keys::M && c == keys::P)
        || (a == keys::E && b == keys::X && c == keys::P)
        || (a == keys::C && b == keys::O && c == keys::N)
        || (a == keys::S && b == keys::U && c == keys::B)
}

fn is_prefix_4(a: u16, b: u16, c: u16, d: u16) -> (r: bool)
    ensures
        r == prefixes_4().contains((a, b, c, d)),
{
    (a == keys::R && b == keys::E && c == keys::S && d == keys::T)
        || (a == keys::O && b == keys::V && c == keys::E && d == keys::R)
        || (a == keys::U && b == keys::N && c == keys::D && d == keys::E)
}

fn is_vowel_pattern(a: u16, b: u16) -> (r: bool)
    ensures
        r == vowel_patterns().contains((a, b)),
{
    (a == keys::E && b == keys::A) || (a == keys::O && b == keys::U)
}

fn is_impossible_bigram(a: u16, b: u16) -> (r: bool)
    ensures
        r == impossible_bigrams().contains((a, b)),
{
    (a == keys::Q && (b == keys::B || b == keys::D || b == keys::F))
        || (a == keys::Z && (b == keys::S || b == keys::N))
        || (a == keys::J && b == keys::M)
        || (a == keys::F && b == keys::N)
        || (a == keys::W && b == keys::G)
        || (a == keys::X && b == keys::B)
        || (a == keys::V && b == keys::T)
}

// ── Layer checks ─────────────────────────────────────────────────────────────

fn check_invalid_initials(ks: &[(u16, bool)]) -> (r: u8)
    ensures
        r == initial_score(ks@),
{
    if ks.len() == 0 {
        return 0;
    }
    let first = ks[0].0;
    if is_foreign_initial(first) {
        100
    } else if ks.len() >= 2 && first == keys::S && ks[1].0 == keys::H {
        100
    } else {
        0
    }
}

fn check_onset_clusters(ks: &[(u16, bool)]) -> (r: u8)
    ensures
        r == onset_score(ks@),
{
    if ks.len() < 2 {
        return 0;
    }
    if is_onset_cluster(ks[0].0, ks[1].0) { 98 } else { 0 }
}

fn check_double_consonants(ks: &[(u16, bool)]) -> (r: u8)
    ensures
        r == double_score(ks@),
{
    let n = ks.len();
    let mut i: usize = 0;
    while n >= 2 && i < n - 1
        invariant
            n == ks@.len(),
            forall|j: int| 0 <= j < i && pair_index(ks@, j) ==> !double_at(ks@, j),
        decreases n - i,
    {
        let curr = ks[i].0;
        if curr == ks[i + 1].0 && is_doubling_consonant(curr) {
            assert(double_at(ks@, i as int));
            return 95;
        }
        i += 1;
    }
    0
}

fn check_suffixes(ks: &[(u16, bool)]) -> (r: u8)
    ensures
        r == suffix_score(ks@),
{
    let n = ks.len();
    if n >= 3 && is_suffix_3(ks[n - 3].0, ks[n - 2].0, ks[n - 1].0) {
        return 90;
    }
    if n >= 4 && is_suffix_4(ks[n - 4].0, ks[n - 3].0, ks[n - 2].0, ks[n - 1].0) {
        return 90;
    }
    if n >= 5 && is_suffix_5(ks[n - 5].0, ks[n - 4].0, ks[n - 3].0, ks[n - 2].0, ks[n - 1].0) {
        return 90;
    }
    0
}

fn check_coda_clusters(ks: &[(u16, bool)]) -> (r: u8)
    ensures
        r == coda_score(ks@),
{
    let n = ks.len();
    let mut i: usize = 0;
    while n >= 2 && i < n - 1
        invariant
            n == ks@.len(),
            forall|j: int| 0 <= j < i && pair_index(ks@, j) ==> !coda_at(ks@, j),
        decreases n - i,
    {
        let curr = ks[i].0;
        let next = ks[i + 1].0;
        if is_coda_cluster(curr, next) {
            let skip = curr == keys::N && next == keys::T && i + 2 < n && keys::is_vowel(ks[i + 2].0);
            if !skip {
                assert(coda_at(ks@, i as int));
                return 91;
            }
        }
        i += 1;
    }
    0
}

fn check_prefixes(ks: &[(u16, bool)]) -> (r: u8)
    ensures
        r == prefix_score(ks@),
{
    let n = ks.len();
    if n >= 3 && is_prefix_3(ks[0].0, ks[1].0, ks[2].0) {
        return 95;
    }
    if n >= 4 && is_prefix_4(ks[0].0, ks[1].0, ks[2].0, ks[3].0) {
        return 95;
    }
    0
}

fn check_vowel_patterns(ks: &[(u16, bool)]) -> (r: u8)
    ensures
        r == vowel_pattern_score(ks@),
{
    let n = ks.len();
    let mut i: usize = 0;
    while n >= 2 && i < n - 1
        invariant
            n == ks@.len(),
            forall|j: int| 0 <= j < i && pair_index(ks@, j) ==> !vowel_patterns().contains(pair_at(ks@, j)),
        decreases n - i,
    {
        if is_vowel_pattern(ks[i].0, ks[i + 1].0) {
            assert(vowel_patterns().contains(pair_at(ks@, i as int)));
            return 85;
        }
        i += 1;
    }
    0
}

fn check_impossible_bigrams(ks: &[(u16, bool)]) -> (r: u8)
    ensures
        r == bigram_score(ks@),
{
    let n = ks.len();
    let mut i: usize = 0;
    while n >= 2 && i < n - 1
        invariant
            n == ks@.len(),
            forall|j: int| 0 <= j < i && pair_index(ks@, j) ==> !impossible_bigrams().contains(pair_at(ks@, j)),
        decreases n - i,
    {
        if is_impossible_bigram(ks[i].0, ks[i + 1].0) {
            assert(impossible_bigrams().contains(pair_at(ks@, i as int)));
            return 80;
        }
        i += 1;
    }
    0
}

// ── Result ───────────────────────────────────────────────────────────────────

/// Whether bit `i` of a layer mask is set.
pub open spec fn has_bit(m: u8, i: u8) -> bool {
    (m >> i) & 1u8 == 1u8
}

/// Sum of the scores of the first `n` layers whose bit is set in `m`.
pub open spec fn masked_total(sc: Seq<u8>, m: u8, n: nat) -> int
    decreases n,
{
    if n == 0 {
        0
    } else {
        masked_total(sc, m, (n - 1) as nat) + if has_bit(m, (n - 1) as u8) { sc[n - 1] as int } else { 0 }
    }
}

/// Number of the first `n` layers whose bit is set in `m`.
pub open spec fn masked_count(m: u8, n: nat) -> int
    decreases n,
{
    if n == 0 {
        0
    } else {
        masked_count(m, (n - 1) as nat) + if has_bit(m, (n - 1) as u8) { 1int } else { 0 }
    }
}

/// Plain mean of the scores of the layers set in `m`, at most 100; 0 when none is set.
pub open spec fn masked_mean(sc: Seq<u8>, m: u8) -> int {
    if m == 0 || masked_count(m, 8) == 0 {
        0
    } else {
        let avg = masked_total(sc, m, 8) / masked_count(m, 8);
        if avg < 100 { avg } else { 100 }
    }
}

/// Outcome of the phonotactic analysis.
#[derive(Debug, Clone, Copy, PartialEq)]
pub struct PhonotacticResult {
    /// Overall English confidence (0-100).
    pub english_confidence: u8,
    /// Score of each layer (0-100).
    pub layer_scores: [u8; 8],
    /// Bit `i` is set when layer `i + 1` matched.
    pub matched_layers: u8,
}

impl PhonotacticResult {
    /// Whether any layer detected English.
    pub fn is_english(&self) -> (r: bool)
        ensures
            r == (self.matched_layers > 0),
    {
        self.matched_layers > 0
    }

    /// Mean score of the matched layers, at most 100; 0 when none matched.
    pub fn combined_confidence(&self) -> (r: u8)
        ensures
            r == masked_mean(self.layer_scores@, self.matched_layers),
    {
        let m = self.matched_layers;
        if m == 0 {
            return 0;
        }
        let mut total: u32 = 0;
        let mut count: u32 = 0;
        let mut i: u8 = 0;
        while i < 8
            invariant
                i <= 8,
                self.layer_scores@.len() == 8,
                m == self.matched_layers,
                total == masked_total(self.layer_scores@, m, i as nat),
                count == masked_count(m, i as nat),
                total <= 255 * i,
                count <= i,
            decreases 8 - i,
        {
            if (m >> i) & 1u8 == 1u8 {
                total = total + self.layer_scores[i as usize] as u32;
                count = count + 1;
            }
            i = i + 1;
        }
        if count == 0 {
            0
        } else {
            let avg = total / count;
            if avg < 100 { avg as u8 } else { 100 }
        }
    }
}

fn capped_mean_of(total: u32, count: u32) -> (r: u8)
    ensures
        r == capped_mean(total as int, count as int),
{
    if count > 0 {
        let m = total / count;
        if m < 100 { m as u8 } else { 100 }
    } else {
        0
    }
}

fn mask_bits(s0: u8, s1: u8, s2: u8, s3: u8, s4: u8, s5: u8, s6: u8, s7: u8) -> (r: u8)
    ensures
        r == mask_of(seq![s0, s1, s2, s3, s4, s5, s6, s7]),
{
    let t0: u8 = if s0 > 0 { 1 } else { 0 };
    let t1: u8 = if s1 > 0 { 2 } else { 0 };
    let t2: u8 = if s2 > 0 { 4 } else { 0 };
    let t3: u8 = if s3 > 0 { 8 } else { 0 };
    let t4: u8 = if s4 > 0 { 16 } else { 0 };
    let t5: u8 = if s5 > 0 { 32 } else { 0 };
    let t6: u8 = if s6 > 0 { 64 } else { 0 };
    let t7: u8 = if s7 > 0 { 128 } else { 0 };
    t0 + t1 + t2 + t3 + t4 + t5 + t6 + t7
}

fn weighted_total(s0: u8, s1: u8, s2: u8, s3: u8, s4: u8, s5: u8, s6: u8, s7: u8) -> (r: u32)
    ensures
        r == weighted_sum(seq![s0, s1, s2, s3, s4, s5, s6, s7]),
{
    let t0: u32 = if s0 > 0 { s0 as u32 * 100 } else { 0 };
    let t1: u32 = if s1 > 0 { s1 as u32 * 98 } else { 0 };
    let t2: u32 = if s2 > 0 { s2 as u32 * 95 } else { 0 };
    let t3: u32 = if s3 > 0 { s3 as u32 * 90 } else { 0 };
    let t4: u32 = if s4 > 0 { s4 as u32 * 91 } else { 0 };
    let t5: u32 = if s5 > 0 { s5 as u32 * 95 } else { 0 };
    let t6: u32 = if s6 > 0 { s6 as u32 * 85 } else { 0 };
    let t7: u32 = if s7 > 0 { s7 as u32 * 80 } else { 0 };
    t0 + t1 + t2 + t3 + t4 + t5 + t6 + t7
}

fn weight_total(s0: u8, s1: u8, s2: u8, s3: u8, s4: u8, s5: u8, s6: u8, s7: u8) -> (r: u32)
    ensures
        r == weight_sum(seq![s0, s1, s2, s3, s4, s5, s6, s7]),
{
    let t0: u32 = if s0 > 0 { 100 } else { 0 };
    let t1: u32 = if s1 > 0 { 98 } else { 0 };
    let t2: u32 = if s2 > 0 { 95 } else { 0 };
    let t3: u32 = if s3 > 0 { 90 } else { 0 };
    let t4: u32 = if s4 > 0 { 91 } else { 0 };
    let t5: u32 = if s5 > 0 { 95 } else { 0 };
    let t6: u32 = if s6 > 0 { 85 } else { 0 };
    let t7: u32 = if s7 > 0 { 80 } else { 0 };
    t0 + t1 + t2 + t3 + t4 + t5 + t6 + t7
}

/// Mask of the layers with a positive score and the weighted mean of their scores.
fn combine_layers(s0: u8, s1: u8, s2: u8, s3: u8, s4: u8, s5: u8, s6: u8, s7: u8) -> (r: (u8, u8))
    ensures
        r.0 == mask_of(seq![s0, s1, s2, s3, s4, s5, s6, s7]),
        r.1 == overall_confidence(seq![s0, s1, s2, s3, s4, s5, s6, s7]),
{
    let matched = mask_bits(s0, s1, s2, s3, s4, s5, s6, s7);
    let weighted = weighted_total(s0, s1, s2, s3, s4, s5, s6, s7);
    let weights = weight_total(s0, s1, s2, s3, s4, s5, s6, s7);
    (matched, capped_mean_of(weighted, weights))
}

/// The eight-layer phonotactic analysis.
pub struct PhonotacticEngine;

impl PhonotacticEngine {
    /// Scores the key sequence in the eight layers, sets the mask of the matched layers and
    /// the overall confidence (the weighted mean of the matched layers' scores).
    pub fn analyze(ks: &[(u16, bool)]) -> (r: PhonotacticResult)
        ensures
            r.layer_scores@ == layer_scores_of(ks@),
            r.matched_layers == mask_of(layer_scores_of(ks@)),
            r.english_confidence == overall_confidence(layer_scores_of(ks@)),
    {
        if ks.len() == 0 {
            let r = PhonotacticResult { english_confidence: 0, layer_scores: [0u8; 8], matched_layers: 0 };
            assert(r.layer_scores@ =~= layer_scores_of(ks@));
            return r;
        }
        let s0 = check_invalid_initials(ks);
        let s1 = check_onset_clusters(ks);
        let s2 = check_double_consonants(ks);
        let s3 = check_suffixes(ks);
        let s4 = check_coda_clusters(ks);
        let s5 = check_prefixes(ks);
        let s6 = check_vowel_patterns(ks);
        let s7 = check_impossible_bigrams(ks);
        let scores: [u8; 8] = [s0, s1, s2, s3, s4, s5, s6, s7];
        assert(scores@ =~= layer_scores_of(ks@));
        let (matched, confidence) = combine_layers(s0, s1, s2, s3, s4, s5, s6, s7);
        PhonotacticResult { english_confidence: confidence, layer_scores: scores, matched_layers: matched }
    }
}

// ── Restore decision ─────────────────────────────────────────────────────────

/// Number of matched layers, at least 1.
pub open spec fn layer_count(m: u8) -> int {
    if masked_count(m, 8) > 1 { masked_count(m, 8) } else { 1 }
}

/// Restore the raw keys: only when transforms were applied and the Vietnamese check failed,
/// and then on strong English evidence (confidence over 75 with Vietnamese confidence under
/// 50, three or more layers with Vietnamese confidence under 30, or confidence of 80 or more).
pub open spec fn restore_decision(p: PhonotacticResult, v: ValidationResult, has_transforms: bool) -> bool {
    &&& has_transforms
    &&& !v.is_valid
    &&& (p.english_confidence > 75 && v.confidence < 50)
        || (layer_count(p.matched_layers) >= 3 && v.confidence < 30)
        || p.english_confidence >= 80
}

/// Restore confidence: mean of the English confidence and the Vietnamese doubt
/// (100 minus the Vietnamese confidence, not below 0), at most 100.
pub open spec fn restore_confidence(p: PhonotacticResult, v: ValidationResult) -> int {
    let doubt = if v.confidence <= 100 { 100 - v.confidence } else { 0 };
    let m = (p.english_confidence + doubt) / 2;
    if m < 100 { m } else { 100 }
}

fn count_layers(m: u8) -> (r: u32)
    ensures
        r == masked_count(m, 8),
{
    let mut count: u32 = 0;
    let mut i: u8 = 0;
    while i < 8
        invariant
            i <= 8,
            count == masked_count(m, i as nat),
            count <= i,
        decreases 8 - i,
    {
        if (m >> i) & 1u8 == 1u8 {
            count = count + 1;
        }
        i = i + 1;
    }
    count
}

/// Whether to restore an English word typed with Vietnamese transforms.
pub struct AutoRestoreDecider;

impl AutoRestoreDecider {
    /// `true` restores the raw English keys, `false` keeps the Vietnamese transforms.
    pub fn should_restore(phonotactic: &PhonotacticResult, vietnamese_validation: &ValidationResult, has_transforms: bool) -> (r: bool)
        ensures
            r == restore_decision(*phonotactic, *vietnamese_validation, has_transforms),
    {
        if !has_transforms {
            return false;
        }
        if vietnamese_validation.is_valid {
            return false;
        }
        let counted = count_layers(phonotactic.matched_layers);
        let english_layers: u32 = if counted > 1 { counted } else { 1 };
        let viet_confidence = vietnamese_validation.confidence;
        let english_confidence = phonotactic.english_confidence;
        if english_confidence > 75 && viet_confidence < 50 {
            return true;
        }
        if english_layers >= 3 && viet_confidence < 30 {
            return true;
        }
        if english_confidence >= 80 && !vietnamese_validation.is_valid {
            return true;
        }
        false
    }

    /// Restore confidence (0-100).
    pub fn confidence(phonotactic: &PhonotacticResult, vietnamese_validation: &ValidationResult) -> (r: u8)
        ensures
            r == restore_confidence(*phonotactic, *vietnamese_validation),
    {
        let english = phonotactic.english_confidence as u32;
        let viet = vietnamese_validation.confidence as u32;
        let doubt: u32 = if viet <= 100 { 100 - viet } else { 0 };
        let m = (english + doubt) / 2;
        if m < 100 { m as u8 } else { 100 }
    }
}

// ── Laws ─────────────────────────────────────────────────────────────────────

/// A word is flagged English exactly when at least one layer scored above zero.
pub proof fn lemma_english_iff_layer_matched(ks: Seq<(u16, bool)>)
    ensures
        (mask_of(layer_scores_of(ks)) > 0) <==> (exists|i: int| 0 <= i < 8 && layer_scores_of(ks)[i] > 0),
{
    let sc = layer_scores_of(ks);
    if mask_of(sc) > 0 {
        if sc[0] > 0 { assert(sc[0] > 0); } else if sc[1] > 0 { assert(sc[1] > 0); }
        else if sc[2] > 0 { assert(sc[2] > 0); } else if sc[3] > 0 { assert(sc[3] > 0); }
        else if sc[4] > 0 { assert(sc[4] > 0); } else if sc[5] > 0 { assert(sc[5] > 0); }
        else if sc[6] > 0 { assert(sc[6] > 0); } else { assert(sc[7] > 0); }
    }
}

/// Bit `i` of the mask that the analysis reports is set exactly when layer `i + 1` scored
/// above zero, so the mean over the mask is the mean over the matched layers.
pub proof fn lemma_mask_bits(ks: Seq<(u16, bool)>)
    ensures
        forall|i: u8| i < 8 ==> (#[trigger] has_bit(mask_of(layer_scores_of(ks)) as u8, i) <==> layer_scores_of(ks)[i as int] > 0),
{
    let sc = layer_scores_of(ks);
    let b0 = sc[0] > 0;
    let b1 = sc[1] > 0;
    let b2 = sc[2] > 0;
    let b3 = sc[3] > 0;
    let b4 = sc[4] > 0;
    let b5 = sc[5] > 0;
    let b6 = sc[6] > 0;
    let b7 = sc[7] > 0;
    let m: u8 = mask_of(sc) as u8;
    assert(m == (if b0 { 1u8 } else { 0u8 }) + (if b1 { 2u8 } else { 0u8 }) + (if b2 { 4u8 } else { 0u8 })
        + (if b3 { 8u8 } else { 0u8 }) + (if b4 { 16u8 } else { 0u8 }) + (if b5 { 32u8 } else { 0u8 })
        + (if b6 { 64u8 } else { 0u8 }) + (if b7 { 128u8 } else { 0u8 }));
    assert(((m >> 0u8) & 1u8 == 1u8) == b0 && ((m >> 1u8) & 1u8 == 1u8) == b1
        && ((m >> 2u8) & 1u8 == 1u8) == b2 && ((m >> 3u8) & 1u8 == 1u8) == b3
        && ((m >> 4u8) & 1u8 == 1u8) == b4 && ((m >> 5u8) & 1u8 == 1u8) == b5
        && ((m >> 6u8) & 1u8 == 1u8) == b6 && ((m >> 7u8) & 1u8 == 1u8) == b7) by (bit_vector)
        requires
            m == (if b0 { 1u8 } else { 0u8 }) + (if b1 { 2u8 } else { 0u8 }) + (if b2 { 4u8 } else { 0u8 })
                + (if b3 { 8u8 } else { 0u8 }) + (if b4 { 16u8 } else { 0u8 }) + (if b5 { 32u8 } else { 0u8 })
                + (if b6 { 64u8 } else { 0u8 }) + (if b7 { 128u8 } else { 0u8 }),
    ;
    assert forall|i: u8| i < 8 implies (#[trigger] has_bit(m, i) <==> sc[i as int] > 0) by {
        if i == 0 { } else if i == 1 { } else if i == 2 { } else if i == 3 { }
        else if i == 4 { } else if i == 5 { } else if i == 6 { } else { }
    }
}

/// A word whose Vietnamese check passed is never restored, and neither is one typed without
/// transforms.
pub proof fn lemma_no_restore_of_valid_vietnamese(p: PhonotacticResult, v: ValidationResult, has_transforms: bool)
    ensures
        v.is_valid ==> !restore_decision(p, v, has_transforms),
        !has_transforms ==> !restore_decision(p, v, has_transforms),
{
}

/// The overall confidence of the analysis lies in 0..=100.
pub proof fn lemma_confidence_in_range(sc: Seq<u8>)
    requires
        sc.len() == 8,
    ensures
        0 <= overall_confidence(sc) <= 100,
{
    assert(weighted_sum(sc) >= 0) by {
        assert(weighted_term(sc[0], 100) >= 0 && weighted_term(sc[1], 98) >= 0);
        assert(weighted_term(sc[2], 95) >= 0 && weighted_term(sc[3], 90) >= 0);
        assert(weighted_term(sc[4], 91) >= 0 && weighted_term(sc[5], 95) >= 0);
        assert(weighted_term(sc[6], 85) >= 0 && weighted_term(sc[7], 80) >= 0);
    }
    if weight_sum(sc) > 0 {
        let q = weighted_sum(sc) / weight_sum(sc);
        assert(q >= 0) by (nonlinear_arith)
            requires
                weighted_sum(sc) >= 0,
                weight_sum(sc) > 0,
                q == weighted_sum(sc) / weight_sum(sc),
        ;
    }
}


/// The overall English confidence is above zero exactly when at least one layer matched.
pub proof fn lemma_confidence_positive_iff_layer_matched(ks: Seq<(u16, bool)>)
    ensures
        (overall_confidence(layer_scores_of(ks)) > 0) <==> (exists|i: int| 0 <= i < 8 && layer_scores_of(ks)[i] > 0),
{
    let sc = layer_scores_of(ks);
    lemma_confidence_in_range(sc);
    let ws = weighted_sum(sc);
    let wt = weight_sum(sc);
    assert forall|s: u8, w: int| w >= 0 implies #[trigger] weighted_term(s, w) >= weight_term(s, w) by {
        if s > 0 {
            assert(s * w >= w) by (nonlinear_arith) requires s >= 1, w >= 0;
        }
    }
    assert(ws >= wt) by {
        assert(weighted_term(sc[0], 100) >= weight_term(sc[0], 100));
        assert(weighted_term(sc[1], 98) >= weight_term(sc[1], 98));
        assert(weighted_term(sc[2], 95) >= weight_term(sc[2], 95));
        assert(weighted_term(sc[3], 90) >= weight_term(sc[3], 90));
        assert(weighted_term(sc[4], 91) >= weight_term(sc[4], 91));
        assert(weighted_term(sc[5], 95) >= weight_term(sc[5], 95));
        assert(weighted_term(sc[6], 85) >= weight_term(sc[6], 85));
        assert(weighted_term(sc[7], 80) >= weight_term(sc[7], 80));
    }
    if exists|i: int| 0 <= i < 8 && sc[i] > 0 {
        let i = choose|i: int| 0 <= i < 8 && sc[i] > 0;
        assert(wt > 0) by {
            if i == 0 { } else if i == 1 { } else if i == 2 { } else if i == 3 { }
            else if i == 4 { } else if i == 5 { } else if i == 6 { } else { }
        }
        assert(ws / wt >= 1) by (nonlinear_arith) requires ws >= wt, wt > 0;
    } else {
        assert(sc[0] == 0 && sc[1] == 0 && sc[2] == 0 && sc[3] == 0);
        assert(sc[4] == 0 && sc[5] == 0 && sc[6] == 0 && sc[7] == 0);
        assert(wt == 0);
    }
}

/// The analysis reads keys only: two keystroke histories with the same keys, whatever their
/// case flags, get the same layer scores.
pub proof fn lemma_case_does_not_matter(a: Seq<(u16, bool)>, b: Seq<(u16, bool)>)
    requires
        a.len() == b.len(),
        forall|i: int| 0 <= i < a.len() ==> #[trigger] a[i].0 == b[i].0,
    ensures
        layer_scores_of(a) == layer_scores_of(b),
{
    assert forall|i: int| 0 <= i < a.len() implies #[trigger] key_at(a, i) == key_at(b, i) by {
        assert(a[i].0 == b[i].0);
    }
    assert forall|i: int| pair_index(a, i) implies #[trigger] pair_at(a, i) == pair_at(b, i) by {
        assert(key_at(a, i) == key_at(b, i));
        assert(key_at(a, i + 1) == key_at(b, i + 1));
    }
    assert forall|i: int| pair_index(a, i) implies #[trigger] double_at(a, i) == double_at(b, i) by {
        assert(key_at(a, i) == key_at(b, i));
        assert(key_at(a, i + 1) == key_at(b, i + 1));
    }
    assert forall|i: int| pair_index(a, i) implies #[trigger] coda_at(a, i) == coda_at(b, i) by {
        assert(pair_at(a, i) == pair_at(b, i));
        assert(key_at(a, i) == key_at(b, i));
        assert(key_at(a, i + 1) == key_at(b, i + 1));
        if i + 2 < a.len() {
            assert(key_at(a, i + 2) == key_at(b, i + 2));
        }
    }
    if a.len() > 0 {
        assert(key_at(a, 0) == key_at(b, 0));
    }
    let n = a.len() as int;
    if n >= 1 { assert(key_at(a, n - 1) == key_at(b, n - 1)); }
    if n >= 2 { assert(key_at(a, n - 2) == key_at(b, n - 2)); assert(key_at(a, 1) == key_at(b, 1)); }
    if n >= 3 { assert(key_at(a, n - 3) == key_at(b, n - 3)); assert(key_at(a, 2) == key_at(b, 2)); }
    if n >= 4 { assert(key_at(a, n - 4) == key_at(b, n - 4)); assert(key_at(a, 3) == key_at(b, 3)); }
    if n >= 5 { assert(key_at(a, n - 5) == key_at(b, n - 5)); }
    if exists|i: int| pair_index(a, i) && #[trigger] double_at(a, i) {
        let w = choose|i: int| pair_index(a, i) && #[trigger] double_at(a, i);
        assert(pair_index(b, w) && double_at(b, w));
    }
    if exists|i: int| pair_index(b, i) && #[trigger] double_at(b, i) {
        let w = choose|i: int| pair_index(b, i) && #[trigger] double_at(b, i);
        assert(pair_index(a, w) && double_at(a, w));
    }
    assert(double_score(a) == double_score(b));
    if exists|i: int| pair_index(a, i) && #[trigger] coda_at(a, i) {
        let w = choose|i: int| pair_index(a, i) && #[trigger] coda_at(a, i);
        assert(pair_index(b, w) && coda_at(b, w));
    }
    if exists|i: int| pair_index(b, i) && #[trigger] coda_at(b, i) {
        let w = choose|i: int| pair_index(b, i) && #[trigger] coda_at(b, i);
        assert(pair_index(a, w) && coda_at(a, w));
    }
    assert(coda_score(a) == coda_score(b));
    if exists|i: int| pair_index(a, i) && vowel_patterns().contains(#[trigger] pair_at(a, i)) {
        let w = choose|i: int| pair_index(a, i) && vowel_patterns().contains(#[trigger] pair_at(a, i));
        assert(pair_index(b, w) && vowel_patterns().contains(pair_at(b, w)));
    }
    if exists|i: int| pair_index(b, i) && vowel_patterns().contains(#[trigger] pair_at(b, i)) {
        let w = choose|i: int| pair_index(b, i) && vowel_patterns().contains(#[trigger] pair_at(b, i));
        assert(pair_index(a, w) && vowel_patterns().contains(pair_at(a, w)));
    }
    assert(vowel_pattern_score(a) == vowel_pattern_score(b));
    if exists|i: int| pair_index(a, i) && impossible_bigrams().contains(#[trigger] pair_at(a, i)) {
        let w = choose|i: int| pair_index(a, i) && impossible_bigrams().contains(#[trigger] pair_at(a, i));
        assert(pair_index(b, w) && impossible_bigrams().contains(pair_at(b, w)));
    }
    if exists|i: int| pair_index(b, i) && impossible_bigrams().contains(#[trigger] pair_at(b, i)) {
        let w = choose|i: int| pair_index(b, i) && impossible_bigrams().contains(#[trigger] pair_at(b, i));
        assert(pair_index(a, w) && impossible_bigrams().contains(pair_at(a, w)));
    }
    assert(bigram_score(a) == bigram_score(b));
    assert(layer_scores_of(a) =~= layer_scores_of(b));
}

} // verus!
