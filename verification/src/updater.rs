//! Version numbers "major.minor.patch" (optionally written with a leading "v"), their order,
//! and whether a newer one is out.

use vstd::prelude::*;
use crate::text::str_chars;

verus! {

/// A version number.
#[derive(Debug, Clone, Copy, PartialEq, Eq, Structural)]
pub struct Version {
    pub major: u32,
    pub minor: u32,
    pub patch: u32,
}

/// The dot-separated pieces of a text, in order (one piece for a text without dots).
pub open spec fn dot_parts(s: Seq<char>) -> Seq<Seq<char>>
    decreases s.len(),
{
    if s.len() == 0 {
        seq![Seq::empty()]
    } else {
        let p = dot_parts(s.drop_last());
        if s.last() == '.' {
            p.push(Seq::empty())
        } else {
            p.update(p.len() - 1, p.last().push(s.last()))
        }
    }
}

pub open spec fn is_digit(c: char) -> bool {
    '0' <= c <= '9'
}

/// Decimal value of a digit string.
pub open spec fn decimal(s: Seq<char>) -> int
    decreases s.len(),
{
    if s.len() == 0 {
        0
    } else {
        decimal(s.drop_last()) * 10 + (s.last() as int - '0' as int)
    }
}

/// A nonempty string of digits whose value fits in a `u32`.
pub open spec fn number_part(s: Seq<char>) -> bool {
    &&& s.len() > 0
    &&& forall|i: int| 0 <= i < s.len() ==> is_digit(#[trigger] s[i])
    &&& decimal(s) <= u32::MAX
}

/// The text without a leading "v" or "V".
pub open spec fn version_body(s: Seq<char>) -> Seq<char> {
    if s.len() > 0 && (s[0] == 'v' || s[0] == 'V') { s.drop_first() } else { s }
}

/// The version a text names: three dot-separated numbers, after an optional "v".
pub open spec fn parse_spec(s: Seq<char>) -> Option<Version> {
    let p = dot_parts(version_body(s));
    if p.len() == 3 && number_part(p[0]) && number_part(p[1]) && number_part(p[2]) {
        Some(Version { major: decimal(p[0]) as u32, minor: decimal(p[1]) as u32, patch: decimal(p[2]) as u32 })
    } else {
        None
    }
}

/// -1, 0 or 1 as `a` is before, equal to or after `b` (major, then minor, then patch).
pub open spec fn compare_spec(a: Version, b: Version) -> i32 {
    if a.major != b.major {
        if a.major < b.major { -1i32 } else { 1i32 }
    } else if a.minor != b.minor {
        if a.minor < b.minor { -1i32 } else { 1i32 }
    } else if a.patch != b.patch {
        if a.patch < b.patch { -1i32 } else { 1i32 }
    } else {
        0i32
    }
}

fn dot_split(s: &[char]) -> (r: Vec<Vec<char>>)
    ensures
        r@.len() == dot_parts(s@).len(),
        forall|i: int| 0 <= i < r@.len() ==> #[trigger] r@[i]@ == dot_parts(s@)[i],
{
    let mut parts: Vec<Vec<char>> = Vec::new();
    let mut cur: Vec<char> = Vec::new();
    let mut i: usize = 0;
    proof {
        assert(s@.subrange(0, 0) =~= Seq::<char>::empty());
    }
    while i < s.len()
        invariant
            i <= s@.len(),
            parts@.len() + 1 == dot_parts(s@.subrange(0, i as int)).len(),
            forall|j: int| 0 <= j < parts@.len() ==> #[trigger] parts@[j]@ == dot_parts(s@.subrange(0, i as int))[j],
            cur@ == dot_parts(s@.subrange(0, i as int)).last(),
        decreases s@.len() - i,
    {
        assert(s@.subrange(0, i + 1).drop_last() =~= s@.subrange(0, i as int));
        let c = s[i];
        if c == '.' {
            let done = cur;
            parts.push(done);
            cur = Vec::new();
        } else {
            cur.push(c);
        }
        i = i + 1;
    }
    assert(s@.subrange(0, s@.len() as int) =~= s@);
    parts.push(cur);
    parts
}

/// Value of a digit string, if it is a nonempty string of digits whose value fits in a `u32`.
fn parse_number(s: &[char]) -> (r: Option<u32>)
    ensures
        r is Some <==> number_part(s@),
        r is Some ==> r.unwrap() == decimal(s@),
{
    if s.len() == 0 {
        return None;
    }
    let mut v: u64 = 0;
    let mut i: usize = 0;
    while i < s.len()
        invariant
            i <= s@.len(),
            v == decimal(s@.subrange(0, i as int)),
            v <= u32::MAX,
            forall|j: int| 0 <= j < i ==> is_digit(#[trigger] s@[j]),
        decreases s@.len() - i,
    {
        assert(s@.subrange(0, i + 1).drop_last() =~= s@.subrange(0, i as int));
        let c = s[i];
        if !('0' <= c && c <= '9') {
            return None;
        }
        let d = (c as u32 - '0' as u32) as u64;
        v = v * 10 + d;
        if v > 0xffff_ffff {
            proof {
                assert(v == decimal(s@.subrange(0, i + 1)));
                if forall|j: int| 0 <= j < s@.len() ==> is_digit(#[trigger] s@[j]) {
                    lemma_decimal_grows(s@, i as int + 1);
                }
            }
            return None;
        }
        i = i + 1;
    }
    assert(s@.subrange(0, s@.len() as int) =~= s@);
    Some(v as u32)
}

/// The value of a digit string is at least that of each of its prefixes.
proof fn lemma_decimal_grows(s: Seq<char>, n: int)
    requires
        0 <= n <= s.len(),
        forall|j: int| 0 <= j < s.len() ==> is_digit(#[trigger] s[j]),
    ensures
        decimal(s) >= decimal(s.subrange(0, n)),
    decreases s.len(),
{
    if s.len() > n {
        let t = s.drop_last();
        assert(t.subrange(0, n) =~= s.subrange(0, n));
        assert forall|j: int| 0 <= j < t.len() implies is_digit(#[trigger] t[j]) by {
            assert(is_digit(s[j]));
        }
        lemma_decimal_grows(t, n);
        assert(decimal(s) == decimal(t) * 10 + (s.last() as int - '0' as int));
        assert(is_digit(s[s.len() - 1]));
        lemma_decimal_nonneg(t);
    } else {
        assert(s.subrange(0, n) =~= s);
    }
}

proof fn lemma_decimal_nonneg(s: Seq<char>)
    requires
        forall|j: int| 0 <= j < s.len() ==> is_digit(#[trigger] s[j]),
    ensures
        decimal(s) >= 0,
    decreases s.len(),
{
    if s.len() > 0 {
        let t = s.drop_last();
        assert forall|j: int| 0 <= j < t.len() implies is_digit(#[trigger] t[j]) by {
            assert(is_digit(s[j]));
        }
        lemma_decimal_nonneg(t);
        assert(is_digit(s[s.len() - 1]));
    }
}

impl Version {
    /// The version a text names; `None` unless it is three dot-separated numbers, each
    /// fitting in a `u32`, after an optional "v".
    pub fn parse(s: &str) -> (r: Option<Version>)
        ensures
            r == parse_spec(s@),
    {
        let cs = str_chars(s);
        let body: Vec<char> = if cs.len() > 0 && (cs[0] == 'v' || cs[0] == 'V') {
            crate::text::slice_chars(cs.as_slice(), 1, cs.len())
        } else {
            crate::text::slice_chars(cs.as_slice(), 0, cs.len())
        };
        assert(body@ =~= version_body(s@));
        let parts = dot_split(body.as_slice());
        if parts.len() != 3 {
            return None;
        }
        let major = match parse_number(parts[0].as_slice()) {
            Some(v) => v,
            None => return None,
        };
        let minor = match parse_number(parts[1].as_slice()) {
            Some(v) => v,
            None => return None,
        };
        let patch = match parse_number(parts[2].as_slice()) {
            Some(v) => v,
            None => return None,
        };
        Some(Version { major, minor, patch })
    }

    /// -1, 0 or 1 as this version is before, equal to or after `other`.
    pub fn compare(&self, other: &Version) -> (r: i32)
        ensures
            r == compare_spec(*self, *other),
    {
        if self.major != other.major {
            if self.major < other.major { -1 } else { 1 }
        } else if self.minor != other.minor {
            if self.minor < other.minor { -1 } else { 1 }
        } else if self.patch != other.patch {
            if self.patch < other.patch { -1 } else { 1 }
        } else {
            0
        }
    }

    /// Whether `latest` comes after this version.
    pub fn has_update(&self, latest: &Version) -> (r: bool)
        ensures
            r == (compare_spec(*latest, *self) == 1),
    {
        latest.compare(self) == 1
    }
}

/// Version comparison on version strings.
#[derive(Debug, Clone, Copy, Default)]
pub struct UpdaterAdapter;

impl UpdaterAdapter {
    pub fn new() -> (r: UpdaterAdapter) {
        UpdaterAdapter
    }

    /// The version a string names, if it names one.
    pub fn parse_version(&self, s: &str) -> (r: Option<Version>)
        ensures
            r == parse_spec(s@),
    {
        Version::parse(s)
    }

    /// -1, 0 or 1 as `v1` is before, equal to or after `v2`; `None` if either is not a version.
    pub fn compare_versions(&self, v1: &str, v2: &str) -> (r: Option<i32>)
        ensures
            r == (match (parse_spec(v1@), parse_spec(v2@)) {
                (Some(a), Some(b)) => Some(compare_spec(a, b)),
                _ => None,
            }),
    {
        let a = match Version::parse(v1) {
            Some(a) => a,
            None => return None,
        };
        let b = match Version::parse(v2) {
            Some(b) => b,
            None => return None,
        };
        Some(a.compare(&b))
    }

    /// Whether `latest` comes after `current`; `None` if either is not a version.
    pub fn has_update(&self, current: &str, latest: &str) -> (r: Option<bool>)
        ensures
            r == (match (parse_spec(current@), parse_spec(latest@)) {
                (Some(c), Some(l)) => Some(compare_spec(l, c) == 1),
                _ => None,
            }),
    {
        let c = match Version::parse(current) {
            Some(c) => c,
            None => return None,
        };
        let l = match Version::parse(latest) {
            Some(l) => l,
            None => return None,
        };
        Some(c.has_update(&l))
    }
}

/// Comparison is an order: swapping the versions flips the result, a version equals itself
/// and only itself, and "before" is transitive.
pub proof fn lemma_compare_is_order(a: Version, b: Version, c: Version)
    ensures
        compare_spec(a, b) == -compare_spec(b, a),
        (compare_spec(a, b) == 0) <==> a == b,
        compare_spec(a, b) == -1 && compare_spec(b, c) == -1 ==> compare_spec(a, c) == -1,
{
}

/// An update is available exactly when the current version comes before the latest one.
pub proof fn lemma_update_iff_before(current: Version, latest: Version)
    ensures
        (compare_spec(latest, current) == 1) <==> (compare_spec(current, latest) == -1),
{
}

} // verus!
