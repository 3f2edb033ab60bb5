//! Text values: character sequences and conversions between `&str`, `String` and `Vec<char>`.

use vstd::prelude::*;

verus! {

/// `String::push`: appends one character.
#[verifier::external_body]
pub(crate) fn string_push(s: &mut String, c: char)
    ensures
        final(s)@ == old(s)@.push(c),
{
    s.push(c);
}

/// `char::from_u32`: the character with a given scalar value, if that value is one.
#[verifier::external_body]
pub(crate) fn char_from_u32(v: u32) -> (r: Option<char>)
    ensures
        r == (if v <= 0xD7FF || (0xE000 <= v && v <= 0x10FFFF) { Some(v as char) } else { None::<char> }),
{
    char::from_u32(v)
}

/// The characters of a string slice.
pub fn str_chars(s: &str) -> (r: Vec<char>)
    ensures
        r@ == s@,
{
    let n = s.unicode_len();
    let mut r: Vec<char> = Vec::new();
    let mut i: usize = 0;
    while i < n
        invariant
            n == s@.len(),
            i <= n,
            r@ == s@.subrange(0, i as int),
        decreases n - i,
    {
        let c = s.get_char(i);
        r.push(c);
        i = i + 1;
        assert(r@ =~= s@.subrange(0, i as int));
    }
    assert(r@ =~= s@);
    r
}

/// The characters of `v` from `from` up to `to`.
pub fn slice_chars(v: &[char], from: usize, to: usize) -> (r: Vec<char>)
    requires
        from <= to <= v@.len(),
    ensures
        r@ == v@.subrange(from as int, to as int),
{
    let mut r: Vec<char> = Vec::new();
    let mut i: usize = from;
    while i < to
        invariant
            from <= i <= to <= v@.len(),
            r@ == v@.subrange(from as int, i as int),
        decreases to - i,
    {
        r.push(v[i]);
        i = i + 1;
        assert(r@ =~= v@.subrange(from as int, i as int));
    }
    r
}

/// A string made of the given characters.
pub fn string_of(v: &[char]) -> (r: String)
    ensures
        r@ == v@,
{
    let mut r = String::new();
    let mut i: usize = 0;
    while i < v.len()
        invariant
            i <= v@.len(),
            r@ == v@.subrange(0, i as int),
        decreases v@.len() - i,
    {
        string_push(&mut r, v[i]);
        i = i + 1;
        assert(r@ =~= v@.subrange(0, i as int));
    }
    assert(r@ =~= v@);
    r
}

/// Whether two strings hold the same characters.
pub fn str_eq(a: &str, b: &str) -> (r: bool)
    ensures
        r == (a@ == b@),
{
    let n = a.unicode_len();
    let m = b.unicode_len();
    if n != m {
        return false;
    }
    let mut i: usize = 0;
    while i < n
        invariant
            n == a@.len(),
            m == b@.len(),
            n == m,
            i <= n,
            forall|j: int| 0 <= j < i ==> a@[j] == b@[j],
        decreases n - i,
    {
        if a.get_char(i) != b.get_char(i) {
            return false;
        }
        i = i + 1;
    }
    assert(a@ =~= b@);
    true
}

/// Concatenation of three strings.
pub fn concat3(a: &str, b: &str, c: &str) -> (r: String)
    ensures
        r@ == a@ + b@ + c@,
{
    let mut r = a.to_owned();
    r.append(b);
    r.append(c);
    r
}

/// An immutable sequence of characters.
#[derive(Debug)]
pub struct CharSequence {
    text: String,
}

impl View for CharSequence {
    type V = Seq<char>;

    closed spec fn view(&self) -> Seq<char> {
        self.text@
    }
}

impl CharSequence {
    /// The sequence holding the characters of `s`.
    pub fn from(s: &str) -> (r: CharSequence)
        ensures
            r@ == s@,
    {
        CharSequence { text: s.to_owned() }
    }

    /// The sequence holding the characters of `s`.
    pub fn from_string(s: String) -> (r: CharSequence)
        ensures
            r@ == s@,
    {
        CharSequence { text: s }
    }

    /// The sequence holding the given characters.
    pub fn from_chars(v: &[char]) -> (r: CharSequence)
        ensures
            r@ == v@,
    {
        CharSequence { text: string_of(v) }
    }

    /// The empty sequence.
    pub fn empty() -> (r: CharSequence)
        ensures
            r@ == Seq::<char>::empty(),
    {
        CharSequence { text: String::new() }
    }

    pub fn as_str(&self) -> (r: &str)
        ensures
            r@ == self@,
    {
        self.text.as_str()
    }

    /// Number of characters.
    pub fn len(&self) -> (r: usize)
        ensures
            r == self@.len(),
    {
        self.text.as_str().unicode_len()
    }

    pub fn is_empty(&self) -> (r: bool)
        ensures
            r == (self@.len() == 0),
    {
        self.len() == 0
    }

    /// The characters, in order.
    pub fn chars(&self) -> (r: Vec<char>)
        ensures
            r@ == self@,
    {
        str_chars(self.text.as_str())
    }

    pub fn copy(&self) -> (r: CharSequence)
        ensures
            r@ == self@,
    {
        CharSequence { text: self.text.clone() }
    }
}

impl Clone for CharSequence {
    fn clone(&self) -> (r: CharSequence)
        ensures
            r@ == self@,
    {
        self.copy()
    }
}

}
