//! Virtual key codes (macOS layout) and their ASCII characters.

use vstd::prelude::*;

verus! {

pub const A: u16 = 0;
pub const S: u16 = 1;
pub const D: u16 = 2;
pub const F: u16 = 3;
pub const H: u16 = 4;
pub const G: u16 = 5;
pub const Z: u16 = 6;
pub const X: u16 = 7;
pub const C: u16 = 8;
pub const V: u16 = 9;
pub const B: u16 = 11;
pub const Q: u16 = 12;
pub const W: u16 = 13;
pub const E: u16 = 14;
pub const R: u16 = 15;
pub const Y: u16 = 16;
pub const T: u16 = 17;
pub const N1: u16 = 18;
pub const N2: u16 = 19;
pub const N3: u16 = 20;
pub const N4: u16 = 21;
pub const N6: u16 = 22;
pub const N5: u16 = 23;
pub const N9: u16 = 25;
pub const N7: u16 = 26;
pub const N8: u16 = 28;
pub const N0: u16 = 29;
pub const O: u16 = 31;
pub const U: u16 = 32;
pub const I: u16 = 34;
pub const P: u16 = 35;
pub const RETURN: u16 = 36;
pub const L: u16 = 37;
pub const J: u16 = 38;
pub const K: u16 = 40;
pub const SEMICOLON: u16 = 41;
pub const N: u16 = 45;
pub const M: u16 = 46;
pub const TAB: u16 = 48;
pub const SPACE: u16 = 49;
pub const DELETE: u16 = 51;
pub const ESC: u16 = 53;

/// The lowercase letter a key types, if it is a letter key.
pub open spec fn letter_of(key: u16) -> Option<char> {
    if key == A { Some('a') }
    else if key == B { Some('b') }
    else if key == C { Some('c') }
    else if key == D { Some('d') }
    else if key == E { Some('e') }
    else if key == F { Some('f') }
    else if key == G { Some('g') }
    else if key == H { Some('h') }
    else if key == I { Some('i') }
    else if key == J { Some('j') }
    else if key == K { Some('k') }
    else if key == L { Some('l') }
    else if key == M { Some('m') }
    else if key == N { Some('n') }
    else if key == O { Some('o') }
    else if key == P { Some('p') }
    else if key == Q { Some('q') }
    else if key == R { Some('r') }
    else if key == S { Some('s') }
    else if key == T { Some('t') }
    else if key == U { Some('u') }
    else if key == V { Some('v') }
    else if key == W { Some('w') }
    else if key == X { Some('x') }
    else if key == Y { Some('y') }
    else if key == Z { Some('z') }
    else { None }
}

/// The digit a number key types, if it is a number key.
pub open spec fn digit_of(key: u16) -> Option<char> {
    if key == N0 { Some('0') }
    else if key == N1 { Some('1') }
    else if key == N2 { Some('2') }
    else if key == N3 { Some('3') }
    else if key == N4 { Some('4') }
    else if key == N5 { Some('5') }
    else if key == N6 { Some('6') }
    else if key == N7 { Some('7') }
    else if key == N8 { Some('8') }
    else if key == N9 { Some('9') }
    else { None }
}

/// Uppercase of an ASCII lowercase letter (other characters unchanged).
pub open spec fn upper_spec(c: char) -> char {
    if 'a' <= c <= 'z' { ((c as u8) - 32) as u8 as char } else { c }
}

/// Lowercase of an ASCII uppercase letter (other characters unchanged).
pub open spec fn lower_spec(c: char) -> char {
    if 'A' <= c <= 'Z' { ((c as u8) + 32) as u8 as char } else { c }
}

/// The character typed by `key`, uppercase when `caps` is set; digits ignore `caps`.
pub open spec fn key_char_spec(key: u16, caps: bool) -> Option<char> {
    match letter_of(key) {
        Some(c) => Some(if caps { upper_spec(c) } else { c }),
        None => digit_of(key),
    }
}

pub open spec fn is_vowel_key(key: u16) -> bool {
    key == A || key == E || key == I || key == O || key == U || key == Y
}

pub fn is_vowel(key: u16) -> (r: bool)
    ensures r == is_vowel_key(key),
{
    key == A || key == E || key == I || key == O || key == U || key == Y
}

pub fn to_upper(c: char) -> (r: char)
    ensures r == upper_spec(c),
{
    if 'a' <= c && c <= 'z' { ((c as u8) - 32) as char } else { c }
}

pub fn to_lower(c: char) -> (r: char)
    ensures r == lower_spec(c),
{
    if 'A' <= c && c <= 'Z' { ((c as u8) + 32) as char } else { c }
}

/// Lowercase letter typed by a letter key.
pub fn letter(key: u16) -> (r: Option<char>)
    ensures r == letter_of(key),
{
    if key == A { Some('a') }
    else if key == B { Some('b') }
    else if key == C { Some('c') }
    else if key == D { Some('d') }
    else if key == E { Some('e') }
    else if key == F { Some('f') }
    else if key == G { Some('g') }
    else if key == H { Some('h') }
    else if key == I { Some('i') }
    else if key == J { Some('j') }
    else if key == K { Some('k') }
    else if key == L { Some('l') }
    else if key == M { Some('m') }
    else if key == N { Some('n') }
    else if key == O { Some('o') }
    else if key == P { Some('p') }
    else if key == Q { Some('q') }
    else if key == R { Some('r') }
    else if key == S { Some('s') }
    else if key == T { Some('t') }
    else if key == U { Some('u') }
    else if key == V { Some('v') }
    else if key == W { Some('w') }
    else if key == X { Some('x') }
    else if key == Y { Some('y') }
    else if key == Z { Some('z') }
    else { None }
}

/// Digit typed by a number key.
pub fn digit(key: u16) -> (r: Option<char>)
    ensures r == digit_of(key),
{
    if key == N0 { Some('0') }
    else if key == N1 { Some('1') }
    else if key == N2 { Some('2') }
    else if key == N3 { Some('3') }
    else if key == N4 { Some('4') }
    else if key == N5 { Some('5') }
    else if key == N6 { Some('6') }
    else if key == N7 { Some('7') }
    else if key == N8 { Some('8') }
    else if key == N9 { Some('9') }
    else { None }
}

/// Character typed by a key: letters (uppercase with `caps`) and digits.
pub fn key_to_char(key: u16, caps: bool) -> (r: Option<char>)
    ensures r == key_char_spec(key, caps),
{
    match letter(key) {
        Some(c) => Some(if caps { to_upper(c) } else { c }),
        None => digit(key),
    }
}

/// Key of an ASCII letter (either case).
pub open spec fn key_of_letter(c: char) -> Option<u16> {
    let l = lower_spec(c);
    if l == 'a' { Some(A) } else if l == 'b' { Some(B) } else if l == 'c' { Some(C) }
    else if l == 'd' { Some(D) } else if l == 'e' { Some(E) } else if l == 'f' { Some(F) }
    else if l == 'g' { Some(G) } else if l == 'h' { Some(H) } else if l == 'i' { Some(I) }
    else if l == 'j' { Some(J) } else if l == 'k' { Some(K) } else if l == 'l' { Some(L) }
    else if l == 'm' { Some(M) } else if l == 'n' { Some(N) } else if l == 'o' { Some(O) }
    else if l == 'p' { Some(P) } else if l == 'q' { Some(Q) } else if l == 'r' { Some(R) }
    else if l == 's' { Some(S) } else if l == 't' { Some(T) } else if l == 'u' { Some(U) }
    else if l == 'v' { Some(V) } else if l == 'w' { Some(W) } else if l == 'x' { Some(X) }
    else if l == 'y' { Some(Y) } else if l == 'z' { Some(Z) } else { None }
}

pub fn letter_key(c: char) -> (r: Option<u16>)
    ensures r == key_of_letter(c),
{
    let l = to_lower(c);
    if l == 'a' { Some(A) } else if l == 'b' { Some(B) } else if l == 'c' { Some(C) }
    else if l == 'd' { Some(D) } else if l == 'e' { Some(E) } else if l == 'f' { Some(F) }
    else if l == 'g' { Some(G) } else if l == 'h' { Some(H) } else if l == 'i' { Some(I) }
    else if l == 'j' { Some(J) } else if l == 'k' { Some(K) } else if l == 'l' { Some(L) }
    else if l == 'm' { Some(M) } else if l == 'n' { Some(N) } else if l == 'o' { Some(O) }
    else if l == 'p' { Some(P) } else if l == 'q' { Some(Q) } else if l == 'r' { Some(R) }
    else if l == 's' { Some(S) } else if l == 't' { Some(T) } else if l == 'u' { Some(U) }
    else if l == 'v' { Some(V) } else if l == 'w' { Some(W) } else if l == 'x' { Some(X) }
    else if l == 'y' { Some(Y) } else if l == 'z' { Some(Z) } else { None }
}

/// Typing a letter key gives back that letter's key.
pub proof fn lemma_letter_roundtrip(key: u16, caps: bool)
    requires
        letter_of(key) is Some,
    ensures
        key_char_spec(key, caps) is Some,
        key_of_letter(key_char_spec(key, caps).unwrap()) == Some(key),
{
}


/// The key an ASCII byte stands for: letters of either case, digits, space, return (CR or
/// LF), tab, the semicolon, backspace (BS or DEL) and escape.
pub open spec fn ascii_key(b: u8) -> Option<u16> {
    if 97 <= b <= 122 || 65 <= b <= 90 { key_of_letter(b as char) }
    else if b == 48 { Some(N0) } else if b == 49 { Some(N1) }
    else if b == 50 { Some(N2) } else if b == 51 { Some(N3) }
    else if b == 52 { Some(N4) } else if b == 53 { Some(N5) }
    else if b == 54 { Some(N6) } else if b == 55 { Some(N7) }
    else if b == 56 { Some(N8) } else if b == 57 { Some(N9) }
    else if b == 32 { Some(SPACE) } else if b == 13 || b == 10 { Some(RETURN) }
    else if b == 9 { Some(TAB) } else if b == 59 { Some(SEMICOLON) }
    else if b == 8 || b == 127 { Some(DELETE) } else if b == 27 { Some(ESC) }
    else { None }
}

pub fn from_ascii(b: u8) -> (r: Option<u16>)
    ensures
        r == ascii_key(b),
{
    if (97 <= b && b <= 122) || (65 <= b && b <= 90) { letter_key(b as char) }
    else if b == 48 { Some(N0) } else if b == 49 { Some(N1) }
    else if b == 50 { Some(N2) } else if b == 51 { Some(N3) }
    else if b == 52 { Some(N4) } else if b == 53 { Some(N5) }
    else if b == 54 { Some(N6) } else if b == 55 { Some(N7) }
    else if b == 56 { Some(N8) } else if b == 57 { Some(N9) }
    else if b == 32 { Some(SPACE) } else if b == 13 || b == 10 { Some(RETURN) }
    else if b == 9 { Some(TAB) } else if b == 59 { Some(SEMICOLON) }
    else if b == 8 || b == 127 { Some(DELETE) } else if b == 27 { Some(ESC) }
    else { None }
}

}
