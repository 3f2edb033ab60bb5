//! The shortcut list as JSON text: an array of objects with a trigger, a replacement and an
//! input method, written and read back.

use vstd::prelude::*;
use crate::shortcut::{InputMethod, Shortcut};
use crate::text::{str_chars, string_of, string_push};

verus! {

/// A shortcut as plain values: trigger, replacement, input method.
pub type Entry = (Seq<char>, Seq<char>, InputMethod);

/// The entry of a shortcut.
pub open spec fn entry_of(sc: Shortcut) -> Entry {
    (sc.trigger@, sc.replacement@, sc.input_method)
}

// ── Writing ──────────────────────────────────────────────────────────────────

/// A character inside a JSON string: quote, backslash, newline, carriage return and tab are
/// escaped.
pub open spec fn escape_char(c: char) -> Seq<char> {
    if c == '"' {
        seq!['\\', '"']
    } else if c == '\\' {
        seq!['\\', '\\']
    } else if c == '\n' {
        seq!['\\', 'n']
    } else if c == '\r' {
        seq!['\\', 'r']
    } else if c == '\t' {
        seq!['\\', 't']
    } else {
        seq![c]
    }
}

/// The characters of `s`, escaped.
pub open spec fn escaped(s: Seq<char>) -> Seq<char>
    decreases s.len(),
{
    if s.len() == 0 { Seq::empty() } else { escape_char(s[0]) + escaped(s.drop_first()) }
}

/// `s` as a JSON string.
pub open spec fn quoted(s: Seq<char>) -> Seq<char> {
    seq!['"'] + escaped(s) + seq!['"']
}

pub open spec fn trigger_key() -> Seq<char> {
    seq!['{', '"', 't', 'r', 'i', 'g', 'g', 'e', 'r', '"', ':']
}

pub open spec fn replacement_key() -> Seq<char> {
    seq![',', '"', 'r', 'e', 'p', 'l', 'a', 'c', 'e', 'm', 'e', 'n', 't', '"', ':']
}

pub open spec fn method_key() -> Seq<char> {
    seq![',', '"', 'i', 'n', 'p', 'u', 't', '_', 'm', 'e', 't', 'h', 'o', 'd', '"', ':']
}

pub open spec fn all_name() -> Seq<char> {
    seq!['"', 'a', 'l', 'l', '"']
}

pub open spec fn telex_name() -> Seq<char> {
    seq!['"', 't', 'e', 'l', 'e', 'x', '"']
}

pub open spec fn vni_name() -> Seq<char> {
    seq!['"', 'v', 'n', 'i', '"']
}

/// An input method as a JSON string.
pub open spec fn method_json(m: InputMethod) -> Seq<char> {
    match m {
        InputMethod::All => all_name(),
        InputMethod::Telex => telex_name(),
        InputMethod::Vni => vni_name(),
    }
}

/// An entry as a JSON object.
pub open spec fn entry_json(e: Entry) -> Seq<char> {
    trigger_key() + quoted(e.0) + replacement_key() + quoted(e.1) + method_key() + method_json(e.2) + seq!['}']
}

/// Entries as JSON objects separated by commas.
pub open spec fn entries_json(es: Seq<Entry>) -> Seq<char>
    decreases es.len(),
{
    if es.len() == 0 {
        Seq::empty()
    } else if es.len() == 1 {
        entry_json(es[0])
    } else {
        entry_json(es[0]) + seq![','] + entries_json(es.drop_first())
    }
}

/// Entries as a JSON array.
pub open spec fn doc_json(es: Seq<Entry>) -> Seq<char> {
    seq!['['] + entries_json(es) + seq![']']
}

// ── Reading ──────────────────────────────────────────────────────────────────

/// The character an escape stands for.
pub open spec fn unescape(c: char) -> Option<char> {
    if c == '"' {
        Some('"')
    } else if c == '\\' {
        Some('\\')
    } else if c == '/' {
        Some('/')
    } else if c == 'n' {
        Some('\n')
    } else if c == 'r' {
        Some('\r')
    } else if c == 't' {
        Some('\t')
    } else {
        None
    }
}

/// Reads the rest of a JSON string up to its closing quote: the characters read after `acc`
/// and what follows the quote.
pub open spec fn string_body(cs: Seq<char>, acc: Seq<char>) -> Option<(Seq<char>, Seq<char>)>
    decreases cs.len(),
{
    if cs.len() == 0 {
        None
    } else if cs[0] == '"' {
        Some((acc, cs.drop_first()))
    } else if cs[0] == '\\' {
        if cs.len() < 2 {
            None
        } else {
            match unescape(cs[1]) {
                Some(c) => string_body(cs.subrange(2, cs.len() as int), acc.push(c)),
                None => None,
            }
        }
    } else {
        string_body(cs.drop_first(), acc.push(cs[0]))
    }
}

/// Reads a JSON string.
pub open spec fn parse_string(cs: Seq<char>) -> Option<(Seq<char>, Seq<char>)> {
    if cs.len() > 0 && cs[0] == '"' { string_body(cs.drop_first(), Seq::empty()) } else { None }
}

/// What follows the literal `l` at the start of `cs`.
pub open spec fn after_lit(cs: Seq<char>, l: Seq<char>) -> Option<Seq<char>> {
    if cs.len() >= l.len() && cs.take(l.len() as int) == l { Some(cs.skip(l.len() as int)) } else { None }
}

/// Reads an input method name.
pub open spec fn parse_method(cs: Seq<char>) -> Option<(InputMethod, Seq<char>)> {
    if after_lit(cs, all_name()) is Some {
        Some((InputMethod::All, after_lit(cs, all_name()).unwrap()))
    } else if after_lit(cs, telex_name()) is Some {
        Some((InputMethod::Telex, after_lit(cs, telex_name()).unwrap()))
    } else if after_lit(cs, vni_name()) is Some {
        Some((InputMethod::Vni, after_lit(cs, vni_name()).unwrap()))
    } else {
        None
    }
}

/// Reads one entry object.
#[verifier::opaque]
pub open spec fn parse_entry(cs: Seq<char>) -> Option<(Entry, Seq<char>)> {
    match after_lit(cs, trigger_key()) {
        None => None,
        Some(a) => match parse_string(a) {
            None => None,
            Some((t, b)) => match after_lit(b, replacement_key()) {
                None => None,
                Some(c) => match parse_string(c) {
                    None => None,
                    Some((r, d)) => match after_lit(d, method_key()) {
                        None => None,
                        Some(e) => match parse_method(e) {
                            None => None,
                            Some((m, f)) => match after_lit(f, seq!['}']) {
                                None => None,
                                Some(g) => Some(((t, r, m), g)),
                            },
                        },
                    },
                },
            },
        },
    }
}

/// Reads entries separated by commas.
pub open spec fn parse_entries(cs: Seq<char>) -> Option<(Seq<Entry>, Seq<char>)>
    decreases cs.len(),
{
    match parse_entry(cs) {
        None => None,
        Some((e, rest)) => if rest.len() > 0 && rest[0] == ',' && rest.len() < cs.len() {
            match parse_entries(rest.drop_first()) {
                Some((es, r)) => Some((seq![e] + es, r)),
                None => None,
            }
        } else {
            Some((seq![e], rest))
        },
    }
}

/// Reads a JSON array of entries.
pub open spec fn parse_doc(cs: Seq<char>) -> Option<Seq<Entry>> {
    if cs.len() < 2 || cs[0] != '[' {
        None
    } else if cs == seq!['[', ']'] {
        Some(Seq::empty())
    } else {
        match parse_entries(cs.drop_first()) {
            Some((es, rest)) => if rest == seq![']'] { Some(es) } else { None },
            None => None,
        }
    }
}

// ── Reading back what was written ────────────────────────────────────────────

proof fn lemma_string_body(s: Seq<char>, acc: Seq<char>, rest: Seq<char>)
    ensures
        string_body(escaped(s) + seq!['"'] + rest, acc) == Some((acc + s, rest)),
    decreases s.len(),
{
    let cs = escaped(s) + seq!['"'] + rest;
    if s.len() == 0 {
        assert(cs =~= seq!['"'] + rest);
        assert(cs.drop_first() =~= rest);
        assert(acc + s =~= acc);
    } else {
        let c = s[0];
        let tail = s.drop_first();
        lemma_string_body(tail, acc.push(c), rest);
        assert(acc.push(c) + tail =~= acc + s);
        let inner = escaped(tail) + seq!['"'] + rest;
        assert(cs =~= escape_char(c) + inner);
        if c == '"' || c == '\\' || c == '\n' || c == '\r' || c == '\t' {
            assert(cs[0] == '\\');
            assert(cs.subrange(2, cs.len() as int) =~= inner);
        } else {
            assert(cs[0] == c);
            assert(cs.drop_first() =~= inner);
        }
    }
}

proof fn lemma_parse_string(s: Seq<char>, rest: Seq<char>)
    ensures
        parse_string(quoted(s) + rest) == Some((s, rest)),
{
    let cs = quoted(s) + rest;
    assert(cs.drop_first() =~= escaped(s) + seq!['"'] + rest);
    lemma_string_body(s, Seq::empty(), rest);
    assert(Seq::<char>::empty() + s =~= s);
}

proof fn lemma_after_lit(l: Seq<char>, rest: Seq<char>)
    ensures
        after_lit(l + rest, l) == Some(rest),
{
    assert((l + rest).take(l.len() as int) =~= l);
    assert((l + rest).skip(l.len() as int) =~= rest);
}

proof fn lemma_parse_method(m: InputMethod, rest: Seq<char>)
    ensures
        parse_method(method_json(m) + rest) == Some((m, rest)),
{
    let cs = method_json(m) + rest;
    lemma_after_lit(method_json(m), rest);
    match m {
        InputMethod::All => {},
        InputMethod::Telex => {
            assert(cs[1] == 't');
            assert(cs.take(5)[1] != all_name()[1]);
        },
        InputMethod::Vni => {
            assert(cs[1] == 'v');
            assert(cs.take(5)[1] != all_name()[1]);
            if cs.len() >= 7 {
                assert(cs.take(7)[1] != telex_name()[1]);
            }
        },
    }
}

proof fn lemma_parse_entry(e: Entry, rest: Seq<char>)
    ensures
        parse_entry(entry_json(e) + rest) == Some((e, rest)),
{
    let g = rest;
    let f = seq!['}'] + g;
    let ee = method_json(e.2) + f;
    let d = method_key() + ee;
    let c = quoted(e.1) + d;
    let b = replacement_key() + c;
    let a = quoted(e.0) + b;
    let cs = trigger_key() + a;
    assert(cs =~= entry_json(e) + rest);
    reveal(parse_entry);
    lemma_after_lit(trigger_key(), a);
    lemma_parse_string(e.0, b);
    lemma_after_lit(replacement_key(), c);
    lemma_parse_string(e.1, d);
    lemma_after_lit(method_key(), ee);
    lemma_parse_method(e.2, f);
    lemma_after_lit(seq!['}'], g);
}

proof fn lemma_entry_json_len(e: Entry)
    ensures
        entry_json(e).len() > 0,
{
}

proof fn lemma_parse_entries(es: Seq<Entry>, rest: Seq<char>)
    requires
        es.len() > 0,
        rest.len() == 0 || rest[0] != ',',
    ensures
        parse_entries(entries_json(es) + rest) == Some((es, rest)),
    decreases es.len(),
{
    let cs = entries_json(es) + rest;
    if es.len() == 1 {
        assert(cs =~= entry_json(es[0]) + rest);
        lemma_parse_entry(es[0], rest);
        assert(seq![es[0]] =~= es);
    } else {
        let tail = es.drop_first();
        let after = seq![','] + entries_json(tail) + rest;
        assert(cs =~= entry_json(es[0]) + after);
        lemma_parse_entry(es[0], after);
        lemma_entry_json_len(es[0]);
        assert(after.drop_first() =~= entries_json(tail) + rest);
        lemma_parse_entries(tail, rest);
        assert(seq![es[0]] + tail =~= es);
    }
}

/// Reading the JSON text of a list of entries gives back that list.
pub proof fn lemma_json_roundtrip(es: Seq<Entry>)
    ensures
        parse_doc(doc_json(es)) == Some(es),
{
    let cs = doc_json(es);
    if es.len() == 0 {
        assert(cs =~= seq!['[', ']']);
        assert(es =~= Seq::<Entry>::empty());
    } else {
        lemma_entries_json_nonempty(es);
        assert(cs.drop_first() =~= entries_json(es) + seq![']']);
        lemma_parse_entries(es, seq![']']);
        assert(cs != seq!['[', ']']);
    }
}

proof fn lemma_entries_json_nonempty(es: Seq<Entry>)
    requires
        es.len() > 0,
    ensures
        entries_json(es).len() > 0,
        entries_json(es)[0] == '{',
{
    if es.len() == 1 {
        assert(entry_json(es[0])[0] == '{');
    } else {
        assert((entry_json(es[0]) + seq![','] + entries_json(es.drop_first()))[0] == entry_json(es[0])[0]);
    }
}

// ── Writing, executable ──────────────────────────────────────────────────────

/// The entries of a list of shortcuts.
pub open spec fn entries_of(s: Seq<Shortcut>) -> Seq<Entry> {
    s.map_values(|sc: Shortcut| entry_of(sc))
}

proof fn lemma_escaped_append(a: Seq<char>, b: Seq<char>)
    ensures
        escaped(a + b) == escaped(a) + escaped(b),
    decreases a.len(),
{
    if a.len() == 0 {
        assert(a + b =~= b);
        assert(escaped(a) + escaped(b) =~= escaped(b));
    } else {
        lemma_escaped_append(a.drop_first(), b);
        assert((a + b).drop_first() =~= a.drop_first() + b);
        assert(escaped(a) + escaped(b) =~= escape_char(a[0]) + (escaped(a.drop_first()) + escaped(b)));
    }
}

proof fn lemma_entries_json_push(es: Seq<Entry>, e: Entry)
    ensures
        entries_json(es.push(e)) == entries_json(es) + (if es.len() > 0 { seq![','] } else { Seq::empty() }) + entry_json(e),
    decreases es.len(),
{
    if es.len() == 0 {
        assert(es.push(e) =~= seq![e]);
        assert(entries_json(seq![e]) == entry_json(e));
        assert(entries_json(es) + Seq::<char>::empty() + entry_json(e) =~= entry_json(e));
    } else if es.len() == 1 {
        let t = es.push(e);
        assert(t.drop_first() =~= seq![e]);
        assert(t[0] == es[0]);
        assert(entries_json(seq![e]) == entry_json(e));
        assert(entries_json(t) == entry_json(es[0]) + seq![','] + entries_json(t.drop_first()));
        assert(entries_json(es) == entry_json(es[0]));
        assert(entries_json(t) =~= entries_json(es) + seq![','] + entry_json(e));
    } else {
        lemma_entries_json_push(es.drop_first(), e);
        assert(es.push(e).drop_first() =~= es.drop_first().push(e));
        assert(es.push(e)[0] == es[0]);
        assert(entries_json(es.push(e)) =~= entries_json(es) + seq![','] + entry_json(e));
    }
}

fn push_chars(out: &mut String, cs: &[char])
    ensures
        final(out)@ == old(out)@ + cs@,
{
    let mut i: usize = 0;
    while i < cs.len()
        invariant
            i <= cs@.len(),
            out@ == old(out)@ + cs@.take(i as int),
        decreases cs@.len() - i,
    {
        string_push(out, cs[i]);
        i = i + 1;
        assert(out@ =~= old(out)@ + cs@.take(i as int));
    }
    assert(cs@.take(cs@.len() as int) =~= cs@);
}

fn push_escaped(out: &mut String, s: &str)
    ensures
        final(out)@ == old(out)@ + escaped(s@),
{
    let cs = crate::text::str_chars(s);
    let mut i: usize = 0;
    while i < cs.len()
        invariant
            cs@ == s@,
            i <= cs@.len(),
            out@ == old(out)@ + escaped(cs@.take(i as int)),
        decreases cs@.len() - i,
    {
        let c = cs[i];
        proof {
            lemma_escaped_append(cs@.take(i as int), seq![c]);
            assert(cs@.take(i + 1) =~= cs@.take(i as int) + seq![c]);
            assert(seq![c].drop_first() =~= Seq::<char>::empty());
            assert(escaped(Seq::<char>::empty()) == Seq::<char>::empty());
            assert(escaped(seq![c]) == escape_char(c) + escaped(seq![c].drop_first()));
            assert(escaped(seq![c]) =~= escape_char(c));
        }
        if c == '"' {
            push_chars(out, &['\\', '"']);
        } else if c == '\\' {
            push_chars(out, &['\\', '\\']);
        } else if c == '\n' {
            push_chars(out, &['\\', 'n']);
        } else if c == '\r' {
            push_chars(out, &['\\', 'r']);
        } else if c == '\t' {
            push_chars(out, &['\\', 't']);
        } else {
            string_push(out, c);
        }
        i = i + 1;
        assert(out@ =~= old(out)@ + escaped(cs@.take(i as int)));
    }
    assert(cs@.take(cs@.len() as int) =~= cs@);
}

fn push_quoted(out: &mut String, s: &str)
    ensures
        final(out)@ == old(out)@ + quoted(s@),
{
    string_push(out, '"');
    push_escaped(out, s);
    string_push(out, '"');
    assert(out@ =~= old(out)@ + quoted(s@));
}

fn push_entry(out: &mut String, sc: &Shortcut)
    ensures
        final(out)@ == old(out)@ + entry_json(entry_of(*sc)),
{
    let tk: [char; 11] = ['{', '"', 't', 'r', 'i', 'g', 'g', 'e', 'r', '"', ':'];
    let rk: [char; 15] = [',', '"', 'r', 'e', 'p', 'l', 'a', 'c', 'e', 'm', 'e', 'n', 't', '"', ':'];
    let mk: [char; 16] = [',', '"', 'i', 'n', 'p', 'u', 't', '_', 'm', 'e', 't', 'h', 'o', 'd', '"', ':'];
    assert(tk@ =~= trigger_key());
    assert(rk@ =~= replacement_key());
    assert(mk@ =~= method_key());
    push_chars(out, &tk);
    push_quoted(out, sc.trigger.as_str());
    push_chars(out, &rk);
    push_quoted(out, sc.replacement.as_str());
    push_chars(out, &mk);
    match sc.input_method {
        InputMethod::All => {
            let n: [char; 5] = ['"', 'a', 'l', 'l', '"'];
            assert(n@ =~= all_name());
            push_chars(out, &n);
        },
        InputMethod::Telex => {
            let n: [char; 7] = ['"', 't', 'e', 'l', 'e', 'x', '"'];
            assert(n@ =~= telex_name());
            push_chars(out, &n);
        },
        InputMethod::Vni => {
            let n: [char; 5] = ['"', 'v', 'n', 'i', '"'];
            assert(n@ =~= vni_name());
            push_chars(out, &n);
        },
    }
    string_push(out, '}');
    assert(out@ =~= old(out)@ + entry_json(entry_of(*sc)));
}

/// The JSON text of a list of shortcuts.
pub fn shortcuts_to_json(list: &[Shortcut]) -> (r: String)
    ensures
        r@ == doc_json(entries_of(list@)),
{
    let mut out = String::new();
    string_push(&mut out, '[');
    let mut i: usize = 0;
    while i < list.len()
        invariant
            i <= list@.len(),
            out@ == seq!['['] + entries_json(entries_of(list@.take(i as int))),
        decreases list@.len() - i,
    {
        proof {
            lemma_entries_json_push(entries_of(list@.take(i as int)), entry_of(list@[i as int]));
            assert(entries_of(list@.take(i + 1)) =~= entries_of(list@.take(i as int)).push(entry_of(list@[i as int])));
        }
        if i > 0 {
            string_push(&mut out, ',');
        }
        push_entry(&mut out, &list[i]);
        i = i + 1;
        assert(out@ =~= seq!['['] + entries_json(entries_of(list@.take(i as int))));
    }
    string_push(&mut out, ']');
    assert(list@.take(list@.len() as int) =~= list@);
    assert(out@ =~= doc_json(entries_of(list@)));
    out
}

// ── Reading, executable ──────────────────────────────────────────────────────

/// Whether the literal `l` stands at position `i`.
fn lit_at(cs: &[char], i: usize, l: &[char]) -> (r: bool)
    requires
        i <= cs@.len(),
    ensures
        r == (after_lit(cs@.skip(i as int), l@) is Some),
        r ==> after_lit(cs@.skip(i as int), l@).unwrap() == cs@.skip(i + l@.len()),
        r ==> i + l@.len() <= cs@.len(),
{
    let n = cs.len();
    let ghost rest = cs@.skip(i as int);
    if n - i < l.len() {
        return false;
    }
    let mut k: usize = 0;
    while k < l.len()
        invariant
            n == cs@.len(),
            i + l@.len() <= cs@.len(),
            rest == cs@.skip(i as int),
            k <= l@.len(),
            forall|j: int| 0 <= j < k ==> cs@[i + j] == l@[j],
        decreases l@.len() - k,
    {
        assert(i + k < cs@.len());
        let idx: usize = i + k;
        if cs[idx] != l[k] {
            assert(rest.take(l@.len() as int)[k as int] != l@[k as int]);
            return false;
        }
        k = k + 1;
    }
    assert(rest.take(l@.len() as int) =~= l@);
    assert(rest.skip(l@.len() as int) =~= cs@.skip(i + l@.len()));
    true
}

fn unescape_char(c: char) -> (r: Option<char>)
    ensures
        r == unescape(c),
{
    if c == '"' {
        Some('"')
    } else if c == '\\' {
        Some('\\')
    } else if c == '/' {
        Some('/')
    } else if c == 'n' {
        Some('\n')
    } else if c == 'r' {
        Some('\r')
    } else if c == 't' {
        Some('\t')
    } else {
        None
    }
}

/// Reads a JSON string at position `i`: its characters and the position after it.
fn string_at(cs: &[char], i: usize) -> (r: Option<(Vec<char>, usize)>)
    requires
        i <= cs@.len(),
    ensures
        r is Some <==> parse_string(cs@.skip(i as int)) is Some,
        r is Some ==> parse_string(cs@.skip(i as int)) == Some((r.unwrap().0@, cs@.skip(r.unwrap().1 as int)))
            && i < r.unwrap().1 <= cs@.len(),
{
    if i >= cs.len() || cs[i] != '"' {
        return None;
    }
    assert(cs@.skip(i as int)[0] == cs@[i as int]);
    assert(cs@.skip(i as int).drop_first() =~= cs@.skip(i + 1));
    let mut acc: Vec<char> = Vec::new();
    let mut j: usize = i + 1;
    assert(parse_string(cs@.skip(i as int)) == string_body(cs@.skip(j as int), acc@));
    while j < cs.len()
        invariant
            i < j <= cs@.len(),
            parse_string(cs@.skip(i as int)) == string_body(cs@.skip(j as int), acc@),
        decreases cs@.len() - j,
    {
        let c = cs[j];
        assert(cs@.skip(j as int)[0] == c);
        if c == '"' {
            assert(cs@.skip(j as int).drop_first() =~= cs@.skip(j + 1));
            return Some((acc, j + 1));
        } else if c == '\\' {
            if j + 1 >= cs.len() {
                return None;
            }
            assert(cs@.skip(j as int)[1] == cs@[j + 1]);
            match unescape_char(cs[j + 1]) {
                Some(u) => {
                    assert(cs@.skip(j as int).subrange(2, cs@.skip(j as int).len() as int) =~= cs@.skip(j + 2));
                    acc.push(u);
                    j = j + 2;
                },
                None => return None,
            }
        } else {
            assert(cs@.skip(j as int).drop_first() =~= cs@.skip(j + 1));
            acc.push(c);
            j = j + 1;
        }
    }
    assert(cs@.skip(j as int).len() == 0);
    None
}

/// Reads an input method name at position `i`.
fn method_at(cs: &[char], i: usize) -> (r: Option<(InputMethod, usize)>)
    requires
        i <= cs@.len(),
    ensures
        r is Some <==> parse_method(cs@.skip(i as int)) is Some,
        r is Some ==> parse_method(cs@.skip(i as int)) == Some((r.unwrap().0, cs@.skip(r.unwrap().1 as int)))
            && i < r.unwrap().1 <= cs@.len(),
{
    let n = cs.len();
    let all: [char; 5] = ['"', 'a', 'l', 'l', '"'];
    let telex: [char; 7] = ['"', 't', 'e', 'l', 'e', 'x', '"'];
    let vni: [char; 5] = ['"', 'v', 'n', 'i', '"'];
    assert(all@ =~= all_name());
    assert(telex@ =~= telex_name());
    assert(vni@ =~= vni_name());
    if lit_at(cs, i, &all) {
        Some((InputMethod::All, i + 5))
    } else if lit_at(cs, i, &telex) {
        Some((InputMethod::Telex, i + 7))
    } else if lit_at(cs, i, &vni) {
        Some((InputMethod::Vni, i + 5))
    } else {
        None
    }
}

/// Reads an entry object at position `i`.
fn entry_at(cs: &[char], i: usize) -> (r: Option<(Shortcut, usize)>)
    requires
        i <= cs@.len(),
    ensures
        r is Some <==> parse_entry(cs@.skip(i as int)) is Some,
        r is Some ==> parse_entry(cs@.skip(i as int)) == Some((entry_of(r.unwrap().0), cs@.skip(r.unwrap().1 as int)))
            && i < r.unwrap().1 <= cs@.len(),
{
    reveal(parse_entry);
    let n = cs.len();
    let tk: [char; 11] = ['{', '"', 't', 'r', 'i', 'g', 'g', 'e', 'r', '"', ':'];
    let rk: [char; 15] = [',', '"', 'r', 'e', 'p', 'l', 'a', 'c', 'e', 'm', 'e', 'n', 't', '"', ':'];
    let mk: [char; 16] = [',', '"', 'i', 'n', 'p', 'u', 't', '_', 'm', 'e', 't', 'h', 'o', 'd', '"', ':'];
    let close: [char; 1] = ['}'];
    assert(tk@ =~= trigger_key());
    assert(rk@ =~= replacement_key());
    assert(mk@ =~= method_key());
    assert(close@ =~= seq!['}']);
    if !lit_at(cs, i, &tk) {
        return None;
    }
    let (t, b) = match string_at(cs, i + 11) {
        Some(x) => x,
        None => return None,
    };
    if !lit_at(cs, b, &rk) {
        return None;
    }
    let (rv, d) = match string_at(cs, b + 15) {
        Some(x) => x,
        None => return None,
    };
    if !lit_at(cs, d, &mk) {
        return None;
    }
    let (m, f) = match method_at(cs, d + 16) {
        Some(x) => x,
        None => return None,
    };
    if !lit_at(cs, f, &close) {
        return None;
    }
    let sc = Shortcut { trigger: string_of(t.as_slice()), replacement: string_of(rv.as_slice()), input_method: m };
    Some((sc, f + 1))
}

/// `r` with `acc` put in front of the entries it read.
pub open spec fn prepend(acc: Seq<Entry>, r: Option<(Seq<Entry>, Seq<char>)>) -> Option<(Seq<Entry>, Seq<char>)> {
    match r {
        Some((es, rest)) => Some((acc + es, rest)),
        None => None,
    }
}

/// The shortcuts a JSON text lists, if it is a list of shortcut objects as written by
/// `shortcuts_to_json`.
pub fn parse_shortcuts(json: &str) -> (r: Option<Vec<Shortcut>>)
    ensures
        r is Some <==> parse_doc(json@) is Some,
        r is Some ==> entries_of(r.unwrap()@) == parse_doc(json@).unwrap(),
{
    let cs = str_chars(json);
    let n = cs.len();
    if n < 2 || cs[0] != '[' {
        return None;
    }
    if n == 2 && cs[1] == ']' {
        assert(cs@ =~= seq!['[', ']']);
        return Some(Vec::new());
    }
    assert(cs@ != seq!['[', ']']) by {
        if cs@ == seq!['[', ']'] {
            assert(cs@.len() == 2 && cs@[1] == ']');
        }
    }
    assert(cs@.drop_first() =~= cs@.skip(1));
    let mut out: Vec<Shortcut> = Vec::new();
    let mut i: usize = 1;
    loop
        invariant
            cs@ == json@,
            n == cs@.len(),
            n >= 2,
            cs@[0] == '[',
            cs@ != seq!['[', ']'],
            cs@.drop_first() == cs@.skip(1),
            1 <= i <= n,
            prepend(entries_of(out@), parse_entries(cs@.skip(i as int))) == parse_entries(cs@.skip(1)),
        decreases n - i,
    {
        match entry_at(cs.as_slice(), i) {
            None => return None,
            Some((sc, j)) => {
                let ghost e = entry_of(sc);
                let ghost before = entries_of(out@);
                out.push(sc);
                assert(entries_of(out@) =~= before + seq![e]);
                if j < n && cs[j] == ',' {
                    assert(cs@.skip(j as int)[0] == ',');
                    assert(cs@.skip(j as int).drop_first() =~= cs@.skip(j + 1));
                    proof {
                        let p = parse_entries(cs@.skip(j + 1));
                        if p is Some {
                            assert(before + (seq![e] + p.unwrap().0) =~= before + seq![e] + p.unwrap().0);
                        }
                    }
                    i = j + 1;
                } else {
                    assert(before + seq![e] =~= entries_of(out@));
                    if j == n - 1 && cs[j] == ']' {
                        assert(cs@.skip(j as int) =~= seq![']']);
                        return Some(out);
                    } else {
                        assert(cs@.skip(j as int) != seq![']']) by {
                            if cs@.skip(j as int) == seq![']'] {
                                assert(cs@.skip(j as int).len() == 1);
                                assert(cs@.skip(j as int)[0] == cs@[j as int]);
                            }
                        }
                        return None;
                    }
                }
            },
        }
    }
}

} // verus!
