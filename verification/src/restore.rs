//! Restoring a word to the keys that were typed: used when an English word was
//! transformed by mistake (auto-restore) and for the ESC key.

use vstd::prelude::*;
use crate::buffer::{Buffer, Char, ImeResult, RawInputBuffer, ACTION_NONE, ACTION_SEND, RESULT_MAX};
use crate::keys;

verus! {

/// The characters typed by a keystroke sequence (keys that type nothing are skipped).
pub open spec fn typed(s: Seq<(u16, bool)>) -> Seq<char>
    decreases s.len(),
{
    if s.len() == 0 {
        Seq::empty()
    } else {
        typed(s.drop_last()) + match keys::key_char_spec(s.last().0, s.last().1) {
            Some(c) => seq![c],
            None => Seq::<char>::empty(),
        }
    }
}

/// Whether any character in the word carries a Vietnamese transform.
pub open spec fn any_transform(s: Seq<Char>) -> bool {
    exists|i: int| 0 <= i < s.len() && #[trigger] s[i].transformed()
}

/// Index of the first transformed character, or the length when there is none.
pub open spec fn first_transform(s: Seq<Char>) -> int
    decreases s.len(),
{
    if s.len() == 0 {
        0
    } else if s[0].transformed() {
        0
    } else {
        1 + first_transform(s.drop_first())
    }
}

/// Smallest of three integers.
pub open spec fn min3(a: int, b: int, c: int) -> int {
    let m = if a < b { a } else { b };
    if m < c { m } else { c }
}

/// The characters typed by the keystrokes from `from` on.
fn typed_range(raw: &RawInputBuffer, from: usize) -> (out: Vec<char>)
    requires
        from <= raw@.len(),
    ensures
        out@ == typed(raw@.subrange(from as int, raw@.len() as int)),
{
    let len = raw.len();
    let mut out: Vec<char> = Vec::new();
    let mut i: usize = from;
    while i < len
        invariant
            len == raw@.len(),
            from <= i <= len,
            out@ == typed(raw@.subrange(from as int, i as int)),
        decreases len - i,
    {
        let (key, caps) = raw.get(i);
        let ghost before = raw@.subrange(from as int, i as int);
        assert(raw@.subrange(from as int, i + 1).drop_last() =~= before);
        match keys::key_to_char(key, caps) {
            Some(ch) => {
                out.push(ch);
            },
            None => {},
        }
        i = i + 1;
        assert(out@ =~= typed(raw@.subrange(from as int, i as int)));
    }
    out
}

/// The characters typed by the whole keystroke history.
pub fn build_raw_output(raw_input: &RawInputBuffer) -> (out: Vec<char>)
    ensures
        out@ == typed(raw_input@),
{
    let out = typed_range(raw_input, 0);
    assert(raw_input@.subrange(0, raw_input@.len() as int) =~= raw_input@);
    out
}

/// The characters typed by the keystrokes from position `from_pos` on (empty past the end).
pub fn build_raw_output_from(raw_input: &RawInputBuffer, from_pos: usize) -> (out: Vec<char>)
    ensures
        out@ == (if from_pos < raw_input@.len() {
            typed(raw_input@.subrange(from_pos as int, raw_input@.len() as int))
        } else {
            Seq::<char>::empty()
        }),
{
    if from_pos >= raw_input.len() {
        return Vec::new();
    }
    typed_range(raw_input, from_pos)
}

/// Position of the first character with a tone modifier, tone mark or stroke; the length
/// of the buffer when there is none.
pub fn find_first_transform_position(buf: &Buffer) -> (r: usize)
    ensures
        r == first_transform(buf@),
        r <= buf@.len(),
        forall|j: int| 0 <= j < r ==> !(#[trigger] buf@[j]).transformed(),
        r < buf@.len() ==> buf@[r as int].transformed(),
{
    let n = buf.len();
    let mut i: usize = 0;
    assert(buf@.skip(0) =~= buf@);
    while i < n
        invariant
            n == buf@.len(),
            i <= n,
            forall|j: int| 0 <= j < i ==> !(#[trigger] buf@[j]).transformed(),
            first_transform(buf@) == i + first_transform(buf@.skip(i as int)),
        decreases n - i,
    {
        let c = buf.get(i).unwrap();
        if c.has_transform() {
            return i;
        }
        assert(buf@.skip(i as int).drop_first() =~= buf@.skip(i + 1));
        i = i + 1;
    }
    i
}

/// Whether any character in the buffer has a tone modifier, a tone mark or a stroke.
pub fn has_vietnamese_transforms(buf: &Buffer) -> (r: bool)
    ensures
        r == any_transform(buf@),
{
    let p = find_first_transform_position(buf);
    p < buf.len()
}

fn clamp_u8(x: usize) -> (r: u8)
    ensures
        r as int == (if x < 255 { x as int } else { 255 }),
{
    if x < 255 { x as u8 } else { 255 }
}

/// Restores an English word when space is pressed: deletes the displayed word and types
/// the raw keys followed by a space. Nothing happens when either history is empty or the
/// keys type no characters.
pub fn auto_restore_english(buf: &Buffer, raw_input: &RawInputBuffer) -> (r: ImeResult)
    ensures
        (raw_input@.len() == 0 || buf@.len() == 0 || typed(raw_input@).len() == 0) ==> r.action == ACTION_NONE && r.count == 0 && r.backspace == 0 && r.chars@.len() == 0,
        !(raw_input@.len() == 0 || buf@.len() == 0 || typed(raw_input@).len() == 0) ==> {
            &&& r.action == ACTION_SEND
            &&& r.count as int == r.chars@.len()
            &&& r.backspace as int == (if buf@.len() < 255 { buf@.len() as int } else { 255 })
            &&& r.chars@ == typed(raw_input@).push(' ').take(
                if typed(raw_input@).len() + 1 < RESULT_MAX { typed(raw_input@).len() + 1int } else { RESULT_MAX as int })
        },
{
    if raw_input.is_empty() || buf.is_empty() {
        return ImeResult::none();
    }
    let mut raw_chars = build_raw_output(raw_input);
    if raw_chars.len() == 0 {
        return ImeResult::none();
    }
    raw_chars.push(' ');
    let backspace = clamp_u8(buf.len());
    ImeResult::send(backspace, raw_chars.as_slice())
}

/// Restore of a transformed word to its raw keys, deleting no more characters than were
/// typed. Nothing happens without a transform, with an empty history, or when the keys
/// type no characters.
fn restore_transformed(buf: &Buffer, raw_input: &RawInputBuffer) -> (r: ImeResult)
    ensures
        (raw_input@.len() == 0 || buf@.len() == 0 || !any_transform(buf@) || typed(raw_input@).len() == 0)
            ==> r.action == ACTION_NONE && r.count == 0 && r.backspace == 0 && r.chars@.len() == 0,
        !(raw_input@.len() == 0 || buf@.len() == 0 || !any_transform(buf@) || typed(raw_input@).len() == 0) ==> {
            &&& r.action == ACTION_SEND
            &&& r.count as int == r.chars@.len()
            &&& r.backspace as int == min3(buf@.len() as int, raw_input@.len() as int, 255)
            &&& r.chars@ == typed(raw_input@).take(
                if typed(raw_input@).len() < RESULT_MAX { typed(raw_input@).len() as int } else { RESULT_MAX as int })
        },
{
    if raw_input.is_empty() || buf.is_empty() {
        return ImeResult::none();
    }
    if !has_vietnamese_transforms(buf) {
        return ImeResult::none();
    }
    let raw_chars = build_raw_output(raw_input);
    if raw_chars.len() == 0 {
        return ImeResult::none();
    }
    let n = if buf.len() < raw_input.len() { buf.len() } else { raw_input.len() };
    let backspace = clamp_u8(n);
    ImeResult::send(backspace, raw_chars.as_slice())
}

/// Restores the whole word to its raw keys as soon as English is detected while typing
/// (no trailing space). Earlier untransformed characters are retyped too.
pub fn instant_restore_english(buf: &Buffer, raw_input: &RawInputBuffer) -> (r: ImeResult)
    ensures
        (raw_input@.len() == 0 || buf@.len() == 0 || !any_transform(buf@) || typed(raw_input@).len() == 0)
            ==> r.action == ACTION_NONE && r.count == 0 && r.backspace == 0 && r.chars@.len() == 0,
        !(raw_input@.len() == 0 || buf@.len() == 0 || !any_transform(buf@) || typed(raw_input@).len() == 0) ==> {
            &&& r.action == ACTION_SEND
            &&& r.count as int == r.chars@.len()
            &&& r.backspace as int == min3(buf@.len() as int, raw_input@.len() as int, 255)
            &&& r.chars@ == typed(raw_input@).take(
                if typed(raw_input@).len() < RESULT_MAX { typed(raw_input@).len() as int } else { RESULT_MAX as int })
        },
{
    restore_transformed(buf, raw_input)
}

/// ESC: replaces the transformed word with the keys that were typed; nothing happens when
/// no transform was applied.
pub fn restore_to_raw(buf: &Buffer, raw_input: &RawInputBuffer) -> (r: ImeResult)
    ensures
        (raw_input@.len() == 0 || buf@.len() == 0 || !any_transform(buf@) || typed(raw_input@).len() == 0)
            ==> r.action == ACTION_NONE && r.count == 0 && r.backspace == 0 && r.chars@.len() == 0,
        !(raw_input@.len() == 0 || buf@.len() == 0 || !any_transform(buf@) || typed(raw_input@).len() == 0) ==> {
            &&& r.action == ACTION_SEND
            &&& r.count as int == r.chars@.len()
            &&& r.backspace as int == min3(buf@.len() as int, raw_input@.len() as int, 255)
            &&& r.chars@ == typed(raw_input@).take(
                if typed(raw_input@).len() < RESULT_MAX { typed(raw_input@).len() as int } else { RESULT_MAX as int })
        },
{
    restore_transformed(buf, raw_input)
}

}
