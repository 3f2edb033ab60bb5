//! An in-memory text buffer for a typing session, bounded in size.

use vstd::prelude::*;
use crate::text::{str_chars, CharSequence};

verus! {

/// Most characters an input buffer holds.
pub const INPUT_CAPACITY: usize = 256;

/// The characters typed in the current session, at most `INPUT_CAPACITY`.
#[derive(Debug)]
pub struct InputBuffer {
    chars: Vec<char>,
}

impl View for InputBuffer {
    type V = Seq<char>;

    closed spec fn view(&self) -> Seq<char> {
        self.chars@
    }
}

/// The first `INPUT_CAPACITY` characters of `s`.
pub open spec fn capped(s: Seq<char>) -> Seq<char> {
    if s.len() <= INPUT_CAPACITY { s } else { s.take(INPUT_CAPACITY as int) }
}

impl InputBuffer {
    /// The buffer holds at most `INPUT_CAPACITY` characters.
    pub open spec fn wf(&self) -> bool {
        self@.len() <= INPUT_CAPACITY
    }

    pub fn new() -> (r: InputBuffer)
        ensures
            r.wf(),
            r@ == Seq::<char>::empty(),
    {
        InputBuffer { chars: Vec::new() }
    }

    pub fn len(&self) -> (r: usize)
        ensures
            r == self@.len(),
    {
        self.chars.len()
    }

    pub fn is_empty(&self) -> (r: bool)
        ensures
            r == (self@.len() == 0),
    {
        self.chars.len() == 0
    }

    /// Appends one character; false when the buffer is full.
    pub fn append(&mut self, c: char) -> (r: bool)
        requires
            old(self).wf(),
        ensures
            final(self).wf(),
            r == (old(self)@.len() < INPUT_CAPACITY),
            final(self)@ == (if r { old(self)@.push(c) } else { old(self)@ }),
    {
        if self.chars.len() < INPUT_CAPACITY {
            self.chars.push(c);
            true
        } else {
            false
        }
    }

    /// Appends the characters of `s` while there is room; returns how many were appended.
    pub fn append_str(&mut self, s: &str) -> (r: usize)
        requires
            old(self).wf(),
        ensures
            final(self).wf(),
            final(self)@ == capped(old(self)@ + s@),
            r == final(self)@.len() - old(self)@.len(),
    {
        let v = str_chars(s);
        let mut i: usize = 0;
        let start_len = self.chars.len();
        let ghost start = self@;
        while i < v.len() && self.chars.len() < INPUT_CAPACITY
            invariant
                v@ == s@,
                i <= v@.len(),
                start.len() <= INPUT_CAPACITY,
                start_len == start.len(),
                self.chars@.len() <= INPUT_CAPACITY,
                self.chars@ == start + s@.take(i as int),
            decreases v@.len() - i,
        {
            self.chars.push(v[i]);
            i = i + 1;
            assert(self.chars@ =~= start + s@.take(i as int));
        }
        proof {
            if i < v@.len() {
                assert(self.chars@ =~= (start + s@).take(INPUT_CAPACITY as int));
            } else {
                assert(s@.take(i as int) =~= s@);
            }
        }
        self.chars.len() - start_len
    }

    /// Removes up to `n` characters from the end; returns how many were removed.
    pub fn delete_last_n(&mut self, n: usize) -> (r: usize)
        requires
            old(self).wf(),
        ensures
            final(self).wf(),
            r == (if n < old(self)@.len() { n as int } else { old(self)@.len() as int }),
            final(self)@ == old(self)@.take(old(self)@.len() - r),
    {
        let len = self.chars.len();
        let k = if n < len { n } else { len };
        self.chars.truncate(len - k);
        k
    }

    /// Replaces the content with (the first `INPUT_CAPACITY` characters of) `s`.
    pub fn replace(&mut self, s: &str)
        ensures
            final(self).wf(),
            final(self)@ == capped(s@),
    {
        self.chars = Vec::new();
        self.append_str(s);
        assert(Seq::<char>::empty() + s@ =~= s@);
    }

    pub fn clear(&mut self)
        ensures
            final(self)@ == Seq::<char>::empty(),
    {
        self.chars = Vec::new();
    }

    /// The content as a character sequence.
    pub fn content(&self) -> (r: CharSequence)
        ensures
            r@ == self@,
    {
        CharSequence::from_chars(self.chars.as_slice())
    }
}

/// Deleting as many characters as were just appended gives back the earlier content,
/// whenever the appended text fitted: `append(t)` then `delete(len(t))` changes nothing.
pub proof fn lemma_delete_undoes_append(before: Seq<char>, t: Seq<char>)
    requires
        before.len() + t.len() <= INPUT_CAPACITY,
    ensures
        capped(before + t).len() == before.len() + t.len(),
        capped(before + t).take(capped(before + t).len() - t.len()) == before,
{
    assert((before + t).take(before.len() as int) =~= before);
}

/// Buffer manager keeping the session text in memory.
#[derive(Debug)]
pub struct MemoryBufferAdapter {
    buffer: InputBuffer,
}

impl View for MemoryBufferAdapter {
    type V = Seq<char>;

    closed spec fn view(&self) -> Seq<char> {
        self.buffer@
    }
}

impl MemoryBufferAdapter {
    /// The buffer holds at most `INPUT_CAPACITY` characters.
    pub open spec fn wf(&self) -> bool {
        self@.len() <= INPUT_CAPACITY
    }

    pub fn new() -> (r: MemoryBufferAdapter)
        ensures
            r.wf(),
            r@ == Seq::<char>::empty(),
    {
        MemoryBufferAdapter { buffer: InputBuffer::new() }
    }

    pub fn current(&self) -> (r: &InputBuffer)
        ensures
            r@ == self@,
    {
        &self.buffer
    }

    /// Mutable access to the buffer; the adapter holds whatever the buffer holds afterwards.
    pub fn current_mut(&mut self) -> (r: &mut InputBuffer)
        ensures
            r@ == old(self)@,
            final(self)@ == final(r)@,
    {
        &mut self.buffer
    }

    /// Appends `text`; true when all of it fitted (what fits is appended either way).
    pub fn append(&mut self, text: &str) -> (r: bool)
        requires
            old(self).wf(),
        ensures
            final(self).wf(),
            final(self)@ == capped(old(self)@ + text@),
            r == (old(self)@.len() + text@.len() <= INPUT_CAPACITY),
    {
        let appended = self.buffer.append_str(text);
        let n = text.unicode_len();
        appended == n
    }

    /// Deletes up to `count` characters from the end; returns how many were deleted.
    pub fn delete(&mut self, count: usize) -> (r: usize)
        requires
            old(self).wf(),
        ensures
            final(self).wf(),
            r == (if count < old(self)@.len() { count as int } else { old(self)@.len() as int }),
            final(self)@ == old(self)@.take(old(self)@.len() - r),
    {
        self.buffer.delete_last_n(count)
    }

    pub fn replace(&mut self, new_content: &str)
        ensures
            final(self).wf(),
            final(self)@ == capped(new_content@),
    {
        self.buffer.replace(new_content);
    }

    pub fn clear(&mut self)
        ensures
            final(self)@ == Seq::<char>::empty(),
    {
        self.buffer.clear();
    }

    pub fn is_empty(&self) -> (r: bool)
        ensures
            r == (self@.len() == 0),
    {
        self.buffer.is_empty()
    }

    pub fn len(&self) -> (r: usize)
        ensures
            r == self@.len(),
    {
        self.buffer.len()
    }

    /// A copy of the current content.
    pub fn snapshot(&self) -> (r: CharSequence)
        ensures
            r@ == self@,
    {
        self.buffer.content()
    }
}

impl Default for MemoryBufferAdapter {
    fn default() -> (r: MemoryBufferAdapter)
        ensures
            r@ == Seq::<char>::empty(),
    {
        MemoryBufferAdapter::new()
    }
}

}
