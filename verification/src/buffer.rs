//! Typing state: the composed characters of the current word, the raw keystrokes that
//! produced them, and the result handed back to the platform for a key press.

use vstd::prelude::*;
use crate::keys;

verus! {

/// Most characters a word buffer holds.
pub const MAX: usize = 64;

/// Most keystrokes the raw input history keeps.
pub const RAW_CAPACITY: usize = 64;

/// Most characters a result carries.
pub const RESULT_MAX: usize = 64;

/// One composed character: key, case, tone modifier, tone mark and đ stroke.
#[derive(Debug, Clone, Copy, PartialEq, Eq, Structural)]
pub struct Char {
    pub key: u16,
    pub caps: bool,
    pub tone: u8,
    pub mark: u8,
    pub stroke: bool,
}

impl Char {
    /// A plain character for `key`.
    pub fn new(key: u16, caps: bool) -> (r: Char)
        ensures
            r == (Char { key, caps, tone: 0, mark: 0, stroke: false }),
    {
        Char { key, caps, tone: 0, mark: 0, stroke: false }
    }

    /// Whether the character carries a tone modifier, a tone mark or a stroke.
    pub open spec fn transformed(self) -> bool {
        self.tone != 0 || self.mark != 0 || self.stroke
    }

    pub fn has_transform(&self) -> (r: bool)
        ensures
            r == self.transformed(),
    {
        self.tone != 0 || self.mark != 0 || self.stroke
    }
}

/// The composed characters of the word being typed (at most `MAX`).
#[derive(Debug, Clone)]
pub struct Buffer {
    data: Vec<Char>,
}

impl View for Buffer {
    type V = Seq<Char>;

    closed spec fn view(&self) -> Seq<Char> {
        self.data@
    }
}

impl Buffer {
    pub open spec fn wf(&self) -> bool {
        self@.len() <= MAX
    }

    pub fn new() -> (r: Buffer)
        ensures
            r@ == Seq::<Char>::empty(),
            r.wf(),
    {
        Buffer { data: Vec::new() }
    }

    pub fn len(&self) -> (r: usize)
        ensures
            r == self@.len(),
    {
        self.data.len()
    }

    pub fn is_empty(&self) -> (r: bool)
        ensures
            r == (self@.len() == 0),
    {
        self.data.len() == 0
    }

    /// Appends a character unless the buffer is full.
    pub fn push(&mut self, c: Char)
        requires
            old(self).wf(),
        ensures
            final(self).wf(),
            final(self)@ == (if old(self)@.len() < MAX { old(self)@.push(c) } else { old(self)@ }),
    {
        if self.data.len() < MAX {
            self.data.push(c);
        }
    }

    pub fn get(&self, i: usize) -> (r: Option<Char>)
        ensures
            r == (if i < self@.len() { Some(self@[i as int]) } else { None::<Char> }),
    {
        if i < self.data.len() {
            Some(self.data[i])
        } else {
            None
        }
    }

    /// Replaces the character at `i` (no change when `i` is out of range).
    pub fn set(&mut self, i: usize, c: Char)
        requires
            old(self).wf(),
        ensures
            final(self).wf(),
            final(self)@ == (if i < old(self)@.len() { old(self)@.update(i as int, c) } else { old(self)@ }),
    {
        if i < self.data.len() {
            self.data.set(i, c);
        }
    }

    /// Sets the tone mark of the character at `i`.
    pub fn set_mark(&mut self, i: usize, mark: u8)
        requires
            old(self).wf(),
        ensures
            final(self).wf(),
            final(self)@ == (if i < old(self)@.len() {
                old(self)@.update(i as int, Char { mark, ..old(self)@[i as int] })
            } else {
                old(self)@
            }),
    {
        if i < self.data.len() {
            let mut c = self.data[i];
            c.mark = mark;
            self.data.set(i, c);
        }
    }

    /// Sets the tone modifier of the character at `i`.
    pub fn set_tone(&mut self, i: usize, tone: u8)
        requires
            old(self).wf(),
        ensures
            final(self).wf(),
            final(self)@ == (if i < old(self)@.len() {
                old(self)@.update(i as int, Char { tone, ..old(self)@[i as int] })
            } else {
                old(self)@
            }),
    {
        if i < self.data.len() {
            let mut c = self.data[i];
            c.tone = tone;
            self.data.set(i, c);
        }
    }

    pub fn clear(&mut self)
        ensures
            final(self)@ == Seq::<Char>::empty(),
            final(self).wf(),
    {
        self.data = Vec::new();
    }

    /// A copy of the buffer.
    pub fn duplicate(&self) -> (r: Buffer)
        ensures
            r@ == self@,
    {
        let mut data: Vec<Char> = Vec::new();
        let mut i: usize = 0;
        while i < self.data.len()
            invariant
                i <= self.data@.len(),
                data@ == self.data@.take(i as int),
            decreases self.data@.len() - i,
        {
            data.push(self.data[i]);
            i = i + 1;
            assert(data@ =~= self.data@.take(i as int));
        }
        assert(data@ =~= self.data@);
        Buffer { data }
    }

    /// Removes the last character, if any.
    pub fn pop(&mut self) -> (r: Option<Char>)
        requires
            old(self).wf(),
        ensures
            final(self).wf(),
            old(self)@.len() == 0 ==> r is None && final(self)@ == old(self)@,
            old(self)@.len() > 0 ==> r == Some(old(self)@.last()) && final(self)@ == old(self)@.drop_last(),
    {
        self.data.pop()
    }
}

/// The raw keystrokes of the current word, oldest first; when more than `RAW_CAPACITY`
/// keys are pushed, the oldest are dropped.
#[derive(Debug, Clone)]
pub struct RawInputBuffer {
    data: Vec<(u16, bool)>,
}

impl View for RawInputBuffer {
    type V = Seq<(u16, bool)>;

    closed spec fn view(&self) -> Seq<(u16, bool)> {
        self.data@
    }
}

impl RawInputBuffer {
    pub open spec fn wf(&self) -> bool {
        self@.len() <= RAW_CAPACITY
    }

    pub fn new() -> (r: RawInputBuffer)
        ensures
            r@ == Seq::<(u16, bool)>::empty(),
            r.wf(),
    {
        RawInputBuffer { data: Vec::new() }
    }

    /// Records a keystroke, dropping the oldest when full.
    pub fn push(&mut self, key: u16, caps: bool)
        requires
            old(self).wf(),
        ensures
            final(self).wf(),
            final(self)@ == (if old(self)@.len() < RAW_CAPACITY {
                old(self)@.push((key, caps))
            } else {
                old(self)@.drop_first().push((key, caps))
            }),
    {
        if self.data.len() >= RAW_CAPACITY {
            self.data.remove(0);
        }
        self.data.push((key, caps));
    }

    pub fn len(&self) -> (r: usize)
        ensures
            r == self@.len(),
    {
        self.data.len()
    }

    pub fn is_empty(&self) -> (r: bool)
        ensures
            r == (self@.len() == 0),
    {
        self.data.len() == 0
    }

    pub fn get(&self, i: usize) -> (r: (u16, bool))
        requires
            i < self@.len(),
        ensures
            r == self@[i as int],
    {
        self.data[i]
    }

    pub fn clear(&mut self)
        ensures
            final(self)@ == Seq::<(u16, bool)>::empty(),
            final(self).wf(),
    {
        self.data = Vec::new();
    }

    /// A copy of the keystrokes.
    pub fn duplicate(&self) -> (r: RawInputBuffer)
        ensures
            r@ == self@,
    {
        let mut data: Vec<(u16, bool)> = Vec::new();
        let mut i: usize = 0;
        while i < self.data.len()
            invariant
                i <= self.data@.len(),
                data@ == self.data@.take(i as int),
            decreases self.data@.len() - i,
        {
            data.push(self.data[i]);
            i = i + 1;
            assert(data@ =~= self.data@.take(i as int));
        }
        assert(data@ =~= self.data@);
        RawInputBuffer { data }
    }

    /// Forgets the last keystroke, if any.
    pub fn pop(&mut self)
        requires
            old(self).wf(),
        ensures
            final(self).wf(),
            final(self)@ == (if old(self)@.len() > 0 { old(self)@.drop_last() } else { old(self)@ }),
    {
        self.data.pop();
    }
}

/// No action: the key passes through.
pub const ACTION_NONE: u8 = 0;
/// Send: delete `backspace` characters, then type `chars`.
pub const ACTION_SEND: u8 = 1;

/// What the platform should do for a key press.
#[derive(Debug, Clone)]
pub struct ImeResult {
    pub action: u8,
    pub backspace: u8,
    pub chars: Vec<char>,
    pub count: u8,
}

impl ImeResult {
    /// Nothing to do.
    pub fn none() -> (r: ImeResult)
        ensures
            r.action == ACTION_NONE,
            r.backspace == 0,
            r.count == 0,
            r.chars@ == Seq::<char>::empty(),
    {
        ImeResult { action: ACTION_NONE, backspace: 0, chars: Vec::new(), count: 0 }
    }

    /// Delete `backspace` characters and type `chars` (at most `RESULT_MAX` of them).
    pub fn send(backspace: u8, chars: &[char]) -> (r: ImeResult)
        ensures
            r.action == ACTION_SEND,
            r.backspace == backspace,
            r.chars@ == chars@.take(if chars@.len() < RESULT_MAX { chars@.len() as int } else { RESULT_MAX as int }),
            r.count as int == r.chars@.len(),
    {
        let n = if chars.len() < RESULT_MAX { chars.len() } else { RESULT_MAX };
        let mut out: Vec<char> = Vec::new();
        let mut i: usize = 0;
        while i < n
            invariant
                n <= chars@.len(),
                n <= RESULT_MAX,
                i <= n,
                out@ == chars@.take(i as int),
            decreases n - i,
        {
            out.push(chars[i]);
            i = i + 1;
            assert(out@ =~= chars@.take(i as int));
        }
        ImeResult { action: ACTION_SEND, backspace, chars: out, count: n as u8 }
    }
}

}
