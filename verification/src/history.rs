//! Linear undo/redo history of buffer contents with a capacity limit.

use vstd::prelude::*;
use crate::text::CharSequence;

verus! {

/// One recorded state of the buffer.
#[derive(Debug)]
pub struct HistoryEntry {
    pub content: CharSequence,
}

impl HistoryEntry {
    pub fn new(content: CharSequence) -> (r: HistoryEntry)
        ensures
            r.content@ == content@,
    {
        HistoryEntry { content }
    }
}

/// The contents after `record(c)` on a history holding `entries` with current position
/// `cur`: forward entries are dropped, `c` is appended, and the oldest entry is dropped
/// when the capacity is exceeded.
pub open spec fn recorded(entries: Seq<Seq<char>>, cur: int, cap: int, c: Seq<char>) -> Seq<Seq<char>> {
    if entries.len() == 0 {
        seq![c]
    } else {
        let kept = entries.take(cur + 1).push(c);
        if kept.len() > cap { kept.drop_first() } else { kept }
    }
}

/// Position after an undo in a history of `n` entries at position `p`.
pub open spec fn undo_pos(n: int, p: int) -> int {
    if p > 0 && n > 0 { p - 1 } else { p }
}

/// Position after a redo in a history of `n` entries at position `p`.
pub open spec fn redo_pos(n: int, p: int) -> int {
    if p + 1 < n { p + 1 } else { p }
}

/// Linear history: recording truncates the redo branch; when the capacity is reached the
/// oldest entries are dropped; the current position points at the active entry.
#[derive(Debug)]
pub struct SimpleHistoryAdapter {
    entries: Vec<HistoryEntry>,
    current: usize,
    capacity: usize,
}

impl SimpleHistoryAdapter {
    /// The recorded contents, oldest first.
    pub closed spec fn contents(&self) -> Seq<Seq<char>> {
        self.entries@.map_values(|e: HistoryEntry| e.content@)
    }

    /// The current position.
    pub closed spec fn pos(&self) -> int {
        self.current as int
    }

    /// The capacity.
    pub closed spec fn cap(&self) -> int {
        self.capacity as int
    }

    /// Capacity at least one, no more entries than the capacity, and the position inside
    /// the history (zero when it is empty).
    pub open spec fn wf(&self) -> bool {
        &&& self.cap() >= 1
        &&& self.contents().len() <= self.cap()
        &&& (self.contents().len() == 0 ==> self.pos() == 0)
        &&& (self.contents().len() > 0 ==> 0 <= self.pos() < self.contents().len())
    }

    /// An empty history holding at most `capacity` entries.
    pub fn new(capacity: usize) -> (r: SimpleHistoryAdapter)
        requires
            capacity >= 1,
        ensures
            r.wf(),
            r.contents() == Seq::<Seq<char>>::empty(),
            r.pos() == 0,
            r.cap() == capacity,
    {
        let r = SimpleHistoryAdapter { entries: Vec::new(), current: 0, capacity };
        assert(r.contents() =~= Seq::<Seq<char>>::empty());
        r
    }

    /// Records a new state and makes it current.
    pub fn record(&mut self, content: CharSequence)
        requires
            old(self).wf(),
        ensures
            final(self).wf(),
            final(self).cap() == old(self).cap(),
            final(self).contents() == recorded(old(self).contents(), old(self).pos(), old(self).cap(), content@),
            final(self).pos() == final(self).contents().len() - 1,
    {
        let ghost c = content@;
        let ghost old_contents = self.contents();
        if self.entries.len() == 0 {
            self.entries.push(HistoryEntry::new(content));
            self.current = 0;
            assert(self.contents() =~= seq![c]);
            return;
        }
        if self.current + 1 < self.entries.len() {
            self.entries.truncate(self.current + 1);
        }
        assert(self.contents() =~= old_contents.take(self.current + 1));
        self.entries.push(HistoryEntry::new(content));
        assert(self.contents() =~= old_contents.take(self.current + 1).push(c));
        if self.entries.len() > self.capacity {
            self.entries.remove(0);
            assert(self.contents() =~= old_contents.take(self.current + 1).push(c).drop_first());
            if self.current > 0 {
                self.current = self.current - 1;
            }
        }
        self.current = self.entries.len() - 1;
    }

    pub open spec fn can_undo_spec(&self) -> bool {
        self.pos() > 0 && self.contents().len() > 0
    }

    pub open spec fn can_redo_spec(&self) -> bool {
        self.pos() + 1 < self.contents().len()
    }

    /// Moves back one entry and returns its content; `None` at the first entry.
    pub fn undo(&mut self) -> (r: Option<CharSequence>)
        requires
            old(self).wf(),
        ensures
            final(self).wf(),
            final(self).contents() == old(self).contents(),
            final(self).cap() == old(self).cap(),
            final(self).pos() == undo_pos(old(self).contents().len() as int, old(self).pos()),
            old(self).can_undo_spec() ==> r is Some && r.unwrap()@ == old(self).contents()[final(self).pos()],
            !old(self).can_undo_spec() ==> r is None,
    {
        if self.can_undo() {
            self.current = self.current - 1;
            Some(self.entries[self.current].content.copy())
        } else {
            None
        }
    }

    /// Moves forward one entry and returns its content; `None` at the latest entry.
    pub fn redo(&mut self) -> (r: Option<CharSequence>)
        requires
            old(self).wf(),
        ensures
            final(self).wf(),
            final(self).contents() == old(self).contents(),
            final(self).cap() == old(self).cap(),
            final(self).pos() == redo_pos(old(self).contents().len() as int, old(self).pos()),
            old(self).can_redo_spec() ==> r is Some && r.unwrap()@ == old(self).contents()[final(self).pos()],
            !old(self).can_redo_spec() ==> r is None,
    {
        if self.can_redo() {
            self.current = self.current + 1;
            Some(self.entries[self.current].content.copy())
        } else {
            None
        }
    }

    pub fn can_undo(&self) -> (r: bool)
        requires
            self.wf(),
        ensures
            r == self.can_undo_spec(),
    {
        self.current > 0 && self.entries.len() != 0
    }

    pub fn can_redo(&self) -> (r: bool)
        requires
            self.wf(),
        ensures
            r == self.can_redo_spec(),
    {
        self.current + 1 < self.entries.len()
    }

    /// Forgets every entry.
    pub fn clear(&mut self)
        requires
            old(self).wf(),
        ensures
            final(self).wf(),
            final(self).contents() == Seq::<Seq<char>>::empty(),
            final(self).pos() == 0,
            final(self).cap() == old(self).cap(),
    {
        self.entries = Vec::new();
        self.current = 0;
        assert(self.contents() =~= Seq::<Seq<char>>::empty());
    }

    pub fn history_size(&self) -> (r: usize)
        ensures
            r == self.contents().len(),
    {
        self.entries.len()
    }

    pub fn current_position(&self) -> (r: usize)
        ensures
            r == self.pos(),
    {
        self.current
    }

    /// Content of the entry at index `i` (oldest first).
    pub fn entry(&self, i: usize) -> (r: &CharSequence)
        requires
            i < self.contents().len(),
        ensures
            r@ == self.contents()[i as int],
    {
        &self.entries[i].content
    }
}

/// Undoing then redoing returns to the same position.
pub proof fn lemma_undo_then_redo(n: int, p: int)
    requires
        0 < p < n,
    ensures
        redo_pos(n, undo_pos(n, p)) == p,
{
}

/// Redoing then undoing returns to the same position.
pub proof fn lemma_redo_then_undo(n: int, p: int)
    requires
        0 <= p,
        p + 1 < n,
    ensures
        undo_pos(n, redo_pos(n, p)) == p,
{
}

/// Recording keeps the history within its capacity, makes the new content current and
/// leaves nothing to redo.
pub proof fn lemma_record_bounded(entries: Seq<Seq<char>>, cur: int, cap: int, c: Seq<char>)
    requires
        cap >= 1,
        entries.len() <= cap,
        entries.len() > 0 ==> 0 <= cur < entries.len(),
    ensures
        recorded(entries, cur, cap, c).len() <= cap,
        recorded(entries, cur, cap, c).last() == c,
        redo_pos(recorded(entries, cur, cap, c).len() as int, recorded(entries, cur, cap, c).len() - 1)
            == recorded(entries, cur, cap, c).len() - 1,
{
}

/// With room for two entries, undoing right after recording gives back the content that
/// was current before the recording.
pub proof fn lemma_record_then_undo(entries: Seq<Seq<char>>, cur: int, cap: int, c: Seq<char>)
    requires
        cap >= 2,
        entries.len() <= cap,
        0 <= cur < entries.len(),
    ensures
        recorded(entries, cur, cap, c).len() >= 2,
        recorded(entries, cur, cap, c)[undo_pos(
            recorded(entries, cur, cap, c).len() as int,
            recorded(entries, cur, cap, c).len() - 1,
        )] == entries[cur],
{
    let kept = entries.take(cur + 1).push(c);
    if kept.len() > cap {
        assert(kept.drop_first()[cur - 1] == kept[cur]);
    }
}

}
