//! The editable line of text: a sequence of Unicode scalar values together
//! with a cursor, counted in characters rather than bytes, so that a
//! multi-byte character is never split.

use vstd::prelude::*;

verus! {

/// The mathematical content of a [`TextBuffer`]: the characters and the
/// cursor offset, counted in Unicode scalar values.
pub ghost struct BufferModel {
    pub chars: Seq<char>,
    pub cursor: int,
}

impl BufferModel {
    /// The cursor invariant: the cursor sits on a character boundary,
    /// between the start and the end of the buffer.
    pub open spec fn wf(self) -> bool {
        0 <= self.cursor <= self.chars.len()
    }

    /// Inserting a character exactly at the cursor, which then advances by
    /// one character.
    pub open spec fn insert(self, c: char) -> BufferModel {
        BufferModel { chars: self.chars.insert(self.cursor, c), cursor: self.cursor + 1 }
    }

    /// Removing the character immediately before the cursor, which then
    /// retreats by one; at the start of the buffer nothing changes.
    pub open spec fn delete_before_cursor(self) -> BufferModel {
        if self.cursor == 0 {
            self
        } else {
            BufferModel { chars: self.chars.remove(self.cursor - 1), cursor: self.cursor - 1 }
        }
    }

    /// A cursor candidate clamped into `[0, length]`.
    pub open spec fn clamp(self, pos: int) -> int {
        if pos <= self.chars.len() {
            pos
        } else {
            self.chars.len() as int
        }
    }

    /// Moving the cursor one character to the left; at the start of the
    /// buffer nothing changes.
    pub open spec fn move_left(self) -> BufferModel {
        BufferModel { chars: self.chars, cursor: self.clamp(if self.cursor > 0 { self.cursor - 1 } else { 0 }) }
    }

    /// Moving the cursor one character to the right; at the end of the
    /// buffer nothing changes.
    pub open spec fn move_right(self) -> BufferModel {
        BufferModel { chars: self.chars, cursor: self.clamp(self.cursor + 1) }
    }

    /// Putting the cursor back at the start of the buffer.
    pub open spec fn reset(self) -> BufferModel {
        BufferModel { chars: self.chars, cursor: 0 }
    }
}

/// Inserting a character keeps the cursor invariant.
pub proof fn lemma_insert_preserves_wf(m: BufferModel, c: char)
    requires
        m.wf(),
    ensures
        m.insert(c).wf(),
{
}

/// Deleting before the cursor keeps the cursor invariant.
pub proof fn lemma_delete_preserves_wf(m: BufferModel)
    requires
        m.wf(),
    ensures
        m.delete_before_cursor().wf(),
{
}

/// One editing call: an insertion or a deletion.
pub ghost enum BufferEdit {
    Insert(char),
    Delete,
}

/// The buffer after one editing call.
pub open spec fn apply_edit(m: BufferModel, e: BufferEdit) -> BufferModel {
    match e {
        BufferEdit::Insert(c) => m.insert(c),
        BufferEdit::Delete => m.delete_before_cursor(),
    }
}

/// The buffer after a whole sequence of editing calls, applied in order.
pub open spec fn apply_edits(m: BufferModel, es: Seq<BufferEdit>) -> BufferModel
    decreases es.len(),
{
    if es.len() == 0 {
        m
    } else {
        apply_edit(apply_edits(m, es.drop_last()), es.last())
    }
}

/// After every sequence of insert and delete calls, the cursor invariant
/// still holds.
pub proof fn lemma_edits_preserve_wf(m: BufferModel, es: Seq<BufferEdit>)
    requires
        m.wf(),
    ensures
        apply_edits(m, es).wf(),
    decreases es.len(),
{
    if es.len() > 0 {
        lemma_edits_preserve_wf(m, es.drop_last());
    }
}

/// Inserting any character and immediately deleting it restores the buffer
/// to its exact prior contents and cursor position.
pub proof fn lemma_insert_delete_round_trip(m: BufferModel, c: char)
    requires
        m.wf(),
    ensures
        m.insert(c).delete_before_cursor() == m,
{
    assert(m.insert(c).delete_before_cursor().chars =~= m.chars);
}

/// The editable line of text with its cursor.
pub struct TextBuffer {
    chars: Vec<char>,
    cursor: usize,
}

impl View for TextBuffer {
    type V = BufferModel;

    closed spec fn view(&self) -> BufferModel {
        BufferModel { chars: self.chars@, cursor: self.cursor as int }
    }
}

impl TextBuffer {
    /// The cursor invariant carried by every buffer the library hands out.
    pub open spec fn wf(&self) -> bool {
        self@.wf()
    }

    /// An empty buffer with the cursor at the start.
    pub fn new() -> (r: TextBuffer)
        ensures
            r@.chars == Seq::<char>::empty(),
            r@.cursor == 0,
            r.wf(),
    {
        TextBuffer { chars: Vec::new(), cursor: 0 }
    }

    /// The number of characters in the buffer.
    pub fn char_count(&self) -> (n: usize)
        ensures
            n == self@.chars.len(),
    {
        self.chars.len()
    }

    /// The cursor position, as a character offset.
    pub fn cursor(&self) -> (n: usize)
        ensures
            n == self@.cursor,
    {
        self.cursor
    }

    /// The characters of the buffer, in order.
    pub fn chars(&self) -> (r: &Vec<char>)
        ensures
            r@ == self@.chars,
    {
        &self.chars
    }

    /// Inserts `c` at the cursor and advances the cursor by one character.
    pub fn insert(&mut self, c: char)
        requires
            old(self).wf(),
        ensures
            final(self)@ == old(self)@.insert(c),
            final(self).wf(),
    {
        self.chars.insert(self.cursor, c);
        let n = self.chars.len();
        assert(self.cursor < n);
        self.cursor = self.cursor + 1;
    }

    /// Removes the character immediately before the cursor and moves the
    /// cursor back by one; at the start of the buffer this is a no-op.
    pub fn delete_before_cursor(&mut self)
        requires
            old(self).wf(),
        ensures
            final(self)@ == old(self)@.delete_before_cursor(),
            final(self).wf(),
    {
        if self.cursor > 0 {
            self.chars.remove(self.cursor - 1);
            self.cursor = self.cursor - 1;
        }
    }

    /// Clamps a cursor candidate into `[0, length]`.
    pub fn clamp_cursor(&self, new_cursor_pos: usize) -> (r: usize)
        ensures
            r == self@.clamp(new_cursor_pos as int),
    {
        let count = self.chars.len();
        if new_cursor_pos <= count {
            new_cursor_pos
        } else {
            count
        }
    }

    /// Moves the cursor one character to the left; at position 0 this is a
    /// no-op.
    pub fn move_cursor_left(&mut self)
        requires
            old(self).wf(),
        ensures
            final(self)@ == old(self)@.move_left(),
            old(self)@.cursor == 0 ==> final(self)@ == old(self)@,
            final(self).wf(),
    {
        let moved = if self.cursor > 0 { self.cursor - 1 } else { 0 };
        self.cursor = self.clamp_cursor(moved);
    }

    /// Moves the cursor one character to the right; at the end of the buffer
    /// this is a no-op.
    pub fn move_cursor_right(&mut self)
        requires
            old(self).wf(),
        ensures
            final(self)@ == old(self)@.move_right(),
            old(self)@.cursor == old(self)@.chars.len() ==> final(self)@ == old(self)@,
            final(self).wf(),
    {
        let moved = if self.cursor < self.chars.len() { self.cursor + 1 } else { self.cursor };
        self.cursor = self.clamp_cursor(moved);
    }

    /// Puts the cursor back at the start of the buffer.
    pub fn reset_cursor(&mut self)
        ensures
            final(self)@ == old(self)@.reset(),
            final(self).wf(),
    {
        self.cursor = 0;
    }
}

} // verus!
