//! A one-line text editor: a buffer of characters and a cursor in it.
//!
//! The cursor is an index between characters, from 0 to the length of the
//! buffer. Every operation is total: at either end of the buffer the moves
//! and deletions that have nowhere to go leave the editor as it is.

use crate::text::string_of;
use vstd::prelude::*;

verus! {

/// What an editor is, to contracts: the characters typed so far and the
/// position of the cursor among them.
pub struct EditorView {
    pub buffer: Seq<char>,
    pub cursor: nat,
}

/// One editing command.
#[derive(Clone, Copy, Debug, PartialEq, Eq, Structural)]
pub enum EditOp {
    /// Cursor one character to the left.
    Left,
    /// Cursor one character to the right.
    Right,
    /// Put a character at the cursor.
    Insert(char),
    /// Remove the character before the cursor.
    Backspace,
    /// Remove the character at the cursor.
    Delete,
}

impl EditorView {
    /// The cursor lies within the buffer or just past its end.
    pub open spec fn wf(self) -> bool {
        self.cursor <= self.buffer.len()
    }

    /// The editor before anything was typed.
    pub open spec fn empty() -> EditorView {
        EditorView { buffer: Seq::empty(), cursor: 0 }
    }

    /// The cursor one place to the left, or where it is at the start.
    pub open spec fn left(self) -> EditorView {
        EditorView {
            buffer: self.buffer,
            cursor: if self.cursor > 0 { (self.cursor - 1) as nat } else { 0 },
        }
    }

    /// The cursor one place to the right, or where it is at the end.
    pub open spec fn right(self) -> EditorView {
        EditorView {
            buffer: self.buffer,
            cursor: if self.cursor < self.buffer.len() { self.cursor + 1 } else { self.cursor },
        }
    }

    /// `ch` put in at the cursor, and the cursor moved past it.
    pub open spec fn inserted(self, ch: char) -> EditorView {
        EditorView { buffer: self.buffer.insert(self.cursor as int, ch), cursor: self.cursor + 1 }
    }

    /// The character before the cursor taken out and the cursor moved back
    /// onto its place; nothing changes at the start of the buffer.
    pub open spec fn backspaced(self) -> EditorView {
        if self.cursor > 0 {
            EditorView {
                buffer: self.buffer.remove(self.cursor - 1),
                cursor: (self.cursor - 1) as nat,
            }
        } else {
            self
        }
    }

    /// The character at the cursor taken out; nothing changes at the end of
    /// the buffer.
    pub open spec fn deleted(self) -> EditorView {
        if self.cursor < self.buffer.len() {
            EditorView { buffer: self.buffer.remove(self.cursor as int), cursor: self.cursor }
        } else {
            self
        }
    }

    /// The editor after one command.
    pub open spec fn applied(self, op: EditOp) -> EditorView {
        match op {
            EditOp::Left => self.left(),
            EditOp::Right => self.right(),
            EditOp::Insert(ch) => self.inserted(ch),
            EditOp::Backspace => self.backspaced(),
            EditOp::Delete => self.deleted(),
        }
    }
}

/// The editor for one line of text.
#[derive(Debug)]
pub struct LineEditor {
    buffer: Vec<char>,
    cursor: usize,
}

impl View for LineEditor {
    type V = EditorView;

    closed spec fn view(&self) -> EditorView {
        EditorView { buffer: self.buffer@, cursor: self.cursor as nat }
    }
}

impl LineEditor {
    /// The invariant of the type: the cursor is within the buffer or at its end.
    pub open spec fn wf(&self) -> bool {
        self@.wf()
    }

    /// An editor with an empty buffer and the cursor at 0.
    pub fn new() -> (res: LineEditor)
        ensures
            res.wf(),
            res@ == EditorView::empty(),
    {
        LineEditor { buffer: Vec::new(), cursor: 0 }
    }

    /// The position of the cursor.
    pub fn cursor(&self) -> (at: usize)
        ensures
            at == self@.cursor,
    {
        self.cursor
    }

    /// The number of characters in the buffer.
    pub fn len(&self) -> (n: usize)
        ensures
            n == self@.buffer.len(),
    {
        self.buffer.len()
    }

    /// A copy of the buffer as a string; the editor stays open.
    pub fn text(&self) -> (res: String)
        ensures
            res@ == self@.buffer,
    {
        let res = string_of(&self.buffer, 0, self.buffer.len());
        assert(self.buffer@.subrange(0, self.buffer@.len() as int) =~= self.buffer@);
        res
    }

    /// Moves the cursor one character to the left; stays at the start.
    pub fn move_left(&mut self)
        requires
            old(self).wf(),
        ensures
            final(self).wf(),
            final(self)@ == old(self)@.left(),
    {
        if self.cursor > 0 {
            self.cursor -= 1;
        }
    }

    /// Moves the cursor one character to the right; stays at the end.
    pub fn move_right(&mut self)
        requires
            old(self).wf(),
        ensures
            final(self).wf(),
            final(self)@ == old(self)@.right(),
    {
        if self.cursor < self.buffer.len() {
            self.cursor += 1;
        }
    }

    /// Puts `ch` in at the cursor and moves the cursor past it.
    pub fn insert(&mut self, ch: char)
        requires
            old(self).wf(),
        ensures
            final(self).wf(),
            final(self)@ == old(self)@.inserted(ch),
            final(self)@.buffer.len() == old(self)@.buffer.len() + 1,
    {
        self.buffer.insert(self.cursor, ch);
        let grown = self.buffer.len();
        assert(self.cursor < grown);
        self.cursor += 1;
    }

    /// Removes the character before the cursor and moves the cursor back by
    /// one. At the start of the buffer nothing changes.
    pub fn delete_before(&mut self)
        requires
            old(self).wf(),
        ensures
            final(self).wf(),
            final(self)@ == old(self)@.backspaced(),
            old(self)@.cursor == 0 ==> *final(self) == *old(self),
    {
        if self.cursor > 0 {
            let _ = self.buffer.remove(self.cursor - 1);
            self.cursor -= 1;
        }
    }

    /// Removes the character at the cursor; the cursor stays. At the end of
    /// the buffer nothing changes.
    pub fn delete_at(&mut self)
        requires
            old(self).wf(),
        ensures
            final(self).wf(),
            final(self)@ == old(self)@.deleted(),
            old(self)@.cursor == old(self)@.buffer.len() ==> *final(self) == *old(self),
    {
        if self.cursor < self.buffer.len() {
            let _ = self.buffer.remove(self.cursor);
        }
    }

    /// Carries out one editing command.
    pub fn apply(&mut self, op: EditOp)
        requires
            old(self).wf(),
        ensures
            final(self).wf(),
            final(self)@ == old(self)@.applied(op),
    {
        match op {
            EditOp::Left => self.move_left(),
            EditOp::Right => self.move_right(),
            EditOp::Insert(ch) => self.insert(ch),
            EditOp::Backspace => self.delete_before(),
            EditOp::Delete => self.delete_at(),
        }
    }

    /// Ends the edit and hands out what was typed, blank or not.
    pub fn commit(self) -> (res: String)
        ensures
            res@ == self@.buffer,
    {
        self.text()
    }

    /// Ends the edit and throws away what was typed.
    pub fn cancel(self) {
    }
}

} // verus!
