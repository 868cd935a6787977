//! The query buffer: a line of characters with a cursor, edited one
//! character at a time.
use vstd::prelude::*;

verus! {

/// One edit of the query buffer.
#[derive(Clone, Copy, Debug, PartialEq, Eq, Structural)]
pub enum EditOp {
    Insert(char),
    DeleteBeforeCursor,
    MoveLeft,
    MoveRight,
}

/// The text and cursor that `op` leaves when applied to `text` with the
/// cursor at `cursor`.
pub open spec fn edit_step(text: Seq<char>, cursor: int, op: EditOp) -> (Seq<char>, int) {
    match op {
        EditOp::Insert(c) => (text.insert(cursor, c), cursor + 1),
        EditOp::DeleteBeforeCursor => if cursor > 0 {
            (text.remove(cursor - 1), cursor - 1)
        } else {
            (text, cursor)
        },
        EditOp::MoveLeft => if cursor > 0 {
            (text, cursor - 1)
        } else {
            (text, cursor)
        },
        EditOp::MoveRight => if cursor < text.len() {
            (text, cursor + 1)
        } else {
            (text, cursor)
        },
    }
}

/// Whether `op` changes the text (moves never do).
pub open spec fn edit_changes_text(cursor: int, op: EditOp) -> bool {
    match op {
        EditOp::Insert(_) => true,
        EditOp::DeleteBeforeCursor => cursor > 0,
        _ => false,
    }
}

/// The text and cursor after applying `ops` in order to the empty buffer.
pub open spec fn run_edits(ops: Seq<EditOp>) -> (Seq<char>, int)
    decreases ops.len(),
{
    if ops.len() == 0 {
        (Seq::empty(), 0)
    } else {
        let prev = run_edits(ops.drop_last());
        edit_step(prev.0, prev.1, ops.last())
    }
}

/// The cursor stays within `0..=len` after every sequence of edits that
/// starts from the empty buffer.
pub proof fn lemma_cursor_stays_in_bounds(ops: Seq<EditOp>)
    ensures
        0 <= run_edits(ops).1 <= run_edits(ops).0.len(),
    decreases ops.len(),
{
    if ops.len() > 0 {
        lemma_cursor_stays_in_bounds(ops.drop_last());
    }
}

/// Inserting a character and then deleting the character before the
/// cursor gives back the text and cursor one started from.
pub proof fn lemma_insert_then_delete(text: Seq<char>, cursor: int, c: char)
    requires
        0 <= cursor <= text.len(),
    ensures
        ({
            let ins = edit_step(text, cursor, EditOp::Insert(c));
            edit_step(ins.0, ins.1, EditOp::DeleteBeforeCursor)
        }) == (text, cursor),
{
    let ins = edit_step(text, cursor, EditOp::Insert(c));
    assert(ins.0.remove(cursor) =~= text);
}

/// The query text with its cursor, counted in characters.
pub struct QueryBuffer {
    chars: Vec<char>,
    cursor: usize,
}

impl QueryBuffer {
    pub closed spec fn text(&self) -> Seq<char> {
        self.chars@
    }

    pub closed spec fn cursor_pos(&self) -> int {
        self.cursor as int
    }

    /// The cursor lies between `0` and the length of the text.
    pub open spec fn wf(&self) -> bool {
        0 <= self.cursor_pos() <= self.text().len()
    }

    /// The empty buffer.
    pub fn new() -> (r: QueryBuffer)
        ensures
            r.wf(),
            r.text() == Seq::<char>::empty(),
            r.cursor_pos() == 0,
    {
        QueryBuffer { chars: Vec::new(), cursor: 0 }
    }

    /// The query text.
    pub fn chars(&self) -> (r: &Vec<char>)
        ensures
            r@ == self.text(),
    {
        &self.chars
    }

    /// The cursor, as a number of characters before it.
    pub fn cursor(&self) -> (r: usize)
        ensures
            r == self.cursor_pos(),
    {
        self.cursor
    }

    /// Inserts `c` at the cursor and moves the cursor past it. The text
    /// always changes, so this returns `true`.
    pub fn insert(&mut self, c: char) -> (changed: bool)
        requires
            old(self).wf(),
            old(self).text().len() < usize::MAX,
        ensures
            final(self).wf(),
            (final(self).text(), final(self).cursor_pos()) == edit_step(
                old(self).text(),
                old(self).cursor_pos(),
                EditOp::Insert(c),
            ),
            changed,
    {
        if self.chars.len() == 0 {
            // an empty buffer takes the character at its start, whatever the cursor says
            self.chars.push(c);
            self.cursor = 1;
            proof {
                assert(self.chars@ =~= old(self).chars@.insert(0, c));
            }
        } else {
            self.chars.insert(self.cursor, c);
            self.cursor = self.cursor + 1;
        }
        true
    }

    /// Removes the character before the cursor and moves the cursor back by
    /// one. At the start of the text nothing changes and `false` comes back.
    pub fn delete_before_cursor(&mut self) -> (changed: bool)
        requires
            old(self).wf(),
        ensures
            final(self).wf(),
            (final(self).text(), final(self).cursor_pos()) == edit_step(
                old(self).text(),
                old(self).cursor_pos(),
                EditOp::DeleteBeforeCursor,
            ),
            changed == edit_changes_text(old(self).cursor_pos(), EditOp::DeleteBeforeCursor),
    {
        if self.cursor > 0 {
            self.chars.remove(self.cursor - 1);
            self.cursor = self.cursor - 1;
            true
        } else {
            false
        }
    }

    /// Moves the cursor one character to the left, unless it is at the start.
    pub fn move_left(&mut self)
        requires
            old(self).wf(),
        ensures
            final(self).wf(),
            (final(self).text(), final(self).cursor_pos()) == edit_step(
                old(self).text(),
                old(self).cursor_pos(),
                EditOp::MoveLeft,
            ),
    {
        if self.cursor > 0 {
            self.cursor = self.cursor - 1;
        }
    }

    /// Moves the cursor one character to the right, unless it is at the end.
    pub fn move_right(&mut self)
        requires
            old(self).wf(),
        ensures
            final(self).wf(),
            (final(self).text(), final(self).cursor_pos()) == edit_step(
                old(self).text(),
                old(self).cursor_pos(),
                EditOp::MoveRight,
            ),
    {
        if self.cursor < self.chars.len() {
            self.cursor = self.cursor + 1;
        }
    }

    /// Applies `op`; returns whether the text changed.
    pub fn apply(&mut self, op: EditOp) -> (changed: bool)
        requires
            old(self).wf(),
            old(self).text().len() < usize::MAX,
        ensures
            final(self).wf(),
            (final(self).text(), final(self).cursor_pos()) == edit_step(
                old(self).text(),
                old(self).cursor_pos(),
                op,
            ),
            changed == edit_changes_text(old(self).cursor_pos(), op),
    {
        match op {
            EditOp::Insert(c) => self.insert(c),
            EditOp::DeleteBeforeCursor => self.delete_before_cursor(),
            EditOp::MoveLeft => {
                self.move_left();
                false
            },
            EditOp::MoveRight => {
                self.move_right();
                false
            },
        }
    }
}

} // verus!
