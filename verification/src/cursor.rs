use vstd::prelude::*;

verus! {

/// Mathematical model of an editing session: the ordered lines of the
/// buffer together with the cursor position, a 1-based row `y` and a
/// column `x` that ranges from 0 to one past the end of the current line.
#[verifier::ext_equal]
pub struct EditorState {
    pub x: int,
    pub y: int,
    pub lines: Seq<Seq<char>>,
}

impl EditorState {
    /// The line the cursor is on.
    pub open spec fn cur(self) -> Seq<char> {
        self.lines[self.y - 1]
    }

    /// The row is a valid 1-based index into a non-empty buffer.
    pub open spec fn row_ok(self) -> bool {
        1 <= self.y <= self.lines.len()
    }

    /// Session invariant: valid row, and the column at most one past the
    /// end of the current line. Column 0 is the transient "before start"
    /// position that the next insertion normalizes to 1.
    pub open spec fn wf(self) -> bool {
        &&& self.row_ok()
        &&& 0 <= self.x <= self.cur().len() + 1
    }

    /// Clamp the column to at most one past the end of the current line.
    pub open spec fn clamp_spec(self) -> EditorState {
        if self.x > self.cur().len() + 1 {
            EditorState { x: self.cur().len() as int + 1, ..self }
        } else {
            self
        }
    }

    /// Move to the previous row (no-op at the top), clamping the column.
    pub open spec fn up_spec(self) -> EditorState {
        if self.y == 1 {
            self
        } else {
            EditorState { y: self.y - 1, ..self }.clamp_spec()
        }
    }

    /// Move to the next row (no-op at the bottom), clamping the column.
    pub open spec fn down_spec(self) -> EditorState {
        if self.y == self.lines.len() {
            self
        } else {
            EditorState { y: self.y + 1, ..self }.clamp_spec()
        }
    }

    /// Move the column one to the left (no-op at column 0).
    pub open spec fn left_spec(self) -> EditorState {
        if self.x == 0 {
            self
        } else {
            EditorState { x: self.x - 1, ..self }
        }
    }

    /// Move the column one to the right, clamped to one past the end.
    pub open spec fn right_spec(self) -> EditorState {
        EditorState { x: self.x + 1, ..self }.clamp_spec()
    }

    /// Insert a character at the cursor: a column of 0 is first normalized
    /// to 1, the character lands at zero-based offset `x - 1` in the current
    /// line, and the cursor moves right past it.
    pub open spec fn insert_spec(self, c: char) -> EditorState {
        let x0 = if self.x == 0 { 1int } else { self.x };
        EditorState {
            x: x0,
            y: self.y,
            lines: self.lines.update(self.y - 1, self.cur().insert(x0 - 1, c)),
        }.right_spec()
    }

    /// Delete with backspace semantics, by cases in order:
    /// a column beyond one past the end drops the last character of the
    /// line (defensive; such a column never arises from these operations);
    /// column 1 on a row below the first joins the line onto the previous
    /// one, the cursor landing at the join point; column 1 on the first row
    /// is a no-op; any larger column removes the character just before the
    /// cursor. A column of 0 is also a no-op.
    pub open spec fn delete_spec(self) -> EditorState {
        if self.x > self.cur().len() + 1 {
            let trimmed = if self.cur().len() == 0 { self.cur() } else { self.cur().drop_last() };
            EditorState { lines: self.lines.update(self.y - 1, trimmed), ..self }.left_spec()
        } else if self.x == 1 && self.y > 1 {
            let joined = self.lines[self.y - 2] + self.cur();
            EditorState {
                x: self.lines[self.y - 2].len() as int + 1,
                y: self.y,
                lines: self.lines.update(self.y - 2, joined).remove(self.y - 1),
            }.up_spec()
        } else if self.x > 1 {
            EditorState {
                lines: self.lines.update(self.y - 1, self.cur().remove(self.x - 2)),
                ..self
            }.left_spec()
        } else {
            self
        }
    }

    /// Split the current line at the cursor. An empty current line just
    /// gains an empty successor and the cursor moves down to it; otherwise
    /// everything from the cursor on becomes a new line below, and the
    /// cursor lands at column 1 of that line.
    pub open spec fn newline_spec(self) -> EditorState {
        if self.cur().len() == 0 {
            EditorState {
                lines: self.lines.insert(self.y, Seq::<char>::empty()),
                ..self
            }.down_spec()
        } else {
            let x0 = if self.x == 0 { 1int } else { self.x };
            let head = self.cur().subrange(0, x0 - 1);
            let tail = self.cur().subrange(x0 - 1, self.cur().len() as int);
            let split = EditorState {
                x: x0,
                y: self.y,
                lines: self.lines.insert(self.y, tail).update(self.y - 1, head),
            }.down_spec();
            EditorState { x: 1, ..split }
        }
    }

    /// Four space characters inserted one after another.
    pub open spec fn tab_spec(self) -> EditorState {
        self.insert_spec(' ').insert_spec(' ').insert_spec(' ').insert_spec(' ')
    }
}

/// The editing engine: a buffer of lines (each a sequence of characters,
/// with no line terminators) and the cursor position within it.
pub struct Cursor {
    x: usize,
    y: usize,
    lines: Vec<Vec<char>>,
}

impl View for Cursor {
    type V = EditorState;

    closed spec fn view(&self) -> EditorState {
        EditorState { x: self.x as int, y: self.y as int, lines: self.lines.deep_view() }
    }
}

/// One editing operation, as dispatched from a key event: the four arrow
/// motions, a printable character, backspace, the enter key, and the tab
/// key (which inserts four spaces).
#[derive(Clone, Copy, Debug)]
pub enum EditOp {
    Up,
    Down,
    Left,
    Right,
    Insert(char),
    Delete,
    Newline,
    Tab,
}

/// What an operation asks of the state it is applied to: the session
/// invariant, and room for the lines it grows to stay addressable.
pub open spec fn step_req(s: EditorState, op: EditOp) -> bool {
    &&& s.wf()
    &&& match op {
        EditOp::Right => s.cur().len() < usize::MAX,
        EditOp::Insert(_) => s.cur().len() + 1 < usize::MAX,
        EditOp::Tab => s.cur().len() + 4 < usize::MAX,
        EditOp::Delete => s.x == 1 && s.y > 1 ==> s.lines[s.y - 2].len() + s.cur().len()
            < usize::MAX,
        _ => true,
    }
}

/// The state after one operation.
pub open spec fn step(s: EditorState, op: EditOp) -> EditorState {
    match op {
        EditOp::Up => s.up_spec(),
        EditOp::Down => s.down_spec(),
        EditOp::Left => s.left_spec(),
        EditOp::Right => s.right_spec(),
        EditOp::Insert(c) => s.insert_spec(c),
        EditOp::Delete => s.delete_spec(),
        EditOp::Newline => s.newline_spec(),
        EditOp::Tab => s.tab_spec(),
    }
}

impl Cursor {
    /// Start a session over the loaded lines: an empty file becomes one
    /// empty line, and the cursor lands one past the end of the last line.
    pub fn new(lines: Vec<Vec<char>>) -> (c: Cursor)
        requires
            lines@.len() > 0 ==> lines@.last()@.len() < usize::MAX,
        ensures
            c@.wf(),
            c@.lines == if lines@.len() == 0 {
                seq![Seq::<char>::empty()]
            } else {
                lines.deep_view()
            },
            c@.y == c@.lines.len(),
            c@.x == c@.lines.last().len() + 1,
    {
        let mut lines = lines;
        if lines.len() == 0 {
            lines.push(Vec::new());
            proof {
                assert(lines.deep_view() =~~= seq![Seq::<char>::empty()]);
            }
        }
        let y = lines.len();
        let x = lines[y - 1].len() + 1;
        Cursor { x, y, lines }
    }

    /// The cursor column, from 0 to one past the end of the current line.
    pub fn col(&self) -> (c: usize)
        ensures
            c == self@.x,
    {
        self.x
    }

    /// The cursor row, 1-based.
    pub fn row(&self) -> (r: usize)
        ensures
            r == self@.y,
    {
        self.y
    }

    /// The lines of the buffer, in order.
    pub fn lines(&self) -> (lines: &Vec<Vec<char>>)
        ensures
            lines.deep_view() == self@.lines,
    {
        &self.lines
    }

    /// Apply one operation to the session.
    pub fn apply(&mut self, op: EditOp)
        requires
            step_req(old(self)@, op),
        ensures
            final(self)@ == step(old(self)@, op),
    {
        match op {
            EditOp::Up => self.up(),
            EditOp::Down => self.down(),
            EditOp::Left => self.left(),
            EditOp::Right => self.right(),
            EditOp::Insert(c) => self.insert(c),
            EditOp::Delete => self.delete(),
            EditOp::Newline => self.newline(),
            EditOp::Tab => self.tab(),
        }
    }

    /// Move the cursor up one row; at the first row this is a no-op.
    /// The column is clamped to one past the end of the new row's line.
    /// The row may be one past the last line: joining two lines shrinks
    /// the buffer first and moves up afterwards.
    pub fn up(&mut self)
        requires
            1 <= old(self)@.y <= old(self)@.lines.len() + 1,
        ensures
            final(self)@ == old(self)@.up_spec(),
    {
        if self.y - 1 == 0 {
            return;
        }
        self.y = self.y - 1;
        let len = self.lines[self.y - 1].len();
        if self.x > len {
            self.x = len + 1;
        }
    }

    /// Move the cursor down one row; at the last row this is a no-op.
    /// The column is clamped to one past the end of the new row's line.
    pub fn down(&mut self)
        requires
            old(self)@.row_ok(),
        ensures
            final(self)@ == old(self)@.down_spec(),
    {
        if self.y == self.lines.len() {
            return;
        }
        self.y = self.y + 1;
        let len = self.lines[self.y - 1].len();
        if self.x > len {
            self.x = len + 1;
        }
    }

    /// Move the cursor one column to the left; at column 0 this is a no-op.
    pub fn left(&mut self)
        ensures
            final(self)@ == old(self)@.left_spec(),
    {
        if self.x != 0 {
            self.x = self.x - 1;
        }
    }

    /// Move the cursor one column to the right, clamped to one past the
    /// end of the current line.
    pub fn right(&mut self)
        requires
            old(self)@.row_ok(),
            old(self)@.cur().len() < usize::MAX,
        ensures
            final(self)@ == old(self)@.right_spec(),
    {
        let len = self.lines[self.y - 1].len();
        if self.x > len {
            self.x = len + 1;
        } else {
            self.x = self.x + 1;
        }
    }

    /// Insert `c` at the cursor and move right past it. A column of 0 is
    /// normalized to 1 first; the current line grows by one character.
    pub fn insert(&mut self, c: char)
        requires
            old(self)@.wf(),
            old(self)@.cur().len() + 1 < usize::MAX,
        ensures
            final(self)@ == old(self)@.insert_spec(c),
    {
        if self.x == 0 {
            self.x = 1;
        }
        self.lines[self.y - 1].insert(self.x - 1, c);
        proof {
            assert(self.lines.deep_view() =~~= old(self).lines.deep_view().update(
                self.y - 1,
                old(self).lines.deep_view()[self.y - 1].insert(self.x - 1, c),
            ));
        }
        self.right();
    }

    /// Backspace at the cursor, following `EditorState::delete_spec`:
    /// remove the character before the cursor, or at column 1 join the
    /// current line onto the previous one (a no-op on the first row).
    pub fn delete(&mut self)
        requires
            old(self)@.row_ok(),
            old(self)@.x == 1 && old(self)@.y > 1 ==> old(self)@.lines[old(self)@.y - 2].len()
                + old(self)@.cur().len() < usize::MAX,
        ensures
            final(self)@ == old(self)@.delete_spec(),
    {
        let len = self.lines[self.y - 1].len();
        if self.x > len && self.x - 1 > len {
            self.lines[self.y - 1].pop();
            proof {
                let trimmed = if old(self)@.cur().len() == 0 {
                    old(self)@.cur()
                } else {
                    old(self)@.cur().drop_last()
                };
                assert(self.lines.deep_view() =~~= old(self).lines.deep_view().update(
                    self.y - 1,
                    trimmed,
                ));
            }
            self.left();
        } else if self.x == 1 && self.y > 1 {
            let prev_len = self.lines[self.y - 2].len();
            self.x = prev_len + 1;
            let mut tail_line = self.lines.remove(self.y - 1);
            self.lines[self.y - 2].append(&mut tail_line);
            proof {
                let joined = old(self)@.lines[old(self)@.y - 2] + old(self)@.cur();
                assert(self.lines.deep_view() =~~= old(self).lines.deep_view().update(
                    old(self)@.y - 2,
                    joined,
                ).remove(old(self)@.y - 1));
            }
            self.up();
        } else if self.x > 1 {
            self.lines[self.y - 1].remove(self.x - 2);
            proof {
                assert(self.lines.deep_view() =~~= old(self).lines.deep_view().update(
                    self.y - 1,
                    old(self)@.cur().remove(self.x - 2),
                ));
            }
            self.left();
        }
    }

    /// Split the current line at the cursor: the part from the cursor on
    /// becomes a new line just below, and the cursor moves to its start.
    /// An empty current line just gains an empty successor below.
    pub fn newline(&mut self)
        requires
            old(self)@.wf(),
        ensures
            final(self)@ == old(self)@.newline_spec(),
    {
        if self.lines[self.y - 1].is_empty() {
            self.lines.insert(self.y, Vec::new());
            proof {
                assert(self.lines.deep_view() =~~= old(self).lines.deep_view().insert(
                    old(self)@.y,
                    Seq::<char>::empty(),
                ));
            }
            self.down();
            return;
        }
        if self.x == 0 {
            self.x = 1;
        }
        let tail = self.lines[self.y - 1].split_off(self.x - 1);
        self.lines.insert(self.y, tail);
        proof {
            let x0 = self@.x;
            let prev = old(self)@;
            let head = prev.cur().subrange(0, x0 - 1);
            let tail_seq = prev.cur().subrange(x0 - 1, prev.cur().len() as int);
            assert(self.lines.deep_view() =~~= prev.lines.insert(prev.y, tail_seq).update(
                prev.y - 1,
                head,
            ));
        }
        self.down();
        self.x = 1;
    }

    /// Insert four spaces at the cursor, one after another.
    pub fn tab(&mut self)
        requires
            old(self)@.wf(),
            old(self)@.cur().len() + 4 < usize::MAX,
        ensures
            final(self)@ == old(self)@.tab_spec(),
    {
        proof {
            lemma_insert_shape(old(self)@, ' ');
            lemma_insert_shape(old(self)@.insert_spec(' '), ' ');
            lemma_insert_shape(old(self)@.insert_spec(' ').insert_spec(' '), ' ');
        }
        self.insert(' ');
        self.insert(' ');
        self.insert(' ');
        self.insert(' ');
    }
}

/// Inserting a character keeps the invariant, stays on the same row, and
/// grows the current line by exactly one character.
pub proof fn lemma_insert_shape(s: EditorState, c: char)
    requires
        s.wf(),
    ensures
        s.insert_spec(c).wf(),
        s.insert_spec(c).y == s.y,
        s.insert_spec(c).lines.len() == s.lines.len(),
        s.insert_spec(c).cur().len() == s.cur().len() + 1,
{
    let x0 = if s.x == 0 { 1int } else { s.x };
    s.cur().insert_ensures(x0 - 1, c);
}

} // verus!
