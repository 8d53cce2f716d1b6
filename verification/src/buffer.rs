//! The text buffer: an ordered, never-empty sequence of lines together with
//! a cursor, mutated by cursor-relative editing operations.

use vstd::prelude::*;

verus! {

/// The mathematical contents of a buffer: each line as a sequence of
/// characters, in order.
pub open spec fn lines_of(b: Seq<Vec<char>>) -> Seq<Seq<char>> {
    Seq::new(b.len(), |i: int| b[i]@)
}

/// A zero-based (column, row) cursor. `x` is the column, `y` the row.
#[derive(Clone, Copy, PartialEq, Eq, Structural, Debug)]
pub struct CursorPosition {
    pub x: usize,
    pub y: usize,
}

impl CursorPosition {
    /// The origin cursor: column 0 of row 0.
    pub fn new() -> (c: CursorPosition)
        ensures
            c.x == 0,
            c.y == 0,
    {
        CursorPosition { x: 0, y: 0 }
    }
}

/// A cursor is valid for buffer contents `b` when its row indexes a line and
/// its column lies within that line (one past the last character is allowed).
pub open spec fn cursor_valid(b: Seq<Seq<char>>, x: int, y: int) -> bool {
    &&& 0 <= y < b.len()
    &&& 0 <= x <= b[y].len()
}

/// Inserting character `c` at column `x` of row `y`: the row gains `c` at
/// position `x` and the cursor advances one column.
pub open spec fn insert_char_spec(b: Seq<Seq<char>>, x: int, y: int, c: char) -> (
    Seq<Seq<char>>,
    int,
    int,
) {
    (b.update(y, b[y].insert(x, c)), x + 1, y)
}

/// Splitting row `y` at column `x`: the text before the column stays, the
/// text from the column onward becomes a new row right after it, and the
/// cursor moves to column 0 of that new row.
pub open spec fn split_line_spec(b: Seq<Seq<char>>, x: int, y: int) -> (Seq<Seq<char>>, int, int) {
    (b.update(y, b[y].take(x)).insert(y + 1, b[y].skip(x)), 0, y + 1)
}

/// Backspace at (`x`, `y`): with `x > 0` the character before the cursor is
/// removed and the cursor steps left; at column 0 of a row below the first,
/// the row is merged onto the end of the previous row and the cursor lands at
/// the previous row's old length; at the origin nothing changes.
pub open spec fn backspace_spec(b: Seq<Seq<char>>, x: int, y: int) -> (Seq<Seq<char>>, int, int) {
    if x > 0 {
        (b.update(y, b[y].remove(x - 1)), x - 1, y)
    } else if y > 0 {
        (b.update(y - 1, b[y - 1] + b[y]).remove(y), b[y - 1].len() as int, y - 1)
    } else {
        (b, x, y)
    }
}

/// Moving left clamps at column 0.
pub open spec fn move_left_spec(x: int) -> int {
    if x > 0 {
        x - 1
    } else {
        x
    }
}

/// Moving right clamps at the current line's length.
pub open spec fn move_right_spec(b: Seq<Seq<char>>, x: int, y: int) -> int {
    if x < b[y].len() {
        x + 1
    } else {
        x
    }
}

/// Moving up goes to the previous row, clamping the column to that row's
/// length; at the first row nothing changes.
pub open spec fn move_up_spec(b: Seq<Seq<char>>, x: int, y: int) -> (int, int) {
    if y > 0 {
        (if x > b[y - 1].len() { b[y - 1].len() as int } else { x }, y - 1)
    } else {
        (x, y)
    }
}

/// Moving down goes to the next row, clamping the column to that row's
/// length; at the last row nothing changes.
pub open spec fn move_down_spec(b: Seq<Seq<char>>, x: int, y: int) -> (int, int) {
    if y < b.len() - 1 {
        (if x > b[y + 1].len() { b[y + 1].len() as int } else { x }, y + 1)
    } else {
        (x, y)
    }
}

/// The editor state: buffer lines, cursor, the name the buffer was loaded
/// from or saved to, a dirty flag, and the first visible row of the viewport.
pub struct Editor {
    pub buffer: Vec<Vec<char>>,
    pub cursor_position: CursorPosition,
    pub filename: Option<Vec<char>>,
    pub modified: bool,
    pub viewport_start: usize,
}

impl Editor {
    /// The buffer contents as a sequence of character sequences.
    pub open spec fn lines(&self) -> Seq<Seq<char>> {
        lines_of(self.buffer@)
    }

    /// Well-formedness: the buffer is never empty and the cursor is valid.
    pub open spec fn wf(&self) -> bool {
        &&& self.lines().len() >= 1
        &&& cursor_valid(self.lines(), self.cursor_position.x as int, self.cursor_position.y as int)
    }

    /// A fresh editor: one empty line, cursor at the origin, no file name,
    /// unmodified, viewport at the top.
    pub fn new() -> (e: Editor)
        ensures
            e.wf(),
            e.lines() =~= seq![Seq::<char>::empty()],
            e.cursor_position.x == 0,
            e.cursor_position.y == 0,
            e.filename is None,
            !e.modified,
            e.viewport_start == 0,
    {
        let mut buffer: Vec<Vec<char>> = Vec::new();
        buffer.push(Vec::new());
        Editor {
            buffer,
            cursor_position: CursorPosition::new(),
            filename: None,
            modified: false,
            viewport_start: 0,
        }
    }

    /// Inserts `c` at the cursor and advances the cursor one column.
    pub fn insert_char(&mut self, c: char)
        requires
            old(self).wf(),
        ensures
            final(self).wf(),
            final(self).lines() == insert_char_spec(
                old(self).lines(),
                old(self).cursor_position.x as int,
                old(self).cursor_position.y as int,
                c,
            ).0,
            final(self).cursor_position.x == old(self).cursor_position.x + 1,
            final(self).cursor_position.y == old(self).cursor_position.y,
            final(self).filename == old(self).filename,
            final(self).modified == old(self).modified,
            final(self).viewport_start == old(self).viewport_start,
    {
        let x = self.cursor_position.x;
        let y = self.cursor_position.y;
        self.buffer[y].insert(x, c);
        let n = self.buffer[y].len();
        assert(x < n);
        proof {
            lemma_lines_of_update(old(self).buffer@, y as int, self.buffer@[y as int]);
            assert(self.lines() =~= insert_char_spec(
                old(self).lines(),
                x as int,
                y as int,
                c,
            ).0);
        }
        self.cursor_position.x = x + 1;
    }

    /// Splits the cursor's line at the cursor column: the text from the
    /// column onward becomes a new line right below, and the cursor moves to
    /// column 0 of that new line.
    pub fn new_line(&mut self)
        requires
            old(self).wf(),
        ensures
            final(self).wf(),
            final(self).lines() == split_line_spec(
                old(self).lines(),
                old(self).cursor_position.x as int,
                old(self).cursor_position.y as int,
            ).0,
            final(self).cursor_position.x == 0,
            final(self).cursor_position.y == old(self).cursor_position.y + 1,
            final(self).filename == old(self).filename,
            final(self).modified == old(self).modified,
            final(self).viewport_start == old(self).viewport_start,
    {
        let x = self.cursor_position.x;
        let y = self.cursor_position.y;
        let rest = self.buffer[y].split_off(x);
        proof {
            assert(self.buffer@[y as int]@ =~= old(self).lines()[y as int].take(x as int));
            assert(rest@ =~= old(self).lines()[y as int].skip(x as int));
            lemma_lines_of_update(old(self).buffer@, y as int, self.buffer@[y as int]);
        }
        let ghost mid = self.buffer@;
        let n = self.buffer.len();
        assert(y < n);
        self.buffer.insert(y + 1, rest);
        proof {
            lemma_lines_of_insert(mid, y as int + 1, self.buffer@[y as int + 1]);
            assert(self.lines() =~= split_line_spec(old(self).lines(), x as int, y as int).0);
        }
        self.cursor_position.x = 0;
        self.cursor_position.y = y + 1;
    }

    /// Backspace. With the cursor past column 0 it deletes the character to
    /// the cursor's left; at column 0 of any line but the first it merges the
    /// cursor's line onto the end of the previous one; at the origin it does
    /// nothing, leaving buffer and cursor unchanged.
    pub fn backspace(&mut self)
        requires
            old(self).wf(),
        ensures
            final(self).wf(),
            final(self).lines() == backspace_spec(
                old(self).lines(),
                old(self).cursor_position.x as int,
                old(self).cursor_position.y as int,
            ).0,
            final(self).cursor_position.x as int == backspace_spec(
                old(self).lines(),
                old(self).cursor_position.x as int,
                old(self).cursor_position.y as int,
            ).1,
            final(self).cursor_position.y as int == backspace_spec(
                old(self).lines(),
                old(self).cursor_position.x as int,
                old(self).cursor_position.y as int,
            ).2,
            old(self).cursor_position.x == 0 && old(self).cursor_position.y == 0 ==> *final(self)
                == *old(self),
            final(self).filename == old(self).filename,
            final(self).modified == old(self).modified,
            final(self).viewport_start == old(self).viewport_start,
    {
        let x = self.cursor_position.x;
        let y = self.cursor_position.y;
        if x > 0 {
            self.buffer[y].remove(x - 1);
            proof {
                lemma_lines_of_update(old(self).buffer@, y as int, self.buffer@[y as int]);
                assert(self.lines() =~= backspace_spec(old(self).lines(), x as int, y as int).0);
            }
            self.cursor_position.x = x - 1;
        } else if y > 0 {
            let prev_len = self.buffer[y - 1].len();
            let mut current = self.buffer.remove(y);
            proof {
                lemma_lines_of_remove(old(self).buffer@, y as int);
            }
            let ghost mid = self.buffer@;
            self.buffer[y - 1].append(&mut current);
            proof {
                lemma_lines_of_update(mid, y as int - 1, self.buffer@[y as int - 1]);
                assert(self.lines() =~= backspace_spec(old(self).lines(), x as int, y as int).0);
            }
            self.cursor_position.y = y - 1;
            self.cursor_position.x = prev_len;
        }
    }

    /// The buffer joined into flat file text: lines separated by a newline,
    /// with no separator after the last line.
    pub fn serialize(&self) -> (out: Vec<char>)
        ensures
            out@ == crate::codec::serialize_spec(self.lines()),
    {
        crate::codec::serialize(&self.buffer)
    }

    /// Replaces the buffer with the lines of `text`, records `name` as the
    /// file name, clears the dirty flag, and puts the cursor back at the
    /// origin. The viewport is left alone; callers reconcile it afterwards.
    pub fn load_text(&mut self, name: Vec<char>, text: &Vec<char>)
        ensures
            final(self).wf(),
            final(self).lines() == crate::codec::load_spec(text@),
            final(self).cursor_position.x == 0,
            final(self).cursor_position.y == 0,
            final(self).filename == Some(name),
            !final(self).modified,
            final(self).viewport_start == old(self).viewport_start,
    {
        self.buffer = crate::codec::load(text);
        self.cursor_position = CursorPosition::new();
        self.filename = Some(name);
        self.modified = false;
    }

    /// Moves the cursor one column left, clamping at column 0.
    pub fn move_left(&mut self)
        requires
            old(self).wf(),
        ensures
            final(self).wf(),
            final(self).cursor_position.x as int == move_left_spec(old(self).cursor_position.x as int),
            final(self).cursor_position.y == old(self).cursor_position.y,
            final(self).buffer == old(self).buffer,
            final(self).filename == old(self).filename,
            final(self).modified == old(self).modified,
            final(self).viewport_start == old(self).viewport_start,
    {
        if self.cursor_position.x > 0 {
            self.cursor_position.x = self.cursor_position.x - 1;
        }
    }

    /// Moves the cursor one column right, clamping at the line's length.
    pub fn move_right(&mut self)
        requires
            old(self).wf(),
        ensures
            final(self).wf(),
            final(self).cursor_position.x as int == move_right_spec(
                old(self).lines(),
                old(self).cursor_position.x as int,
                old(self).cursor_position.y as int,
            ),
            final(self).cursor_position.y == old(self).cursor_position.y,
            final(self).buffer == old(self).buffer,
            final(self).filename == old(self).filename,
            final(self).modified == old(self).modified,
            final(self).viewport_start == old(self).viewport_start,
    {
        let y = self.cursor_position.y;
        if self.cursor_position.x < self.buffer[y].len() {
            self.cursor_position.x = self.cursor_position.x + 1;
        }
    }

    /// Moves the cursor one row up, clamping the column to the target line's
    /// length; at the first row nothing changes.
    pub fn move_up(&mut self)
        requires
            old(self).wf(),
        ensures
            final(self).wf(),
            final(self).cursor_position.x as int == move_up_spec(
                old(self).lines(),
                old(self).cursor_position.x as int,
                old(self).cursor_position.y as int,
            ).0,
            final(self).cursor_position.y as int == move_up_spec(
                old(self).lines(),
                old(self).cursor_position.x as int,
                old(self).cursor_position.y as int,
            ).1,
            final(self).cursor_position.x <= final(self).lines()[final(self).cursor_position.y as int].len(),
            final(self).buffer == old(self).buffer,
            final(self).filename == old(self).filename,
            final(self).modified == old(self).modified,
            final(self).viewport_start == old(self).viewport_start,
    {
        let y = self.cursor_position.y;
        if y > 0 {
            let prev_len = self.buffer[y - 1].len();
            if self.cursor_position.x > prev_len {
                self.cursor_position.x = prev_len;
            }
            self.cursor_position.y = y - 1;
        }
    }

    /// Moves the cursor one row down, clamping the column to the target
    /// line's length; at the last row nothing changes.
    pub fn move_down(&mut self)
        requires
            old(self).wf(),
        ensures
            final(self).wf(),
            final(self).cursor_position.x as int == move_down_spec(
                old(self).lines(),
                old(self).cursor_position.x as int,
                old(self).cursor_position.y as int,
            ).0,
            final(self).cursor_position.y as int == move_down_spec(
                old(self).lines(),
                old(self).cursor_position.x as int,
                old(self).cursor_position.y as int,
            ).1,
            final(self).cursor_position.x <= final(self).lines()[final(self).cursor_position.y as int].len(),
            final(self).buffer == old(self).buffer,
            final(self).filename == old(self).filename,
            final(self).modified == old(self).modified,
            final(self).viewport_start == old(self).viewport_start,
    {
        let y = self.cursor_position.y;
        if y < self.buffer.len() - 1 {
            let next_len = self.buffer[y + 1].len();
            if self.cursor_position.x > next_len {
                self.cursor_position.x = next_len;
            }
            self.cursor_position.y = y + 1;
        }
    }
}

/// Updating one element of the underlying vector updates exactly that line.
proof fn lemma_lines_of_update(b: Seq<Vec<char>>, i: int, v: Vec<char>)
    requires
        0 <= i < b.len(),
    ensures
        lines_of(b.update(i, v)) == lines_of(b).update(i, v@),
{
    assert(lines_of(b.update(i, v)) =~= lines_of(b).update(i, v@));
}

/// Inserting an element into the underlying vector inserts exactly that line.
proof fn lemma_lines_of_insert(b: Seq<Vec<char>>, i: int, v: Vec<char>)
    requires
        0 <= i <= b.len(),
    ensures
        lines_of(b.insert(i, v)) == lines_of(b).insert(i, v@),
{
    assert(lines_of(b.insert(i, v)) =~= lines_of(b).insert(i, v@));
}

/// Removing an element from the underlying vector removes exactly that line.
proof fn lemma_lines_of_remove(b: Seq<Vec<char>>, i: int)
    requires
        0 <= i < b.len(),
    ensures
        lines_of(b.remove(i)) == lines_of(b).remove(i),
{
    assert(lines_of(b.remove(i)) =~= lines_of(b).remove(i));
}

/// Splitting a line and then backspacing at the resulting cursor restores
/// the original buffer and cursor exactly: the column-0 merge is the inverse
/// of the split when no other edit intervenes.
pub proof fn lemma_split_then_backspace_restores(b: Seq<Seq<char>>, x: int, y: int)
    requires
        cursor_valid(b, x, y),
    ensures
        backspace_spec(
            split_line_spec(b, x, y).0,
            split_line_spec(b, x, y).1,
            split_line_spec(b, x, y).2,
        ) == (b, x, y),
{
    let b1 = split_line_spec(b, x, y).0;
    assert(b1[y] == b[y].take(x));
    assert(b1[y + 1] == b[y].skip(x));
    assert(b[y].take(x) + b[y].skip(x) =~= b[y]);
    assert(backspace_spec(b1, 0, y + 1).0 =~= b);
    assert(backspace_spec(b1, 0, y + 1).1 == x);
}

} // verus!
