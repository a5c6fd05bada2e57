//! The multi-line text buffer behind the headers and body fields: an
//! ordered sequence of line strings with a (line, column) cursor.
//!
//! Every operation keeps the cursor inside the buffer: the cursor line
//! stays below the line count and the cursor column stays at or below
//! the length of the current line.

use vstd::prelude::*;
use crate::text;

verus! {

/// Ghost model of a buffer: line contents and cursor position.
#[verifier::ext_equal]
pub ghost struct BufModel {
    pub lines: Seq<Seq<char>>,
    pub line: int,
    pub col: int,
}

impl BufModel {
    /// The cursor bound invariant: at least one line, the cursor line in
    /// range, and the cursor column at most the current line's length.
    pub open spec fn wf(self) -> bool {
        &&& self.lines.len() >= 1
        &&& 0 <= self.line < self.lines.len()
        &&& 0 <= self.col <= self.lines[self.line].len()
    }

    /// Inserting is also allowed from a cursor line one past the end,
    /// at column zero: the buffer then grows a fresh empty line first.
    pub open spec fn insert_ok(self) -> bool {
        if self.line < self.lines.len() {
            0 <= self.col <= self.lines[self.line].len()
        } else {
            self.col == 0
        }
    }
}

/// Effect of inserting one character at the cursor.
pub open spec fn insert_model(m: BufModel, c: char) -> BufModel {
    if 0 <= m.line < m.lines.len() {
        let l = m.lines[m.line];
        BufModel {
            lines: m.lines.update(
                m.line,
                l.subrange(0, m.col) + seq![c] + l.subrange(m.col, l.len() as int),
            ),
            line: m.line,
            col: m.col + 1,
        }
    } else {
        BufModel { lines: m.lines + seq![seq![c]], line: m.lines.len() as int, col: 1 }
    }
}

/// Effect of a backspace: removes the character before the cursor, or
/// joins the current line onto the previous one when the cursor is at
/// column zero, or does nothing at the very start of the buffer.
pub open spec fn backspace_model(m: BufModel) -> BufModel {
    if m.col > 0 {
        let l = m.lines[m.line];
        BufModel {
            lines: m.lines.update(
                m.line,
                l.subrange(0, m.col - 1) + l.subrange(m.col, l.len() as int),
            ),
            line: m.line,
            col: m.col - 1,
        }
    } else if m.line > 0 {
        let cur = m.lines[m.line];
        let prev = m.lines[m.line - 1];
        BufModel {
            lines: m.lines.remove(m.line).update(m.line - 1, prev + cur),
            line: m.line - 1,
            col: prev.len() as int,
        }
    } else {
        m
    }
}

/// Effect of splitting the current line at the cursor.
pub open spec fn split_model(m: BufModel) -> BufModel {
    let l = m.lines[m.line];
    BufModel {
        lines: m.lines.update(m.line, l.subrange(0, m.col)).insert(
            m.line + 1,
            l.subrange(m.col, l.len() as int),
        ),
        line: m.line + 1,
        col: 0,
    }
}

/// Effect of moving the cursor up one line; the column is clamped to
/// the new line's length, never remembered across shorter lines.
pub open spec fn move_up_model(m: BufModel) -> BufModel {
    if m.line > 0 {
        let target = m.lines[m.line - 1];
        BufModel {
            lines: m.lines,
            line: m.line - 1,
            col: if m.col <= target.len() {
                m.col
            } else {
                target.len() as int
            },
        }
    } else {
        m
    }
}

/// Effect of moving the cursor down one line, with the same clamping.
pub open spec fn move_down_model(m: BufModel) -> BufModel {
    if m.line + 1 < m.lines.len() {
        let target = m.lines[m.line + 1];
        BufModel {
            lines: m.lines,
            line: m.line + 1,
            col: if m.col <= target.len() {
                m.col
            } else {
                target.len() as int
            },
        }
    } else {
        m
    }
}

/// Effect of moving left within the current line; never wraps to the
/// previous line.
pub open spec fn move_left_model(m: BufModel) -> BufModel {
    if m.col > 0 {
        BufModel { lines: m.lines, line: m.line, col: m.col - 1 }
    } else {
        m
    }
}

/// Effect of moving right within the current line; never wraps to the
/// next line.
pub open spec fn move_right_model(m: BufModel) -> BufModel {
    if m.col < m.lines[m.line].len() {
        BufModel { lines: m.lines, line: m.line, col: m.col + 1 }
    } else {
        m
    }
}

/// A multi-line text buffer with a (line, column) cursor.
#[derive(Clone, Debug)]
pub struct MultiLineBuffer {
    pub lines: Vec<String>,
    pub cursor_line: usize,
    pub cursor_col: usize,
}

impl MultiLineBuffer {
    /// The buffer's ghost model.
    pub open spec fn model(self) -> BufModel {
        BufModel {
            lines: text::views_of(self.lines@),
            line: self.cursor_line as int,
            col: self.cursor_col as int,
        }
    }

    pub open spec fn wf(self) -> bool {
        self.model().wf()
    }

    /// A buffer holding one empty line, cursor at the start.
    pub fn new() -> (r: MultiLineBuffer)
        ensures
            r.model().lines =~= seq![Seq::<char>::empty()],
            r.model().line == 0,
            r.model().col == 0,
            r.wf(),
    {
        let mut lines: Vec<String> = Vec::new();
        lines.push(String::new());
        let r = MultiLineBuffer { lines, cursor_line: 0, cursor_col: 0 };
        proof {
            assert(r.model().lines =~= seq![Seq::<char>::empty()]);
        }
        r
    }

    /// Replace the line at `i` with `l`.
    fn set_line(&mut self, i: usize, l: String)
        requires
            (i as int) < old(self).lines@.len(),
        ensures
            final(self).lines@ == old(self).lines@.update(i as int, l),
            final(self).cursor_line == old(self).cursor_line,
            final(self).cursor_col == old(self).cursor_col,
    {
        self.lines.remove(i);
        self.lines.insert(i, l);
        proof {
            assert(final(self).lines@ =~= old(self).lines@.update(i as int, l));
        }
    }

    /// Insert one character at the cursor, moving the cursor past it.
    /// A cursor line beyond the end is first normalized onto a fresh
    /// empty line.
    pub fn insert_char(&mut self, c: char)
        requires
            old(self).model().insert_ok(),
        ensures
            final(self).model() == insert_model(old(self).model(), c),
            final(self).wf(),
    {
        if self.cursor_line >= self.lines.len() {
            self.lines.push(String::new());
            self.cursor_line = self.lines.len() - 1;
        }
        let updated = text::insert_char_at(self.lines[self.cursor_line].as_str(), self.cursor_col, c);
        // The longer line fits in usize, so the cursor bump cannot overflow.
        let n = text::char_count(updated.as_str());
        let cl = self.cursor_line;
        self.set_line(cl, updated);
        self.cursor_col = self.cursor_col + 1;
        proof {
            assert(final(self).model().lines =~= insert_model(old(self).model(), c).lines);
            assert(final(self).model() =~= insert_model(old(self).model(), c));
        }
    }

    /// Backspace at the cursor: remove the character before it, or join
    /// this line onto the previous one at column zero, or do nothing at
    /// the very start.
    pub fn backspace(&mut self)
        requires
            old(self).wf(),
        ensures
            final(self).model() == backspace_model(old(self).model()),
            final(self).wf(),
    {
        if self.cursor_col > 0 {
            let updated = text::remove_char_at(
                self.lines[self.cursor_line].as_str(),
                self.cursor_col - 1,
            );
            let cl = self.cursor_line;
            self.set_line(cl, updated);
            self.cursor_col = self.cursor_col - 1;
            proof {
                assert(final(self).model().lines =~= backspace_model(old(self).model()).lines);
                assert(final(self).model() =~= backspace_model(old(self).model()));
            }
        } else if self.cursor_line > 0 {
            let cur = self.lines.remove(self.cursor_line);
            self.cursor_line = self.cursor_line - 1;
            let prev_len = text::char_count(self.lines[self.cursor_line].as_str());
            self.cursor_col = prev_len;
            let mut joined = self.lines[self.cursor_line].clone();
            joined.append(cur.as_str());
            let cl = self.cursor_line;
            self.set_line(cl, joined);
            proof {
                assert(final(self).model().lines =~= backspace_model(old(self).model()).lines);
                assert(final(self).model() =~= backspace_model(old(self).model()));
            }
        }
    }

    /// Split the current line at the cursor: the text after the cursor
    /// becomes a new line right below, and the cursor moves to its
    /// start.
    pub fn split_line(&mut self)
        requires
            old(self).wf(),
        ensures
            final(self).model() == split_model(old(self).model()),
            final(self).wf(),
    {
        // Reading the length bounds the cursor line, so moving it down fits.
        let nlines = self.lines.len();
        let line = self.lines[self.cursor_line].clone();
        let n = text::char_count(line.as_str());
        let head = String::from_str(line.as_str().substring_char(0, self.cursor_col));
        let tail = String::from_str(line.as_str().substring_char(self.cursor_col, n));
        let cl = self.cursor_line;
        self.set_line(cl, head);
        self.lines.insert(cl + 1, tail);
        self.cursor_line = cl + 1;
        self.cursor_col = 0;
        proof {
            assert(final(self).model().lines =~= split_model(old(self).model()).lines);
            assert(final(self).model() =~= split_model(old(self).model()));
        }
    }

    /// Move the cursor up one line, clamping the column.
    pub fn move_up(&mut self)
        requires
            old(self).wf(),
        ensures
            final(self).model() == move_up_model(old(self).model()),
            final(self).wf(),
    {
        if self.cursor_line > 0 {
            self.cursor_line = self.cursor_line - 1;
            let n = text::char_count(self.lines[self.cursor_line].as_str());
            if self.cursor_col > n {
                self.cursor_col = n;
            }
            proof {
                assert(final(self).model() =~= move_up_model(old(self).model()));
            }
        }
    }

    /// Move the cursor down one line, clamping the column.
    pub fn move_down(&mut self)
        requires
            old(self).wf(),
        ensures
            final(self).model() == move_down_model(old(self).model()),
            final(self).wf(),
    {
        let nlines = self.lines.len();
        if self.cursor_line + 1 < nlines {
            self.cursor_line = self.cursor_line + 1;
            let n = text::char_count(self.lines[self.cursor_line].as_str());
            if self.cursor_col > n {
                self.cursor_col = n;
            }
            proof {
                assert(final(self).model() =~= move_down_model(old(self).model()));
            }
        }
    }

    /// Move the cursor left within the current line.
    pub fn move_left(&mut self)
        requires
            old(self).wf(),
        ensures
            final(self).model() == move_left_model(old(self).model()),
            final(self).wf(),
    {
        if self.cursor_col > 0 {
            self.cursor_col = self.cursor_col - 1;
        }
        proof {
            assert(final(self).model() =~= move_left_model(old(self).model()));
        }
    }

    /// Move the cursor right within the current line.
    pub fn move_right(&mut self)
        requires
            old(self).wf(),
        ensures
            final(self).model() == move_right_model(old(self).model()),
            final(self).wf(),
    {
        let n = text::char_count(self.lines[self.cursor_line].as_str());
        if self.cursor_col < n {
            self.cursor_col = self.cursor_col + 1;
        }
        proof {
            assert(final(self).model() =~= move_right_model(old(self).model()));
        }
    }
}

/// Law: every buffer operation preserves the cursor bound invariant, so
/// it holds after any sequence of operations that starts from a
/// well-formed buffer.
pub proof fn lemma_ops_preserve_wf(m: BufModel, c: char)
    requires
        m.wf(),
    ensures
        insert_model(m, c).wf(),
        backspace_model(m).wf(),
        split_model(m).wf(),
        move_up_model(m).wf(),
        move_down_model(m).wf(),
        move_left_model(m).wf(),
        move_right_model(m).wf(),
{
}

/// Law: splitting at the cursor and then backspacing at the start of
/// the new line restores the original lines and cursor position, for
/// every well-formed buffer.
pub proof fn lemma_split_then_backspace(m: BufModel)
    requires
        m.wf(),
    ensures
        backspace_model(split_model(m)) == m,
{
    let l = m.lines[m.line];
    let head = l.subrange(0, m.col);
    let tail = l.subrange(m.col, l.len() as int);
    let s = split_model(m);
    assert(s.lines[s.line] == tail);
    assert(s.lines[s.line - 1] == head);
    let b = backspace_model(s);
    assert(b.lines =~= s.lines.remove(s.line).update(m.line, head + tail));
    assert(s.lines.remove(s.line) =~= m.lines.update(m.line, head));
    assert(head + tail =~= l);
    assert(b.lines =~= m.lines);
    assert(b =~~= m);
}

} // verus!
