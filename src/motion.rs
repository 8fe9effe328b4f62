//! Cursor motions, each clamped by the mode's rule.

use vstd::prelude::*;
use crate::editor::{Editor, Mode};
use crate::text::{is_word_char, word_char};

verus! {

/// Column reached from `x` by skipping the run of characters whose
/// word-ness is `word`.
pub open spec fn skip_run(line: Seq<char>, x: int, word: bool) -> int
    decreases line.len() - x,
{
    if 0 <= x < line.len() && is_word_char(line[x]) == word {
        skip_run(line, x + 1, word)
    } else {
        x
    }
}

/// Column reached from `x` by stepping left over separators.
pub open spec fn back_over_separators(line: Seq<char>, x: int) -> int
    decreases x,
{
    if 0 < x < line.len() && !is_word_char(line[x]) {
        back_over_separators(line, x - 1)
    } else {
        x
    }
}

/// Column reached from `x` by stepping left while the previous character is
/// a word character.
pub open spec fn back_to_word_start(line: Seq<char>, x: int) -> int
    decreases x,
{
    if 0 < x <= line.len() && is_word_char(line[x - 1]) {
        back_to_word_start(line, x - 1)
    } else {
        x
    }
}

/// Column reached from `x` by stepping right while on a word character,
/// stopping at the last column.
pub open spec fn forward_to_word_end(line: Seq<char>, x: int) -> int
    decreases line.len() - x,
{
    if 0 <= x && x + 1 < line.len() && is_word_char(line[x]) {
        forward_to_word_end(line, x + 1)
    } else {
        x
    }
}

impl Editor {
    pub open spec fn spec_move_left(a: Editor, b: Editor) -> bool {
        if a.cursor_x > 0 {
            Self::moved_to(a, b, a.cursor_y as int, a.cursor_x - 1)
        } else if a.cursor_y > 0 && a.crosses_lines() {
            Self::moved_to(a, b, a.cursor_y - 1, a.text()[a.cursor_y - 1].len() as int)
        } else {
            Self::moved_to(a, b, a.cursor_y as int, a.cursor_x as int)
        }
    }

    /// One column left; at the start of a line, to the end of the previous
    /// one where motions cross lines.
    pub fn move_left(&mut self)
        requires
            old(self).wf(),
        ensures
            final(self).wf(),
            Self::spec_move_left(*old(self), *final(self)),
    {
        if self.cursor_x > 0 {
            self.cursor_x -= 1;
        } else if self.cursor_y > 0 && (self.mode == Mode::Insert || !self.config.vim_bindings) {
            self.cursor_y -= 1;
            self.cursor_x = self.current_line().len();
        }
        self.dirty = true;
    }

    pub open spec fn spec_move_right(a: Editor, b: Editor) -> bool {
        if a.cursor_x < a.limit(a.line().len() as int) {
            Self::moved_to(a, b, a.cursor_y as int, a.cursor_x + 1)
        } else if a.cursor_y + 1 < a.buffer.len() && a.crosses_lines() {
            Self::moved_to(a, b, a.cursor_y + 1, 0)
        } else {
            Self::moved_to(a, b, a.cursor_y as int, a.cursor_x as int)
        }
    }

    /// One column right, within the clamp; at the end of a line, to the
    /// start of the next one where motions cross lines.
    pub fn move_right(&mut self)
        requires
            old(self).wf(),
        ensures
            final(self).wf(),
            Self::spec_move_right(*old(self), *final(self)),
    {
        let line_len = self.current_line().len();
        let max_x = self.max_col(line_len);
        if self.cursor_x < max_x {
            self.cursor_x += 1;
        } else if self.cursor_y < self.buffer.len() - 1 && (self.mode == Mode::Insert
            || !self.config.vim_bindings) {
            self.cursor_y += 1;
            self.cursor_x = 0;
        }
        self.dirty = true;
    }

    /// The column kept on arrival at row `y`: the old one, clamped.
    pub open spec fn clamped_col(&self, y: int) -> int {
        let lim = self.limit(self.text()[y].len() as int);
        if self.cursor_x <= lim {
            self.cursor_x as int
        } else {
            lim
        }
    }

    /// Puts the cursor on row `y`, clamping its column.
    fn go_to_row(&mut self, y: usize)
        requires
            old(self).wf(),
            y < old(self).buffer.len(),
        ensures
            final(self).wf(),
            Self::moved_to(*old(self), *final(self), y as int, old(self).clamped_col(y as int)),
    {
        self.cursor_y = y;
        let line_len = self.current_line().len();
        let max_x = self.max_col(line_len);
        if self.cursor_x > max_x {
            self.cursor_x = max_x;
        }
        self.dirty = true;
    }

    pub open spec fn spec_move_up(a: Editor, b: Editor) -> bool {
        if a.cursor_y > 0 {
            Self::moved_to(a, b, a.cursor_y - 1, a.clamped_col(a.cursor_y - 1))
        } else {
            b == a
        }
    }

    /// One line up, keeping the column where the clamp allows.
    pub fn move_up(&mut self)
        requires
            old(self).wf(),
        ensures
            final(self).wf(),
            Self::spec_move_up(*old(self), *final(self)),
    {
        if self.cursor_y > 0 {
            let y = self.cursor_y - 1;
            self.go_to_row(y);
        }
    }

    pub open spec fn spec_move_down(a: Editor, b: Editor) -> bool {
        if a.cursor_y + 1 < a.buffer.len() {
            Self::moved_to(a, b, a.cursor_y + 1, a.clamped_col(a.cursor_y + 1))
        } else {
            b == a
        }
    }

    /// One line down, keeping the column where the clamp allows.
    pub fn move_down(&mut self)
        requires
            old(self).wf(),
        ensures
            final(self).wf(),
            Self::spec_move_down(*old(self), *final(self)),
    {
        if self.cursor_y < self.buffer.len() - 1 {
            let y = self.cursor_y + 1;
            self.go_to_row(y);
        }
    }

    /// To the first column.
    pub fn move_home(&mut self)
        requires
            old(self).wf(),
        ensures
            final(self).wf(),
            Self::moved_to(*old(self), *final(self), old(self).cursor_y as int, 0),
    {
        self.cursor_x = 0;
        self.dirty = true;
    }

    /// To the last column the clamp allows.
    pub fn move_end(&mut self)
        requires
            old(self).wf(),
        ensures
            final(self).wf(),
            Self::moved_to(
                *old(self),
                *final(self),
                old(self).cursor_y as int,
                old(self).limit(old(self).line().len() as int),
            ),
    {
        let line_len = self.current_line().len();
        self.cursor_x = self.max_col(line_len);
        self.dirty = true;
    }

    pub open spec fn spec_page_up(a: Editor, b: Editor) -> bool {
        let y = if a.cursor_y >= a.page() {
            a.cursor_y - a.page()
        } else {
            0
        };
        Self::moved_to(a, b, y, a.clamped_col(y))
    }

    /// One screen up, stopping at the first line.
    pub fn page_up(&mut self)
        requires
            old(self).wf(),
        ensures
            final(self).wf(),
            Self::spec_page_up(*old(self), *final(self)),
    {
        let page_size = (self.terminal_height - 2) as usize;
        let y = if self.cursor_y >= page_size {
            self.cursor_y - page_size
        } else {
            0
        };
        self.go_to_row(y);
    }

    pub open spec fn spec_page_down(a: Editor, b: Editor) -> bool {
        let y = if a.cursor_y + a.page() < a.buffer.len() {
            a.cursor_y + a.page()
        } else {
            a.buffer.len() - 1
        };
        Self::moved_to(a, b, y, a.clamped_col(y))
    }

    /// One screen down, stopping at the last line.
    pub fn page_down(&mut self)
        requires
            old(self).wf(),
        ensures
            final(self).wf(),
            Self::spec_page_down(*old(self), *final(self)),
    {
        let page_size = (self.terminal_height - 2) as usize;
        let last = self.buffer.len() - 1;
        let y = if last - self.cursor_y > page_size {
            self.cursor_y + page_size
        } else {
            last
        };
        self.go_to_row(y);
    }

    /// To the first line (Normal-mode `g`).
    pub fn move_first_line(&mut self)
        requires
            old(self).wf(),
        ensures
            final(self).wf(),
            Self::moved_to(*old(self), *final(self), 0, 0),
    {
        self.cursor_y = 0;
        self.cursor_x = 0;
        self.dirty = true;
    }

    /// To the start of the last line (Normal-mode `G`).
    pub fn move_last_line(&mut self)
        requires
            old(self).wf(),
        ensures
            final(self).wf(),
            Self::moved_to(*old(self), *final(self), old(self).buffer.len() - 1, 0),
    {
        self.cursor_y = self.buffer.len() - 1;
        self.cursor_x = 0;
        self.dirty = true;
    }

    pub open spec fn spec_word_forward(a: Editor, b: Editor) -> bool {
        let line = a.line();
        let x = skip_run(line, skip_run(line, a.cursor_x as int, true), false);
        if x < line.len() {
            Self::moved_to(a, b, a.cursor_y as int, x)
        } else if a.cursor_y + 1 < a.buffer.len() {
            Self::moved_to(a, b, a.cursor_y + 1, 0)
        } else {
            Self::moved_to(a, b, a.cursor_y as int, a.cursor_x as int)
        }
    }

    /// To the start of the next word: past the rest of the current word and
    /// the separators after it; to the next line when the line has none.
    pub fn move_word_forward(&mut self)
        requires
            old(self).wf(),
        ensures
            final(self).wf(),
            Self::spec_word_forward(*old(self), *final(self)),
    {
        let line = self.current_line();
        let mut x = self.cursor_x;
        while x < line.len() && word_char(line[x])
            invariant
                line@ == old(self).line(),
                old(self).cursor_x <= x <= line.len(),
                skip_run(line@, x as int, true) == skip_run(line@, old(self).cursor_x as int, true),
            decreases line.len() - x,
        {
            x += 1;
        }
        let ghost mid = x as int;
        while x < line.len() && !word_char(line[x])
            invariant
                line@ == old(self).line(),
                mid <= x <= line.len(),
                skip_run(line@, x as int, false) == skip_run(line@, mid, false),
            decreases line.len() - x,
        {
            x += 1;
        }
        if x < line.len() {
            self.cursor_x = x;
        } else if self.cursor_y < self.buffer.len() - 1 {
            self.cursor_y += 1;
            self.cursor_x = 0;
        }
        self.dirty = true;
    }

    pub open spec fn spec_word_backward(a: Editor, b: Editor) -> bool {
        if a.cursor_x == 0 {
            if a.cursor_y > 0 {
                let len = a.text()[a.cursor_y - 1].len() as int;
                Self::moved_to(a, b, a.cursor_y - 1, if len > 0 { len - 1 } else { 0 })
            } else {
                b == a
            }
        } else {
            let line = a.line();
            Self::moved_to(
                a,
                b,
                a.cursor_y as int,
                back_to_word_start(line, back_over_separators(line, a.cursor_x - 1)),
            )
        }
    }

    /// To the start of the previous word; from the first column, to the last
    /// character of the previous line.
    pub fn move_word_backward(&mut self)
        requires
            old(self).wf(),
        ensures
            final(self).wf(),
            Self::spec_word_backward(*old(self), *final(self)),
    {
        if self.cursor_x == 0 {
            if self.cursor_y > 0 {
                self.cursor_y -= 1;
                self.cursor_x = self.current_line().len();
                if self.cursor_x > 0 {
                    self.cursor_x -= 1;
                }
                self.dirty = true;
            }
            return;
        }
        let line = self.current_line();
        let mut x = self.cursor_x - 1;
        while x > 0 && !word_char(line[x])
            invariant
                line@ == old(self).line(),
                x < line.len(),
                back_over_separators(line@, x as int) == back_over_separators(
                    line@,
                    old(self).cursor_x - 1,
                ),
            decreases x,
        {
            x -= 1;
        }
        let ghost mid = x as int;
        while x > 0 && word_char(line[x - 1])
            invariant
                line@ == old(self).line(),
                x <= mid < line.len(),
                back_to_word_start(line@, x as int) == back_to_word_start(line@, mid),
            decreases x,
        {
            x -= 1;
        }
        self.cursor_x = x;
        self.dirty = true;
    }

    pub open spec fn spec_word_end(a: Editor, b: Editor) -> bool {
        let line = a.line();
        if a.cursor_x + 1 < line.len() {
            Self::moved_to(a, b, a.cursor_y as int, forward_to_word_end(line, a.cursor_x + 1))
        } else if a.cursor_y + 1 < a.buffer.len() {
            Self::moved_to(a, b, a.cursor_y + 1, 0)
        } else {
            Self::moved_to(a, b, a.cursor_y as int, a.cursor_x as int)
        }
    }

    /// To the end of the next word: one step right, then on through word
    /// characters, never past the last column; at the line's end, to the
    /// next line.
    pub fn move_word_end(&mut self)
        requires
            old(self).wf(),
        ensures
            final(self).wf(),
            Self::spec_word_end(*old(self), *final(self)),
    {
        let line = self.current_line();
        let mut x = self.cursor_x;
        if x < line.len() && x + 1 < line.len() {
            x += 1;
            while x + 1 < line.len() && word_char(line[x])
                invariant
                    line@ == old(self).line(),
                    1 <= x < line.len(),
                    forward_to_word_end(line@, x as int) == forward_to_word_end(
                        line@,
                        old(self).cursor_x + 1,
                    ),
                decreases line.len() - x,
            {
                x += 1;
            }
            self.cursor_x = x;
        } else if self.cursor_y < self.buffer.len() - 1 {
            self.cursor_y += 1;
            self.cursor_x = 0;
        }
        self.dirty = true;
    }
}

} // verus!
