//! The viewport and the frame that a render pass draws.

use vstd::prelude::*;
use crate::edit::copy_line;
use crate::editor::{Editor, Mode};
use crate::text::text_words;

verus! {

/// New scroll offset along one axis: the smallest shift of `offset` that
/// brings `pos` into a window of `size` cells.
pub open spec fn scroll(offset: int, pos: int, size: int) -> int {
    if pos < offset {
        pos
    } else if pos >= offset + size {
        pos - size + 1
    } else {
        offset
    }
}

/// A possibly absent line's contents.
pub open spec fn opt_view(o: Option<Vec<char>>) -> Option<Seq<char>> {
    match o {
        Some(v) => Some(v@),
        None => None,
    }
}

/// The smaller of two integers.
pub open spec fn min_int(a: int, b: int) -> int {
    if a <= b {
        a
    } else {
        b
    }
}

/// Daily word goal.
pub const WORD_GOAL: usize = 500;

/// How far the document is from the daily word goal.
#[derive(Clone, Copy, Debug, PartialEq, Eq, Structural)]
pub enum Goal {
    Below,
    Near,
    Reached,
}

/// What one draw pass puts on the screen.
pub struct Frame {
    /// One entry per text row of the screen: the visible part of a line, or
    /// `None` past the end of the document.
    pub rows: Vec<Option<Vec<char>>>,
    pub cursor_row: usize,
    pub cursor_col: usize,
    pub word_count: usize,
    /// Share of the word goal reached, in percent, at most 100.
    pub progress: usize,
    pub goal: Goal,
    pub typing_minutes: u64,
    pub mode: Mode,
    /// The command line, shown in Command mode.
    pub command_line: Option<Vec<char>>,
}

/// Two render passes with no change in between: the second draws nothing
/// and leaves the editor as the first left it; the first draws whenever the
/// screen was stale.
pub proof fn render_draws_once(e0: Editor, e1: Editor, r1: Option<Frame>, e2: Editor, r2: Option<Frame>)
    requires
        Editor::spec_render(e0, e1, r1),
        Editor::spec_render(e1, e2, r2),
    ensures
        e0.dirty ==> r1.is_some(),
        r2.is_none(),
        e2 == e1,
{
}

impl Editor {
    /// The editor with its offsets scrolled to show the cursor.
    pub open spec fn scrolled(self) -> Editor {
        Editor {
            offset_y: scroll(self.offset_y as int, self.cursor_y as int, self.page()) as usize,
            offset_x: scroll(self.offset_x as int, self.cursor_x as int, self.terminal_width as int) as usize,
            ..self
        }
    }

    /// Scrolls the viewport so that the cursor is on screen, as little as
    /// possible.
    pub fn update_offset(&mut self)
        requires
            old(self).wf(),
        ensures
            final(self).wf(),
            *final(self) == old(self).scrolled(),
            final(self).offset_y <= final(self).cursor_y < final(self).offset_y + final(self).page(),
            final(self).offset_x <= final(self).cursor_x < final(self).offset_x + final(self).terminal_width,
    {
        let visible_height = (self.terminal_height - 2) as usize;
        if self.cursor_y < self.offset_y {
            self.offset_y = self.cursor_y;
        } else if self.cursor_y - self.offset_y >= visible_height {
            self.offset_y = self.cursor_y - visible_height + 1;
        }
        let visible_width = self.terminal_width as usize;
        if self.cursor_x < self.offset_x {
            self.offset_x = self.cursor_x;
        } else if self.cursor_x - self.offset_x >= visible_width {
            self.offset_x = self.cursor_x - visible_width + 1;
        }
    }

    /// What screen row `r` shows.
    pub open spec fn row_view(&self, r: int) -> Option<Seq<char>> {
        let y = self.offset_y + r;
        if y < self.buffer.len() {
            let line = self.text()[y];
            Some(
                line.subrange(
                    min_int(self.offset_x as int, line.len() as int),
                    min_int(self.offset_x + self.terminal_width, line.len() as int),
                ),
            )
        } else {
            None
        }
    }

    /// The word count as the status line shows it.
    pub open spec fn shown_words(&self) -> int {
        min_int(text_words(self.text()) as int, usize::MAX as int)
    }

    /// Whether `f` is the frame that the editor, already scrolled, draws.
    pub open spec fn frame_of(self, f: Frame) -> bool {
        let words = self.shown_words();
        &&& f.rows@.len() == self.page()
        &&& forall|r: int| 0 <= r < self.page() ==> #[trigger] opt_view(f.rows@[r]) == self.row_view(r)
        &&& f.cursor_row == self.cursor_y - self.offset_y
        &&& f.cursor_col == self.cursor_x - self.offset_x
        &&& f.word_count == words
        &&& f.progress == min_int(words / 5, 100)
        &&& f.goal == (if words >= WORD_GOAL {
            Goal::Reached
        } else if words >= WORD_GOAL * 3 / 4 {
            Goal::Near
        } else {
            Goal::Below
        })
        &&& f.typing_minutes == self.typing.total_at(self.now_ms) / 60000
        &&& f.mode == self.mode
        &&& opt_view(f.command_line) == if self.mode == Mode::Command {
            Some(self.command_buffer@)
        } else {
            None
        }
    }

    pub open spec fn spec_render(a: Editor, b: Editor, r: Option<Frame>) -> bool {
        if a.dirty {
            &&& b == (Editor { dirty: false, ..a.scrolled() })
            &&& r.is_some()
            &&& a.scrolled().frame_of(r.unwrap())
        } else {
            b == a && r.is_none()
        }
    }

    /// The visible part of row `y`.
    fn visible_part(&self, y: usize) -> (r: Vec<char>)
        requires
            y < self.buffer.len(),
        ensures
            r@ == self.text()[y as int].subrange(
                min_int(self.offset_x as int, self.text()[y as int].len() as int),
                min_int(self.offset_x + self.terminal_width, self.text()[y as int].len() as int),
            ),
    {
        let line = &self.buffer[y];
        let start = if self.offset_x < line.len() {
            self.offset_x
        } else {
            line.len()
        };
        let end = if line.len() - start < self.terminal_width as usize {
            line.len()
        } else {
            start + self.terminal_width as usize
        };
        let mut out: Vec<char> = Vec::new();
        let mut i: usize = start;
        while i < end
            invariant
                start <= i <= end <= line.len(),
                out@ == line@.subrange(start as int, i as int),
            decreases end - i,
        {
            out.push(line[i]);
            assert(out@ =~= line@.subrange(start as int, i + 1));
            i += 1;
        }
        out
    }

    /// Draws when the screen is stale: scrolls to the cursor, returns the
    /// frame to draw and marks the screen fresh. A fresh screen draws
    /// nothing.
    pub fn render(&mut self) -> (r: Option<Frame>)
        requires
            old(self).wf(),
        ensures
            final(self).wf(),
            Self::spec_render(*old(self), *final(self), r),
            r.is_some() ==> r.unwrap().cursor_row < old(self).page() && r.unwrap().cursor_col
                < old(self).terminal_width,
    {
        if !self.dirty {
            return None;
        }
        self.update_offset();
        let visible_height = (self.terminal_height - 2) as usize;
        let mut rows: Vec<Option<Vec<char>>> = Vec::new();
        let mut r: usize = 0;
        while r < visible_height
            invariant
                self.wf(),
                visible_height == self.page(),
                r <= visible_height,
                rows@.len() == r,
                forall|k: int| 0 <= k < r ==> #[trigger] opt_view(rows@[k]) == self.row_view(k),
            decreases visible_height - r,
        {
            if self.offset_y < self.buffer.len() && r < self.buffer.len() - self.offset_y {
                rows.push(Some(self.visible_part(self.offset_y + r)));
            } else {
                rows.push(None);
            }
            r += 1;
        }
        let words = self.count_words();
        let progress = if words / 5 < 100 {
            words / 5
        } else {
            100
        };
        let goal = if words >= WORD_GOAL {
            Goal::Reached
        } else if words >= WORD_GOAL * 3 / 4 {
            Goal::Near
        } else {
            Goal::Below
        };
        let command_line = if self.mode == Mode::Command {
            Some(copy_line(&self.command_buffer))
        } else {
            None
        };
        let frame = Frame {
            rows,
            cursor_row: self.cursor_y - self.offset_y,
            cursor_col: self.cursor_x - self.offset_x,
            word_count: words,
            progress,
            goal,
            typing_minutes: self.get_total_typing_time() / 60000,
            mode: self.mode,
            command_line,
        };
        self.dirty = false;
        Some(frame)
    }

    /// Adopts a new terminal size; a change makes the screen stale.
    pub fn resize(&mut self, width: u16, height: u16)
        requires
            old(self).wf(),
            height >= 3,
            width >= 1,
        ensures
            final(self).wf(),
            *final(self) == (Editor {
                terminal_width: width,
                terminal_height: height,
                dirty: old(self).dirty || width != old(self).terminal_width || height
                    != old(self).terminal_height,
                ..*old(self)
            }),
    {
        if width != self.terminal_width || height != self.terminal_height {
            self.terminal_width = width;
            self.terminal_height = height;
            self.dirty = true;
        }
    }
}

} // verus!
