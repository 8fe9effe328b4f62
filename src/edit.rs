//! Text edits: insertion with line wrapping, deletion, line joins, the
//! clipboard.

use vstd::prelude::*;
use crate::editor::{Editor, Mode};
use crate::text::views;

verus! {

/// The last column before `n` that holds a space, or -1.
pub open spec fn last_space_before(line: Seq<char>, n: int) -> int
    decreases n,
{
    if n <= 0 {
        -1
    } else if line[n - 1] == ' ' {
        n - 1
    } else {
        last_space_before(line, n - 1)
    }
}

/// Where a line that outgrew the wrap width is broken, the cursor being at
/// `n`: after the last space before it when that space is at most twenty
/// columns back, else at the cursor.
pub open spec fn break_col(line: Seq<char>, n: int) -> int {
    let s = last_space_before(line, n);
    if s >= 0 && n - (s + 1) <= 20 {
        s + 1
    } else {
        n
    }
}

/// `n` spaces.
pub open spec fn spaces(n: int) -> Seq<char> {
    Seq::new(n as nat, |i: int| ' ')
}

/// A copy of a line.
pub(crate) fn copy_line(line: &Vec<char>) -> (r: Vec<char>)
    ensures
        r@ == line@,
{
    let r = line.clone();
    assert(r@ =~= line@);
    r
}

impl Editor {
    fn mark_edited(&mut self)
        ensures
            *final(self) == (Editor { dirty: true, needs_save: true, last_save: old(self).now_ms, ..*old(self) }),
    {
        self.dirty = true;
        self.needs_save = true;
        self.last_save = self.now_ms;
    }

    pub open spec fn spec_insert_char(a: Editor, b: Editor, c: char) -> bool {
        let y = a.cursor_y as int;
        let x = a.cursor_x + 1;
        let line = a.line().insert(a.cursor_x as int, c);
        if a.terminal_width >= 5 && x >= a.terminal_width - 5 && c != ' ' {
            let bp = break_col(line, x);
            Self::edited_to(
                a,
                b,
                a.text().update(y, line.subrange(0, bp)).insert(y + 1, line.subrange(bp, line.len() as int)),
                y + 1,
                x - bp,
            )
        } else {
            Self::edited_to(a, b, a.text().update(y, line), y, x)
        }
    }

    /// Inserts `c` at the cursor and steps past it. On a terminal at least
    /// five columns wide, typing a non-space that brings the cursor within
    /// five columns of the width breaks the line after its last space (when
    /// that is at most twenty columns back, else at the cursor) and the
    /// cursor follows the moved text.
    pub fn insert_char(&mut self, c: char)
        requires
            old(self).wf(),
            old(self).mode == Mode::Insert,
            old(self).line().len() < usize::MAX,
            old(self).buffer.len() < usize::MAX,
        ensures
            final(self).wf(),
            Self::spec_insert_char(*old(self), *final(self), c),
    {
        let ghost a = *self;
        self.track_typing();
        let y = self.cursor_y;
        let x0 = self.cursor_x;
        self.buffer[y].insert(x0, c);
        let x = x0 + 1;
        self.cursor_x = x;
        let ghost line = a.line().insert(x0 as int, c);
        assert(self.text() =~= a.text().update(y as int, line));
        if self.terminal_width >= 5 && x >= (self.terminal_width - 5) as usize && c != ' ' {
            let mut i: usize = x;
            while i > 0 && self.buffer[y][i - 1] != ' '
                invariant
                    y < self.buffer.len(),
                    self.buffer[y as int]@ == line,
                    i <= x <= line.len(),
                    last_space_before(line, x as int) == last_space_before(line, i as int),
                decreases i,
            {
                i -= 1;
            }
            let bp = if i > 0 && x - i <= 20 {
                i
            } else {
                x
            };
            assert(bp == break_col(line, x as int));
            let rest = self.buffer[y].split_off(bp);
            self.buffer.insert(y + 1, rest);
            self.cursor_y = y + 1;
            self.cursor_x = x - bp;
            assert(self.text() =~= a.text().update(y as int, line.subrange(0, bp as int)).insert(
                y + 1,
                line.subrange(bp as int, line.len() as int),
            ));
        }
        self.mark_edited();
    }

    /// Inserts `tab_size` spaces at the cursor.
    pub fn insert_tab(&mut self)
        requires
            old(self).wf(),
            old(self).mode == Mode::Insert,
            old(self).line().len() + old(self).config.tab_size < usize::MAX,
            old(self).buffer.len() < usize::MAX,
        ensures
            final(self).wf(),
            old(self).config.tab_size == 0 ==> *final(self) == *old(self),
            old(self).config.tab_size > 0 ==> Self::edited_to(
                *old(self),
                *final(self),
                old(self).text().update(
                    old(self).cursor_y as int,
                    old(self).line().subrange(0, old(self).cursor_x as int) + spaces(
                        old(self).config.tab_size as int,
                    ) + old(self).line().subrange(
                        old(self).cursor_x as int,
                        old(self).line().len() as int,
                    ),
                ),
                old(self).cursor_y as int,
                old(self).cursor_x + old(self).config.tab_size,
            ),
    {
        let ghost a = *self;
        let ghost y = a.cursor_y as int;
        let ghost x0 = a.cursor_x as int;
        let ghost line = a.line();
        let n = self.config.tab_size;
        assert(line.subrange(0, x0) + spaces(0) + line.subrange(x0, line.len() as int) =~= line);
        assert(a.text().update(y, line) =~= a.text());
        let mut k: usize = 0;
        while k < n
            invariant
                self.wf(),
                a.wf(),
                line == a.line(),
                x0 == a.cursor_x,
                y == a.cursor_y,
                0 <= x0 <= line.len(),
                k <= n,
                n == a.config.tab_size,
                self.mode == Mode::Insert,
                self.cursor_y == y,
                self.cursor_x == x0 + k,
                self.buffer.len() == a.buffer.len(),
                a.buffer.len() < usize::MAX,
                line.len() + n < usize::MAX,
                self.text() == a.text().update(
                    y,
                    line.subrange(0, x0) + spaces(k as int) + line.subrange(x0, line.len() as int),
                ),
                k == 0 ==> *self == a,
                k > 0 ==> Self::edited_to(a, *self, self.text(), y, x0 + k),
            decreases n - k,
        {
            let ghost cur = self.line();
            let ghost pre = line.subrange(0, x0);
            let ghost post = line.subrange(x0, line.len() as int);
            assert(a.text().len() == a.buffer.len());
            assert(self.text()[y] == pre + spaces(k as int) + post);
            assert(cur == pre + spaces(k as int) + post);
            assert(cur.len() == line.len() + k);
            self.insert_char(' ');
            assert(self.text().len() == self.buffer.len());
            assert forall|i: int| 0 <= i < cur.len() + 1 implies #[trigger] cur.insert(x0 + k, ' ')[i] == (pre
                + spaces(k + 1) + post)[i] by {
                if i < x0 {
                } else if i < x0 + k + 1 {
                } else {
                    assert(cur.insert(x0 + k, ' ')[i] == cur[i - 1]);
                }
            }
            assert(cur.insert(x0 + k, ' ') =~= line.subrange(0, x0) + spaces(k + 1) + line.subrange(
                x0,
                line.len() as int,
            ));
            assert(self.text() =~= a.text().update(
                y,
                line.subrange(0, x0) + spaces(k + 1) + line.subrange(x0, line.len() as int),
            ));
            k += 1;
        }
        if n == 0 {
            assert(spaces(0) =~= Seq::<char>::empty());
        }
    }

    /// Splits the line at the cursor; the cursor goes to the start of the
    /// new line below.
    pub fn insert_newline(&mut self)
        requires
            old(self).wf(),
            old(self).mode == Mode::Insert,
            old(self).buffer.len() < usize::MAX,
        ensures
            final(self).wf(),
            Self::edited_to(
                *old(self),
                *final(self),
                old(self).text().update(
                    old(self).cursor_y as int,
                    old(self).line().subrange(0, old(self).cursor_x as int),
                ).insert(
                    old(self).cursor_y + 1,
                    old(self).line().subrange(old(self).cursor_x as int, old(self).line().len() as int),
                ),
                old(self).cursor_y + 1,
                0,
            ),
    {
        let ghost a = *self;
        self.track_typing();
        let y = self.cursor_y;
        let rest = self.buffer[y].split_off(self.cursor_x);
        self.buffer.insert(y + 1, rest);
        self.cursor_y = y + 1;
        self.cursor_x = 0;
        assert(self.text() =~= a.text().update(y as int, a.line().subrange(0, a.cursor_x as int)).insert(
            y + 1,
            a.line().subrange(a.cursor_x as int, a.line().len() as int),
        ));
        self.mark_edited();
    }

    pub open spec fn spec_backspace(a: Editor, b: Editor) -> bool {
        let y = a.cursor_y as int;
        if a.cursor_x > 0 {
            Self::edited_to(a, b, a.text().update(y, a.line().remove(a.cursor_x - 1)), y, a.cursor_x - 1)
        } else if y > 0 {
            Self::edited_to(
                a,
                b,
                a.text().update(y - 1, a.text()[y - 1] + a.line()).remove(y),
                y - 1,
                a.text()[y - 1].len() as int,
            )
        } else {
            Self::only_tracked(a, b)
        }
    }

    /// Deletes the character before the cursor; at the start of a line, joins
    /// it to the previous one.
    pub fn backspace(&mut self)
        requires
            old(self).wf(),
            old(self).mode == Mode::Insert,
        ensures
            final(self).wf(),
            Self::spec_backspace(*old(self), *final(self)),
    {
        let ghost a = *self;
        self.track_typing();
        let y = self.cursor_y;
        if self.cursor_x > 0 {
            self.buffer[y].remove(self.cursor_x - 1);
            self.cursor_x -= 1;
            assert(self.text() =~= a.text().update(y as int, a.line().remove(a.cursor_x - 1)));
            self.mark_edited();
        } else if y > 0 {
            let mut current = self.buffer.remove(y);
            self.cursor_y = y - 1;
            self.cursor_x = self.buffer[y - 1].len();
            self.buffer[y - 1].append(&mut current);
            assert(self.text() =~= a.text().update(y - 1, a.text()[y - 1] + a.line()).remove(y as int));
            self.mark_edited();
        }
    }

    pub open spec fn spec_delete(a: Editor, b: Editor) -> bool {
        let y = a.cursor_y as int;
        if a.cursor_x < a.line().len() {
            Self::edited_to(a, b, a.text().update(y, a.line().remove(a.cursor_x as int)), y, a.cursor_x as int)
        } else if y + 1 < a.buffer.len() {
            Self::edited_to(
                a,
                b,
                a.text().update(y, a.line() + a.text()[y + 1]).remove(y + 1),
                y,
                a.cursor_x as int,
            )
        } else {
            Self::only_tracked(a, b)
        }
    }

    /// Deletes the character under the cursor; at the end of a line, joins
    /// the next line to it.
    pub fn delete(&mut self)
        requires
            old(self).wf(),
            old(self).mode == Mode::Insert,
        ensures
            final(self).wf(),
            Self::spec_delete(*old(self), *final(self)),
    {
        let ghost a = *self;
        self.track_typing();
        let y = self.cursor_y;
        let line_len = self.current_line().len();
        if self.cursor_x < line_len {
            self.buffer[y].remove(self.cursor_x);
            assert(self.text() =~= a.text().update(y as int, a.line().remove(a.cursor_x as int)));
            self.mark_edited();
        } else if y < self.buffer.len() - 1 {
            let mut next = self.buffer.remove(y + 1);
            self.buffer[y].append(&mut next);
            assert(self.text() =~= a.text().update(y as int, a.line() + a.text()[y + 1]).remove(y + 1));
            self.mark_edited();
        }
    }

    pub open spec fn spec_delete_char(a: Editor, b: Editor) -> bool {
        let y = a.cursor_y as int;
        let x = a.cursor_x as int;
        if x < a.line().len() {
            Self::edited_to(
                a,
                b,
                a.text().update(y, a.line().remove(x)),
                y,
                if x > 0 && x == a.line().len() - 1 && a.config.vim_bindings {
                    x - 1
                } else {
                    x
                },
            )
        } else {
            Self::only_tracked(a, b)
        }
    }

    /// Deletes the character under the cursor (Normal-mode `x`), stepping
    /// back when that leaves the cursor past the line's end.
    pub fn delete_char(&mut self)
        requires
            old(self).wf(),
        ensures
            final(self).wf(),
            Self::spec_delete_char(*old(self), *final(self)),
    {
        let ghost a = *self;
        self.track_typing();
        let y = self.cursor_y;
        if self.cursor_x < self.current_line().len() {
            self.buffer[y].remove(self.cursor_x);
            assert(self.text() =~= a.text().update(y as int, a.line().remove(a.cursor_x as int)));
            if self.cursor_x > 0 && self.cursor_x == self.current_line().len() && self.config.vim_bindings {
                self.cursor_x -= 1;
            }
            self.mark_edited();
        }
    }

    pub open spec fn spec_delete_line(a: Editor, b: Editor) -> bool {
        let y = a.cursor_y as int;
        &&& views(b.clipboard@) == seq![a.line()]
        &&& if a.buffer.len() > 1 {
            Self::rewritten_to(
                a,
                b,
                a.text().remove(y),
                if y >= a.buffer.len() - 1 {
                    a.buffer.len() - 2
                } else {
                    y
                },
                0,
            )
        } else {
            Self::rewritten_to(a, b, seq![Seq::<char>::empty()], 0, 0)
        }
    }

    /// Cuts the cursor's line into the clipboard; the last remaining line is
    /// emptied instead of removed.
    pub fn delete_line(&mut self)
        requires
            old(self).wf(),
        ensures
            final(self).wf(),
            Self::spec_delete_line(*old(self), *final(self)),
    {
        let ghost a = *self;
        self.track_typing();
        let y = self.cursor_y;
        let mut clip: Vec<Vec<char>> = Vec::new();
        clip.push(copy_line(&self.buffer[y]));
        self.clipboard = clip;
        assert(views(self.clipboard@) =~= seq![a.line()]);
        if self.buffer.len() > 1 {
            self.buffer.remove(y);
            if self.cursor_y >= self.buffer.len() {
                self.cursor_y = self.buffer.len() - 1;
            }
            assert(self.text() =~= a.text().remove(y as int));
        } else {
            self.buffer[0].clear();
            assert(self.text() =~= seq![Seq::<char>::empty()]);
        }
        self.cursor_x = 0;
        self.mark_edited();
    }

    /// Copies the cursor's line into the clipboard.
    pub fn yank_line(&mut self)
        requires
            old(self).wf(),
        ensures
            final(self).wf(),
            *final(self) == (Editor { clipboard: final(self).clipboard, ..*old(self) }),
            views(final(self).clipboard@) == seq![old(self).line()],
    {
        let mut clip: Vec<Vec<char>> = Vec::new();
        clip.push(copy_line(&self.buffer[self.cursor_y]));
        self.clipboard = clip;
        assert(views(self.clipboard@) =~= seq![self.line()]);
    }

    /// Inserts the clipboard's lines at row `at`, leaving the cursor where it is.
    fn insert_clipboard_at(&mut self, at: usize)
        requires
            at <= old(self).buffer.len(),
            old(self).buffer.len() + old(self).clipboard.len() <= usize::MAX,
        ensures
            *final(self) == (Editor { buffer: final(self).buffer, ..*old(self) }),
            final(self).text() == old(self).text().subrange(0, at as int) + views(old(self).clipboard@)
                + old(self).text().subrange(at as int, old(self).buffer.len() as int),
    {
        let ghost a = *self;
        let n = self.clipboard.len();
        let mut i: usize = 0;
        assert(a.text().subrange(0, at as int) + views(a.clipboard@).subrange(0, 0) + a.text().subrange(
            at as int,
            a.buffer.len() as int,
        ) =~= a.text());
        while i < n
            invariant
                i <= n,
                n == a.clipboard.len(),
                at <= a.buffer.len(),
                a.buffer.len() + n <= usize::MAX,
                *self == (Editor { buffer: self.buffer, ..a }),
                self.text() == a.text().subrange(0, at as int) + views(a.clipboard@).subrange(0, i as int)
                    + a.text().subrange(at as int, a.buffer.len() as int),
            decreases n - i,
        {
            let line = copy_line(&self.clipboard[i]);
            let ghost before = self.text();
            assert(before.len() == a.buffer.len() + i);
            self.buffer.insert(at + i, line);
            assert(self.text() =~= before.insert(at + i, line@));
            assert(self.text() =~= a.text().subrange(0, at as int) + views(a.clipboard@).subrange(0, i + 1)
                + a.text().subrange(at as int, a.buffer.len() as int));
            i += 1;
        }
        assert(views(a.clipboard@).subrange(0, n as int) =~= views(a.clipboard@));
    }

    /// The text with the clipboard's lines inserted at row `at`.
    pub open spec fn pasted(&self, at: int) -> Seq<Seq<char>> {
        self.text().subrange(0, at) + views(self.clipboard@) + self.text().subrange(at, self.text().len() as int)
    }

    pub open spec fn spec_paste_after(a: Editor, b: Editor) -> bool {
        if a.clipboard.len() > 0 {
            Self::edited_to(a, b, a.pasted(a.cursor_y + 1), a.cursor_y + 1, 0)
        } else {
            b == a
        }
    }

    /// Inserts the clipboard's lines below the cursor's line and moves to the
    /// first of them.
    pub fn paste_after(&mut self)
        requires
            old(self).wf(),
            old(self).buffer.len() + old(self).clipboard.len() <= usize::MAX,
        ensures
            final(self).wf(),
            Self::spec_paste_after(*old(self), *final(self)),
    {
        if self.clipboard.len() > 0 {
            self.track_typing();
            let y = self.cursor_y;
            self.insert_clipboard_at(y + 1);
            assert(self.text().len() == self.buffer.len());
            self.cursor_y = y + 1;
            self.cursor_x = 0;
            self.mark_edited();
        }
    }

    pub open spec fn spec_paste_before(a: Editor, b: Editor) -> bool {
        if a.clipboard.len() > 0 {
            Self::edited_to(a, b, a.pasted(a.cursor_y as int), a.cursor_y as int, 0)
        } else {
            b == a
        }
    }

    /// Inserts the clipboard's lines above the cursor's line and moves to the
    /// first of them.
    pub fn paste_before(&mut self)
        requires
            old(self).wf(),
            old(self).buffer.len() + old(self).clipboard.len() <= usize::MAX,
        ensures
            final(self).wf(),
            Self::spec_paste_before(*old(self), *final(self)),
    {
        if self.clipboard.len() > 0 {
            self.track_typing();
            let y = self.cursor_y;
            self.insert_clipboard_at(y);
            assert(self.text().len() == self.buffer.len());
            self.cursor_x = 0;
            self.mark_edited();
        }
    }

    /// Opens an empty line at row `at` and puts the cursor at its start.
    pub(crate) fn open_line_at(&mut self, at: usize)
        requires
            old(self).wf(),
            !old(self).strict(),
            at <= old(self).buffer.len(),
            old(self).buffer.len() < usize::MAX,
        ensures
            final(self).wf(),
            Self::edited_to(*old(self), *final(self), old(self).text().insert(at as int, seq![]), at as int, 0),
    {
        let ghost a = *self;
        self.track_typing();
        self.buffer.insert(at, Vec::new());
        self.cursor_y = at;
        self.cursor_x = 0;
        assert(self.text() =~= a.text().insert(at as int, seq![]));
        self.mark_edited();
    }

    pub open spec fn spec_insert_tab(a: Editor, b: Editor) -> bool {
        if a.config.tab_size == 0 {
            b == a
        } else {
            Self::edited_to(
                a,
                b,
                a.text().update(
                    a.cursor_y as int,
                    a.line().subrange(0, a.cursor_x as int) + spaces(a.config.tab_size as int) + a.line().subrange(
                        a.cursor_x as int,
                        a.line().len() as int,
                    ),
                ),
                a.cursor_y as int,
                a.cursor_x + a.config.tab_size,
            )
        }
    }

    pub open spec fn spec_insert_newline(a: Editor, b: Editor) -> bool {
        Self::edited_to(
            a,
            b,
            a.text().update(a.cursor_y as int, a.line().subrange(0, a.cursor_x as int)).insert(
                a.cursor_y + 1,
                a.line().subrange(a.cursor_x as int, a.line().len() as int),
            ),
            a.cursor_y + 1,
            0,
        )
    }
}

} // verus!
