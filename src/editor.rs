//! The editor's state, its invariant, and the relations that the operations'
//! contracts are stated with.

use vstd::prelude::*;
use crate::config::Config;
use crate::search::{backward_target, forward_target};
use crate::text::{count_text_words, text_words, views};
use crate::typing::TypingTracker;

verus! {

/// The editing mode, which picks the key table and the cursor clamp rule.
#[derive(Clone, Copy, Debug, PartialEq, Eq, Structural)]
pub enum Mode {
    Normal,
    Insert,
    Command,
}

/// All state of one editing session.
pub struct Editor {
    /// The lines of the document; never empty.
    pub buffer: Vec<Vec<char>>,
    pub cursor_x: usize,
    pub cursor_y: usize,
    pub offset_y: usize,
    pub offset_x: usize,
    pub terminal_height: u16,
    pub terminal_width: u16,
    /// Whether the screen is stale.
    pub dirty: bool,
    pub filename: Option<String>,
    pub mode: Mode,
    pub command_buffer: Vec<char>,
    pub clipboard: Vec<Vec<char>>,
    pub last_search: Option<Vec<char>>,
    pub config: Config,
    /// Whether edits are waiting to be written.
    pub needs_save: bool,
    /// Instant of the latest edit or write, in milliseconds.
    pub last_save: u64,
    /// Instant of the latest write of the typing time.
    pub last_typing_save: u64,
    /// The current instant, as last reported by the clock.
    pub now_ms: u64,
    pub typing: TypingTracker,
}

/// Every state that the session's operations reach keeps at least one line
/// and a cursor on a line, at most one column past its end, and on a
/// character of a non-empty line in Normal mode. (`Editor::new` establishes
/// `wf` and every operation that takes `&mut self` preserves it.)
pub proof fn valid_state(e: Editor)
    requires
        e.wf(),
    ensures
        e.buffer.len() >= 1,
        e.cursor_y < e.buffer.len(),
        e.cursor_x <= e.line().len(),
        e.mode == Mode::Normal && e.line().len() > 0 ==> e.cursor_x < e.line().len(),
{
}

impl Editor {
    /// The document's lines.
    pub open spec fn text(&self) -> Seq<Seq<char>> {
        views(self.buffer@)
    }

    /// The cursor's line.
    pub open spec fn line(&self) -> Seq<char> {
        self.text()[self.cursor_y as int]
    }

    /// Whether the cursor must rest on a character of a non-empty line
    /// (Normal mode under modal bindings).
    pub open spec fn strict(&self) -> bool {
        self.config.vim_bindings && self.mode == Mode::Normal
    }

    /// The last column the cursor may take on a line of `len` characters.
    pub open spec fn limit(&self, len: int) -> int {
        if self.strict() && len > 0 {
            len - 1
        } else {
            len
        }
    }

    /// Whether left and right motions wrap to the neighbouring line.
    pub open spec fn crosses_lines(&self) -> bool {
        self.mode == Mode::Insert || !self.config.vim_bindings
    }

    /// Lines that fit on the screen above the status lines.
    pub open spec fn page(&self) -> int {
        self.terminal_height - 2
    }

    /// The session's invariant.
    pub open spec fn wf(&self) -> bool {
        &&& self.buffer.len() >= 1
        &&& self.cursor_y < self.buffer.len()
        &&& self.cursor_x <= self.limit(self.line().len() as int)
        &&& !self.config.vim_bindings ==> self.mode == Mode::Insert
        &&& self.terminal_height >= 3
        &&& self.terminal_width >= 1
        &&& self.typing.timeout_seconds == self.config.typing_timeout_seconds
    }

    /// What no key changes.
    pub open spec fn keeps(a: Editor, b: Editor) -> bool {
        &&& b.offset_x == a.offset_x
        &&& b.offset_y == a.offset_y
        &&& b.terminal_height == a.terminal_height
        &&& b.terminal_width == a.terminal_width
        &&& b.filename == a.filename
        &&& b.config == a.config
        &&& b.now_ms == a.now_ms
        &&& b.last_typing_save == a.last_typing_save
    }

    /// Everything but the cursor and the dirty flag is unchanged.
    pub open spec fn same_state(a: Editor, b: Editor) -> bool {
        &&& Self::keeps(a, b)
        &&& b.buffer == a.buffer
        &&& b.mode == a.mode
        &&& b.command_buffer == a.command_buffer
        &&& b.clipboard == a.clipboard
        &&& b.last_search == a.last_search
        &&& b.needs_save == a.needs_save
        &&& b.last_save == a.last_save
        &&& b.typing == a.typing
    }

    /// Only the cursor moved, to `(y, x)`, and the screen is stale.
    pub open spec fn moved_to(a: Editor, b: Editor, y: int, x: int) -> bool {
        &&& Self::same_state(a, b)
        &&& b.cursor_y == y
        &&& b.cursor_x == x
        &&& b.dirty
    }

    /// The marks that an edit leaves: stale screen, pending write, typing
    /// activity recorded at the current instant.
    pub open spec fn edit_marks(a: Editor, b: Editor) -> bool {
        &&& b.dirty
        &&& b.needs_save
        &&& b.last_save == a.now_ms
        &&& b.typing == a.typing.after_edit(a.now_ms)
    }

    /// The text became `text` and the cursor `(y, x)` by an edit, which may
    /// also have filled the clipboard.
    pub open spec fn rewritten_to(a: Editor, b: Editor, text: Seq<Seq<char>>, y: int, x: int) -> bool {
        &&& Self::keeps(a, b)
        &&& b.text() == text
        &&& b.mode == a.mode
        &&& b.command_buffer == a.command_buffer
        &&& b.last_search == a.last_search
        &&& b.cursor_y == y
        &&& b.cursor_x == x
        &&& Self::edit_marks(a, b)
    }

    /// The text became `text` and the cursor `(y, x)` by an edit.
    pub open spec fn edited_to(a: Editor, b: Editor, text: Seq<Seq<char>>, y: int, x: int) -> bool {
        &&& Self::rewritten_to(a, b, text, y, x)
        &&& b.clipboard == a.clipboard
    }

    /// Only the cursor moved, as a search for `pat` places it, and the
    /// screen is stale.
    pub open spec fn searched_to(a: Editor, b: Editor, pat: Seq<char>, forward: bool) -> bool {
        &&& Self::keeps(a, b)
        &&& b.buffer == a.buffer
        &&& b.mode == a.mode
        &&& b.command_buffer == a.command_buffer
        &&& b.clipboard == a.clipboard
        &&& b.needs_save == a.needs_save
        &&& b.last_save == a.last_save
        &&& b.typing == a.typing
        &&& b.dirty
        &&& if forward {
            forward_target(a.text(), pat, a.cursor_y as int, a.cursor_x as int, b.cursor_y as int, b.cursor_x as int)
        } else {
            backward_target(a.text(), pat, a.cursor_y as int, a.cursor_x as int, b.cursor_y as int, b.cursor_x as int)
        }
    }

    /// An edit key that found nothing to change: only the typing activity
    /// was recorded.
    pub open spec fn only_tracked(a: Editor, b: Editor) -> bool {
        &&& Self::keeps(a, b)
        &&& b.buffer == a.buffer
        &&& b.cursor_x == a.cursor_x
        &&& b.cursor_y == a.cursor_y
        &&& b.mode == a.mode
        &&& b.command_buffer == a.command_buffer
        &&& b.clipboard == a.clipboard
        &&& b.last_search == a.last_search
        &&& b.dirty == a.dirty
        &&& b.needs_save == a.needs_save
        &&& b.last_save == a.last_save
        &&& b.typing == a.typing.after_edit(a.now_ms)
    }

    /// A fresh session on one empty line: Normal mode under modal bindings,
    /// Insert mode otherwise.
    pub fn new(config: Config, width: u16, height: u16, typing_ms: u64, now: u64) -> (r: Editor)
        requires
            height >= 3,
            width >= 1,
        ensures
            r.wf(),
            r.text() == seq![Seq::<char>::empty()],
            r.cursor_x == 0,
            r.cursor_y == 0,
            r.offset_x == 0,
            r.offset_y == 0,
            r.mode == (if config.vim_bindings {
                Mode::Normal
            } else {
                Mode::Insert
            }),
            r.config == config,
            r.terminal_width == width,
            r.terminal_height == height,
            !r.dirty,
            r.filename.is_none(),
            r.command_buffer@.len() == 0,
            r.clipboard@.len() == 0,
            r.last_search.is_none(),
            !r.needs_save,
            r.now_ms == now,
            r.last_save == now,
            r.last_typing_save == now,
            r.typing.timeout_seconds == config.typing_timeout_seconds,
            r.typing.accumulated_ms == typing_ms,
            r.typing.session_start.is_none(),
            r.typing.last_activity == now,
    {
        let mode = if config.vim_bindings {
            Mode::Normal
        } else {
            Mode::Insert
        };
        let timeout = config.typing_timeout_seconds;
        let mut buffer: Vec<Vec<char>> = Vec::new();
        buffer.push(Vec::new());
        let r = Editor {
            buffer,
            cursor_x: 0,
            cursor_y: 0,
            offset_y: 0,
            offset_x: 0,
            terminal_height: height,
            terminal_width: width,
            dirty: false,
            filename: None,
            mode,
            command_buffer: Vec::new(),
            clipboard: Vec::new(),
            last_search: None,
            config,
            needs_save: false,
            last_save: now,
            last_typing_save: now,
            now_ms: now,
            typing: TypingTracker::new(timeout, typing_ms, now),
        };
        assert(r.text() =~= seq![Seq::<char>::empty()]);
        r
    }

    /// The cursor's line.
    pub fn current_line(&self) -> (r: &Vec<char>)
        requires
            self.cursor_y < self.buffer.len(),
        ensures
            r@ == self.line(),
    {
        &self.buffer[self.cursor_y]
    }

    /// `limit` for a line of `len` characters.
    pub(crate) fn max_col(&self, len: usize) -> (r: usize)
        ensures
            r == self.limit(len as int),
    {
        if self.config.vim_bindings && self.mode == Mode::Normal && len > 0 {
            len - 1
        } else {
            len
        }
    }

    /// Records typing activity at the current instant.
    pub fn track_typing(&mut self)
        ensures
            *final(self) == (Editor { typing: old(self).typing.after_edit(old(self).now_ms), ..*old(self) }),
    {
        let now = self.now_ms;
        self.typing.track(now);
    }

    /// Total typing time at the current instant, in milliseconds.
    pub fn get_total_typing_time(&self) -> (r: u64)
        ensures
            r == self.typing.total_at(self.now_ms),
    {
        self.typing.total(self.now_ms)
    }

    /// Number of words in the document, saturating at the largest `usize`.
    pub fn count_words(&self) -> (r: usize)
        ensures
            r as int == if text_words(self.text()) > usize::MAX {
                usize::MAX as int
            } else {
                text_words(self.text()) as int
            },
    {
        count_text_words(&self.buffer)
    }

    /// Whether the editor may grow by one typed character, one tab, one line
    /// or one paste without its sizes overflowing.
    pub open spec fn has_room(&self) -> bool {
        &&& self.line().len() + self.config.tab_size < usize::MAX
        &&& self.buffer.len() + self.clipboard.len() < usize::MAX
    }

    /// The mode that the editor rests in between commands.
    /// The column that the cursor keeps on leaving Command mode for the
    /// idle mode: under modal bindings, clamped by Normal mode's rule.
    pub open spec fn idle_col(&self) -> usize {
        let len = self.line().len();
        if self.config.vim_bindings && len > 0 && self.cursor_x >= len {
            (len - 1) as usize
        } else {
            self.cursor_x
        }
    }

    pub open spec fn idle_mode(&self) -> Mode {
        if self.config.vim_bindings {
            Mode::Normal
        } else {
            Mode::Insert
        }
    }
}

} // verus!
