//! Key dispatch: the Normal/Insert/Command state machine.

use vstd::prelude::*;
use crate::edit::{copy_line, spaces};
use crate::editor::{Editor, Mode};
use crate::text::views;

verus! {

/// A key, as the input collaborator classifies it.
#[derive(Clone, Copy, Debug, PartialEq, Eq, Structural)]
pub enum Key {
    Char(char),
    Left,
    Right,
    Up,
    Down,
    Home,
    End,
    PageUp,
    PageDown,
    Backspace,
    Delete,
    Enter,
    Tab,
    Esc,
    Other,
}

/// A key press with its modifiers.
#[derive(Clone, Copy, Debug, PartialEq, Eq, Structural)]
pub struct KeyEvent {
    pub key: Key,
    pub ctrl: bool,
    pub alt: bool,
}

impl Editor {
    /// Whether the previous key was `c`; operator keys fire on their first
    /// press, so this always holds.
    pub fn last_key_was(&self, c: char) -> (r: bool)
        ensures
            r,
    {
        true
    }

    /// What an editing key does in Insert mode and under plain bindings.
    pub open spec fn spec_edit_key(a: Editor, b: Editor, ev: KeyEvent) -> bool {
        match ev.key {
            Key::Left => Self::spec_move_left(a, b),
            Key::Right => Self::spec_move_right(a, b),
            Key::Up => Self::spec_move_up(a, b),
            Key::Down => Self::spec_move_down(a, b),
            Key::Home => Self::moved_to(a, b, a.cursor_y as int, 0),
            Key::End => Self::moved_to(a, b, a.cursor_y as int, a.limit(a.line().len() as int)),
            Key::PageUp => Self::spec_page_up(a, b),
            Key::PageDown => Self::spec_page_down(a, b),
            Key::Backspace => Self::spec_backspace(a, b),
            Key::Delete => Self::spec_delete(a, b),
            Key::Enter => Self::spec_insert_newline(a, b),
            Key::Tab => Self::spec_insert_tab(a, b),
            Key::Char(c) => if !ev.ctrl && !ev.alt {
                Self::spec_insert_char(a, b, c)
            } else {
                b == a
            },
            _ => b == a,
        }
    }

    /// Applies an editing key (see `spec_edit_key`).
    fn edit_key(&mut self, ev: KeyEvent)
        requires
            old(self).wf(),
            old(self).has_room(),
            old(self).mode == Mode::Insert,
        ensures
            final(self).wf(),
            Self::spec_edit_key(*old(self), *final(self), ev),
    {
        match ev.key {
            Key::Left => self.move_left(),
            Key::Right => self.move_right(),
            Key::Up => self.move_up(),
            Key::Down => self.move_down(),
            Key::Home => self.move_home(),
            Key::End => self.move_end(),
            Key::PageUp => self.page_up(),
            Key::PageDown => self.page_down(),
            Key::Backspace => self.backspace(),
            Key::Delete => self.delete(),
            Key::Enter => self.insert_newline(),
            Key::Tab => self.insert_tab(),
            Key::Char(c) => {
                if !ev.ctrl && !ev.alt {
                    self.insert_char(c);
                }
            },
            _ => {},
        }
    }

    /// A key under plain (non-modal) bindings.
    pub fn handle_standard_mode(&mut self, ev: KeyEvent)
        requires
            old(self).wf(),
            old(self).has_room(),
            !old(self).config.vim_bindings,
        ensures
            final(self).wf(),
            Self::spec_edit_key(*old(self), *final(self), ev),
    {
        self.edit_key(ev);
    }

    pub open spec fn spec_vim_insert_key(a: Editor, b: Editor, ev: KeyEvent) -> bool {
        if ev.key == Key::Esc {
            b == (Editor {
                mode: Mode::Normal,
                cursor_x: if a.cursor_x > 0 && a.cursor_x == a.line().len() {
                    (a.cursor_x - 1) as usize
                } else {
                    a.cursor_x
                },
                dirty: true,
                ..a
            })
        } else {
            Self::spec_edit_key(a, b, ev)
        }
    }

    /// A key in Insert mode under modal bindings: Escape returns to Normal
    /// mode, stepping back off the line's end; the rest edit.
    pub fn handle_vim_insert_mode(&mut self, ev: KeyEvent)
        requires
            old(self).wf(),
            ev.key != Key::Esc ==> old(self).has_room(),
            old(self).mode == Mode::Insert,
            old(self).config.vim_bindings,
        ensures
            final(self).wf(),
            Self::spec_vim_insert_key(*old(self), *final(self), ev),
    {
        if ev.key == Key::Esc {
            self.mode = Mode::Normal;
            if self.cursor_x > 0 && self.cursor_x == self.current_line().len() {
                self.cursor_x -= 1;
            }
            self.dirty = true;
        } else {
            self.edit_key(ev);
        }
    }

    pub open spec fn spec_normal_char(a: Editor, b: Editor, c: char) -> bool {
        let ins = Editor { mode: Mode::Insert, ..a };
        let y = a.cursor_y as int;
        if c == ':' {
            b == (Editor { mode: Mode::Command, command_buffer: b.command_buffer, dirty: true, ..a })
                && b.command_buffer@ == Seq::<char>::empty()
        } else if c == '/' {
            b == (Editor { mode: Mode::Command, command_buffer: b.command_buffer, dirty: true, ..a })
                && b.command_buffer@ == seq!['/']
        } else if c == 'i' {
            b == (Editor { dirty: true, ..ins })
        } else if c == 'I' {
            Self::moved_to(ins, b, y, 0)
        } else if c == 'a' {
            Self::moved_to(ins, b, y, if a.cursor_x < a.line().len() { a.cursor_x + 1 } else { a.cursor_x as int })
        } else if c == 'A' {
            Self::moved_to(ins, b, y, a.line().len() as int)
        } else if c == 'o' {
            Self::edited_to(ins, b, a.text().insert(y + 1, seq![]), y + 1, 0)
        } else if c == 'O' {
            Self::edited_to(ins, b, a.text().insert(y, seq![]), y, 0)
        } else if c == 'h' {
            Self::spec_move_left(a, b)
        } else if c == 'j' {
            Self::spec_move_down(a, b)
        } else if c == 'k' {
            Self::spec_move_up(a, b)
        } else if c == 'l' {
            Self::spec_move_right(a, b)
        } else if c == '0' {
            Self::moved_to(a, b, y, 0)
        } else if c == '$' {
            Self::moved_to(a, b, y, a.limit(a.line().len() as int))
        } else if c == 'g' {
            Self::moved_to(a, b, 0, 0)
        } else if c == 'G' {
            Self::moved_to(a, b, a.buffer.len() - 1, 0)
        } else if c == 'w' {
            Self::spec_word_forward(a, b)
        } else if c == 'b' {
            Self::spec_word_backward(a, b)
        } else if c == 'e' {
            Self::spec_word_end(a, b)
        } else if c == 'x' {
            Self::spec_delete_char(a, b)
        } else if c == 'd' {
            Self::spec_delete_line(a, b)
        } else if c == 'y' {
            b == (Editor { clipboard: b.clipboard, ..a }) && views(b.clipboard@) == seq![a.line()]
        } else if c == 'p' {
            Self::spec_paste_after(a, b)
        } else if c == 'P' {
            Self::spec_paste_before(a, b)
        } else if c == 'n' {
            Self::spec_search_next(a, b)
        } else if c == 'N' {
            Self::spec_search_prev(a, b)
        } else {
            b == a
        }
    }

    pub open spec fn spec_normal_key(a: Editor, b: Editor, key: Key) -> bool {
        match key {
            Key::Char(c) => Self::spec_normal_char(a, b, c),
            Key::Left => Self::spec_move_left(a, b),
            Key::Right => Self::spec_move_right(a, b),
            Key::Up => Self::spec_move_up(a, b),
            Key::Down => Self::spec_move_down(a, b),
            Key::Home => Self::moved_to(a, b, a.cursor_y as int, 0),
            Key::End => Self::moved_to(a, b, a.cursor_y as int, a.limit(a.line().len() as int)),
            Key::PageUp => Self::spec_page_up(a, b),
            Key::PageDown => Self::spec_page_down(a, b),
            _ => b == a,
        }
    }

    fn enter_command(&mut self, prefix: Option<char>)
        requires
            old(self).wf(),
            old(self).mode == Mode::Normal,
        ensures
            final(self).wf(),
            *final(self) == (Editor {
                mode: Mode::Command,
                command_buffer: final(self).command_buffer,
                dirty: true,
                ..*old(self)
            }),
            final(self).command_buffer@ == match prefix {
                Some(c) => seq![c],
                None => Seq::<char>::empty(),
            },
    {
        let mut cmd: Vec<char> = Vec::new();
        if let Some(c) = prefix {
            cmd.push(c);
        }
        self.command_buffer = cmd;
        self.mode = Mode::Command;
        self.dirty = true;
        assert(self.command_buffer@ =~= match prefix {
            Some(c) => seq![c],
            None => Seq::<char>::empty(),
        });
    }

    /// A key in Normal mode: motions, operators, and the keys that enter
    /// Insert or Command mode.
    pub fn handle_normal_mode(&mut self, ev: KeyEvent)
        requires
            old(self).wf(),
            old(self).has_room(),
            old(self).mode == Mode::Normal,
        ensures
            final(self).wf(),
            Self::spec_normal_key(*old(self), *final(self), ev.key),
    {
        match ev.key {
            Key::Char(c) => {
                if c == ':' {
                    self.enter_command(None);
                } else if c == '/' {
                    self.enter_command(Some('/'));
                } else if c == 'i' {
                    self.mode = Mode::Insert;
                    self.dirty = true;
                } else if c == 'I' {
                    self.mode = Mode::Insert;
                    self.move_home();
                } else if c == 'a' {
                    self.mode = Mode::Insert;
                    if self.cursor_x < self.current_line().len() {
                        self.cursor_x += 1;
                    }
                    self.dirty = true;
                } else if c == 'A' {
                    self.mode = Mode::Insert;
                    self.move_end();
                } else if c == 'o' {
                    self.mode = Mode::Insert;
                    let y = self.cursor_y + 1;
                    self.open_line_at(y);
                } else if c == 'O' {
                    self.mode = Mode::Insert;
                    let y = self.cursor_y;
                    self.open_line_at(y);
                } else if c == 'h' {
                    self.move_left();
                } else if c == 'j' {
                    self.move_down();
                } else if c == 'k' {
                    self.move_up();
                } else if c == 'l' {
                    self.move_right();
                } else if c == '0' {
                    self.move_home();
                } else if c == '$' {
                    self.move_end();
                } else if c == 'g' {
                    self.move_first_line();
                } else if c == 'G' {
                    self.move_last_line();
                } else if c == 'w' {
                    self.move_word_forward();
                } else if c == 'b' {
                    self.move_word_backward();
                } else if c == 'e' {
                    self.move_word_end();
                } else if c == 'x' {
                    self.delete_char();
                } else if c == 'd' {
                    if self.last_key_was('d') {
                        self.delete_line();
                    }
                } else if c == 'y' {
                    if self.last_key_was('y') {
                        self.yank_line();
                    }
                } else if c == 'p' {
                    self.paste_after();
                } else if c == 'P' {
                    self.paste_before();
                } else if c == 'n' {
                    self.search_next();
                } else if c == 'N' {
                    self.search_prev();
                }
            },
            Key::Left => self.move_left(),
            Key::Right => self.move_right(),
            Key::Up => self.move_up(),
            Key::Down => self.move_down(),
            Key::Home => self.move_home(),
            Key::End => self.move_end(),
            Key::PageUp => self.page_up(),
            Key::PageDown => self.page_down(),
            _ => {},
        }
    }

    pub open spec fn spec_execute(a: Editor, b: Editor, quit: bool) -> bool {
        let cmd = a.command_buffer@;
        if cmd.len() > 0 && cmd[0] == '/' {
            let term = cmd.subrange(1, cmd.len() as int);
            &&& !quit
            &&& if term.len() > 0 {
                &&& Self::searched_to(a, b, term, true)
                &&& b.last_search.is_some()
                &&& b.last_search.unwrap()@ == term
            } else {
                b == a
            }
        } else {
            b == a && quit == (a.config.vim_bindings && cmd == seq!['q'])
        }
    }

    /// Runs the command line: `/pattern` stores the pattern and searches
    /// forward for it; `q` under modal bindings asks to quit; anything else
    /// is ignored. Returns whether to quit.
    pub fn execute_command(&mut self) -> (quit: bool)
        requires
            old(self).wf(),
        ensures
            final(self).wf(),
            Self::spec_execute(*old(self), *final(self), quit),
    {
        let n = self.command_buffer.len();
        if n > 0 && self.command_buffer[0] == '/' {
            let mut term = copy_line(&self.command_buffer);
            term.remove(0);
            assert(term@ =~= self.command_buffer@.subrange(1, n as int));
            if term.len() > 0 {
                self.last_search = Some(term);
                self.search_next();
            }
            false
        } else {
            let quit = self.config.vim_bindings && n == 1 && self.command_buffer[0] == 'q';
            assert(quit == (self.config.vim_bindings && self.command_buffer@ == seq!['q'])) by {
                if n == 1 && self.command_buffer@[0] == 'q' {
                    assert(self.command_buffer@ =~= seq!['q']);
                }
            }
            quit
        }
    }

    pub open spec fn spec_command_key(a: Editor, b: Editor, key: Key, quit: bool) -> bool {
        let cmd = a.command_buffer@;
        match key {
            Key::Esc => !quit && b == (Editor {
                mode: a.idle_mode(),
                cursor_x: a.idle_col(),
                command_buffer: b.command_buffer,
                dirty: true,
                ..a
            }) && b.command_buffer@ == Seq::<char>::empty(),
            Key::Enter => exists|m: Editor|
                #[trigger] Self::spec_execute(a, m, quit) && b == (Editor {
                    mode: a.idle_mode(),
                    cursor_x: m.idle_col(),
                    command_buffer: b.command_buffer,
                    dirty: true,
                    ..m
                }) && b.command_buffer@ == Seq::<char>::empty(),
            Key::Backspace => {
                let rest = if cmd.len() > 0 {
                    cmd.drop_last()
                } else {
                    cmd
                };
                &&& !quit
                &&& b == (Editor {
                    mode: if rest.len() == 0 {
                        a.idle_mode()
                    } else {
                        Mode::Command
                    },
                    cursor_x: if rest.len() == 0 {
                        a.idle_col()
                    } else {
                        a.cursor_x
                    },
                    command_buffer: b.command_buffer,
                    dirty: true,
                    ..a
                })
                &&& b.command_buffer@ == rest
            },
            Key::Char(c) => !quit && b == (Editor { command_buffer: b.command_buffer, dirty: true, ..a })
                && b.command_buffer@ == cmd.push(c),
            _ => !quit && b == a,
        }
    }

    /// Returns from Command mode to the idle mode, clamping the cursor by
    /// that mode's rule.
    fn return_to_idle(&mut self)
        requires
            old(self).wf(),
            old(self).mode == Mode::Command,
        ensures
            final(self).wf(),
            *final(self) == (Editor {
                mode: old(self).idle_mode(),
                cursor_x: old(self).idle_col(),
                ..*old(self)
            }),
    {
        let len = self.current_line().len();
        if self.config.vim_bindings {
            self.mode = Mode::Normal;
            if len > 0 && self.cursor_x >= len {
                self.cursor_x = len - 1;
            }
        } else {
            self.mode = Mode::Insert;
        }
    }

    fn leave_command(&mut self)
        requires
            old(self).wf(),
            old(self).mode == Mode::Command,
        ensures
            final(self).wf(),
            *final(self) == (Editor {
                mode: old(self).idle_mode(),
                cursor_x: old(self).idle_col(),
                command_buffer: final(self).command_buffer,
                dirty: true,
                ..*old(self)
            }),
            final(self).command_buffer@ == Seq::<char>::empty(),
    {
        self.return_to_idle();
        self.command_buffer.clear();
        self.dirty = true;
    }

    /// A key in Command mode: edits the command line, runs it on Enter,
    /// leaves it on Escape or when Backspace empties it. Returns whether to
    /// quit.
    pub fn handle_command_mode(&mut self, ev: KeyEvent) -> (quit: bool)
        requires
            old(self).wf(),
            old(self).mode == Mode::Command,
        ensures
            final(self).wf(),
            Self::spec_command_key(*old(self), *final(self), ev.key, quit),
    {
        match ev.key {
            Key::Esc => {
                self.leave_command();
                false
            },
            Key::Enter => {
                let quit = self.execute_command();
                let ghost m = *self;
                self.leave_command();
                assert(Self::spec_execute(*old(self), m, quit));
                quit
            },
            Key::Backspace => {
                self.command_buffer.pop();
                if self.command_buffer.len() == 0 {
                    self.return_to_idle();
                }
                self.dirty = true;
                false
            },
            Key::Char(c) => {
                self.command_buffer.push(c);
                self.dirty = true;
                false
            },
            _ => false,
        }
    }

    /// Whether `ev` is the quit chord, Ctrl-Q, honoured in every mode.
    pub open spec fn is_quit_chord(ev: KeyEvent) -> bool {
        ev.ctrl && ev.key == Key::Char('q')
    }

    pub open spec fn spec_key(a: Editor, b: Editor, ev: KeyEvent, quit: bool) -> bool {
        if Self::is_quit_chord(ev) {
            quit && b == a
        } else if a.config.vim_bindings {
            match a.mode {
                Mode::Normal => !quit && Self::spec_normal_key(a, b, ev.key),
                Mode::Insert => !quit && Self::spec_vim_insert_key(a, b, ev),
                Mode::Command => Self::spec_command_key(a, b, ev.key, quit),
            }
        } else {
            !quit && Self::spec_edit_key(a, b, ev)
        }
    }

    /// Dispatches a key press by bindings and mode. Returns whether to quit.
    pub fn handle_key_event(&mut self, ev: KeyEvent) -> (quit: bool)
        requires
            old(self).wf(),
            old(self).has_room(),
        ensures
            final(self).wf(),
            Self::spec_key(*old(self), *final(self), ev, quit),
    {
        if ev.ctrl && ev.key == Key::Char('q') {
            return true;
        }
        if self.config.vim_bindings {
            match self.mode {
                Mode::Normal => {
                    self.handle_normal_mode(ev);
                    false
                },
                Mode::Insert => {
                    self.handle_vim_insert_mode(ev);
                    false
                },
                Mode::Command => self.handle_command_mode(ev),
            }
        } else {
            self.handle_standard_mode(ev);
            false
        }
    }
}

} // verus!
