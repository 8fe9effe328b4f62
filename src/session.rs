//! The event loop's clock-driven chores, and loading and saving the document.

use vstd::prelude::*;
use crate::editor::Editor;
use crate::text::{
    join_lines, joined, load_then_save, load_then_save_trimmed, loaded, loaded_lines, no_cr, round_trips,
    trim_newlines,
};
use crate::typing::since;

verus! {

/// Work that the event loop owes the outside world.
#[derive(Clone, Copy, Debug, PartialEq, Eq, Structural)]
pub struct Chores {
    /// Write the document (pending edits and a quiet second since the last).
    pub save_file: bool,
    /// Write the typing time (ten seconds since it was last written).
    pub save_typing: bool,
}

/// Loading a text that `round_trips` admits into the editor and saving it
/// with no edit in between writes back that same text.
pub proof fn load_save_round_trip(a: Editor, b: Editor, filename: String, content: Seq<char>)
    requires
        Editor::spec_load(a, b, filename, content),
        round_trips(content),
    ensures
        joined(b.text()) == content,
{
    load_then_save(content);
}

impl Editor {
    pub open spec fn spec_tick(a: Editor, b: Editor, now: u64, r: Chores) -> bool {
        &&& r.save_file == (a.needs_save && since(now, a.last_save) > 1000)
        &&& r.save_typing == (since(now, a.last_typing_save) > 10000)
        &&& b == (Editor {
            now_ms: now,
            typing: a.typing.folded(now),
            last_typing_save: if r.save_typing {
                now
            } else {
                a.last_typing_save
            },
            ..a
        })
    }

    /// One turn of the event loop's clock: folds typing time and says which
    /// writes are due.
    pub fn tick(&mut self, now: u64) -> (r: Chores)
        requires
            old(self).wf(),
        ensures
            final(self).wf(),
            Self::spec_tick(*old(self), *final(self), now, r),
    {
        self.now_ms = now;
        let save_file = self.needs_save && now >= self.last_save && now - self.last_save > 1000;
        self.typing.fold(now);
        let save_typing = now >= self.last_typing_save && now - self.last_typing_save > 10000;
        if save_typing {
            self.last_typing_save = now;
        }
        Chores { save_file, save_typing }
    }

    /// The document as text: its lines joined by newlines.
    pub fn contents(&self) -> (r: Vec<char>)
        ensures
            r@ == joined(self.text()),
    {
        join_lines(&self.buffer)
    }

    /// The text to write to the document's file, if it has one.
    pub fn auto_save(&self) -> (r: Option<Vec<char>>)
        ensures
            r.is_some() == self.filename.is_some(),
            r.is_some() ==> r.unwrap()@ == joined(self.text()),
    {
        if self.filename.is_some() {
            Some(self.contents())
        } else {
            None
        }
    }

    /// Records that the document was written at the current instant.
    pub fn mark_saved(&mut self)
        ensures
            *final(self) == (Editor { needs_save: false, last_save: old(self).now_ms, ..*old(self) }),
    {
        self.needs_save = false;
        self.last_save = self.now_ms;
    }

    pub open spec fn spec_load(a: Editor, b: Editor, filename: String, content: Seq<char>) -> bool {
        &&& b.text() == loaded(content)
        &&& b.cursor_y == b.buffer.len() - 1
        &&& b.cursor_x == 0
        &&& b.filename == Some(filename)
        &&& b.dirty
        &&& b == (Editor {
            buffer: b.buffer,
            cursor_x: b.cursor_x,
            cursor_y: b.cursor_y,
            filename: b.filename,
            dirty: true,
            ..a
        })
    }

    /// Replaces the document with the text read from `filename` and puts the
    /// cursor on the empty line that ends it.
    pub fn load_file(&mut self, filename: String, content: &Vec<char>)
        requires
            old(self).wf(),
        ensures
            final(self).wf(),
            Self::spec_load(*old(self), *final(self), filename, content@),
    {
        self.buffer = loaded_lines(content);
        assert(self.text().len() == self.buffer.len());
        self.cursor_y = self.buffer.len() - 1;
        self.cursor_x = 0;
        self.filename = Some(filename);
        self.dirty = true;
    }
}

/// Loading any text without carriage returns into the editor and saving it
/// with no edit in between writes back that text up to its trailing
/// newlines.
pub proof fn load_save_trimmed(a: Editor, b: Editor, filename: String, content: Seq<char>)
    requires
        Editor::spec_load(a, b, filename, content),
        no_cr(content),
    ensures
        trim_newlines(joined(b.text())) == trim_newlines(content),
{
    load_then_save_trimmed(content);
}

} // verus!
