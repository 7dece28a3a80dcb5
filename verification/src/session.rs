//! The session as the program around it drives it: which operation a
//! command stands for, what saving writes, and how long a message stays.
//!
//! The program reads the keys, writes the file and watches the clock; what
//! follows from each of these is decided here.

use crate::editor::{CursorDirection, Editor, EditorView};
use crate::keyboard::Command;
use crate::row::RowView;
use crate::text::push_char;
use vstd::prelude::*;
use vstd::string::StringExecFns;

verus! {

/// What the program has to do after a command was applied to the session.
#[derive(Copy, Clone, PartialEq, Eq, Debug, Structural)]
pub enum Action {
    /// Nothing but drawing the screen.
    Redraw,
    /// End the session.
    Quit,
    /// Write the document to its file.
    Save,
    /// Type the clipboard's text.
    Paste,
    /// Ask the terminal for its size and take it over.
    Refresh,
    /// The command has no operation yet.
    NotSupported,
}

/// The number of seconds a message stays on the screen.
pub const STATUS_SECONDS: u64 = 10;

/// What the program has to do for `command`.
pub open spec fn action_of(command: Command) -> Action {
    match command {
        Command::Quit => Action::Quit,
        Command::Save => Action::Save,
        Command::Paste => Action::Paste,
        Command::Refresh => Action::Refresh,
        Command::Open | Command::Find | Command::Cut | Command::Copy => Action::NotSupported,
        _ => Action::Redraw,
    }
}

/// Whether a message that was set `secs` seconds and `nanos` nanoseconds
/// ago has been shown for longer than it stays.
pub open spec fn status_expired(secs: u64, nanos: u32) -> bool {
    secs > STATUS_SECONDS || (secs == STATUS_SECONDS && nanos > 0)
}

/// The text of a file that holds these rows: each row's characters and a
/// line feed behind them.
pub open spec fn file_text(rows: Seq<RowView>) -> Seq<char>
    decreases rows.len(),
{
    if rows.len() == 0 {
        Seq::empty()
    } else {
        file_text(rows.drop_last()) + rows.last().content.push('\n')
    }
}

impl EditorView {
    /// The session after `command`. Commands that the program carries out,
    /// and those that have no operation yet, leave it as it is.
    pub open spec fn applied(self, command: Command) -> EditorView {
        match command {
            Command::MoveUp => self.moved(CursorDirection::Up),
            Command::MoveDown => self.moved(CursorDirection::Down),
            Command::MoveLeft => self.moved(CursorDirection::Left),
            Command::MoveRight => self.moved(CursorDirection::Right),
            Command::MoveLeftWord => self.at_left_word(),
            Command::MoveRightWord => self.at_right_word(),
            Command::PageUp => self.paged(CursorDirection::Up),
            Command::PageDown => self.paged(CursorDirection::Down),
            Command::GoHome => self.at_line_start(),
            Command::GoEnd => self.at_line_end(),
            Command::BackspaceWord => self.word_backspaced(),
            Command::BackspaceLine => self.line_start_backspaced(),
            Command::Backspace => self.backspaced(),
            Command::Char(c) => if c == '\n' {
                self.with_newline()
            } else {
                self.typed(c)
            },
            _ => self,
        }
    }

    /// The session after the program has tried to save the document: a
    /// message tells how it went, and after a success the document counts
    /// as unchanged.
    pub open spec fn after_save(self, written: bool) -> EditorView
        recommends
            self.filename is Some,
    {
        if written {
            EditorView {
                modified: false,
                status_message: Some("Successfully written to "@ + self.filename->0),
                ..self
            }
        } else {
            EditorView { status_message: Some("Failed to save file"@), ..self }
        }
    }
}

impl Editor {
    /// Applies `command` to the session and says what is left for the
    /// program to do.
    #[verifier::rlimit(50)]
    pub fn apply(&mut self, command: Command) -> (action: Action)
        requires
            old(self)@.wf(),
        ensures
            final(self)@ == old(self)@.applied(command),
            final(self)@.wf(),
            action == action_of(command),
    {
        match command {
            Command::MoveUp => {
                self.move_cursor(CursorDirection::Up);
                Action::Redraw
            },
            Command::MoveDown => {
                self.move_cursor(CursorDirection::Down);
                Action::Redraw
            },
            Command::MoveLeft => {
                self.move_cursor(CursorDirection::Left);
                Action::Redraw
            },
            Command::MoveRight => {
                self.move_cursor(CursorDirection::Right);
                Action::Redraw
            },
            Command::MoveLeftWord => {
                self.cursor_to_left_word();
                Action::Redraw
            },
            Command::MoveRightWord => {
                self.cursor_to_right_word();
                Action::Redraw
            },
            Command::PageUp => {
                self.page_cursor(CursorDirection::Up);
                Action::Redraw
            },
            Command::PageDown => {
                self.page_cursor(CursorDirection::Down);
                Action::Redraw
            },
            Command::Save => Action::Save,
            Command::Open => Action::NotSupported,
            Command::Find => Action::NotSupported,
            Command::Cut => Action::NotSupported,
            Command::Copy => Action::NotSupported,
            Command::Paste => Action::Paste,
            Command::GoHome => {
                self.cursor_to_start_of_line();
                Action::Redraw
            },
            Command::GoEnd => {
                self.cursor_to_end_of_line();
                Action::Redraw
            },
            Command::BackspaceWord => {
                self.backspace_word();
                Action::Redraw
            },
            Command::BackspaceLine => {
                self.backspace_to_start_of_line();
                Action::Redraw
            },
            Command::Backspace => {
                self.backspace();
                Action::Redraw
            },
            Command::Refresh => Action::Refresh,
            Command::Quit => Action::Quit,
            Command::Char(c) => {
                if c == '\n' {
                    self.newline();
                } else {
                    self.insert_char(c);
                }
                Action::Redraw
            },
            Command::Delete => Action::Redraw,
            Command::Ignore => Action::Redraw,
        }
    }

    /// What saving has to write: the text of the file, or nothing where the
    /// document was not changed since it was loaded or saved.
    pub fn save_file(&self) -> (text: Option<String>)
        ensures
            match text {
                Some(t) => self@.modified && t@ == file_text(self@.rows),
                None => !self@.modified,
            },
    {
        if !self.modified {
            return None;
        }
        let mut text = String::new();
        let mut at: usize = 0;
        assert(self@.rows.take(0) =~= Seq::empty());
        while at < self.rows.len()
            invariant
                at <= self.rows.len(),
                self@.rows.len() == self.rows.len(),
                text@ == file_text(self@.rows.take(at as int)),
            decreases self.rows.len() - at,
        {
            let line = self.rows[at].content();
            text.append(line.as_str());
            push_char(&mut text, '\n');
            at = at + 1;
            proof {
                let upto = self@.rows.take(at as int);
                assert(upto.drop_last() =~= self@.rows.take(at - 1));
                assert(text@ =~= file_text(upto));
            }
        }
        assert(self@.rows.take(at as int) =~= self@.rows);
        Some(text)
    }

    /// Takes note of how saving went: `written` says whether the file now
    /// holds the document, or was left alone because nothing had changed.
    pub fn save_finished(&mut self, written: bool)
        requires
            old(self)@.filename is Some,
        ensures
            final(self)@ == old(self)@.after_save(written),
    {
        if written {
            let mut message = String::from_str("Successfully written to ");
            match &self.filename {
                Some(name) => message.append(name.as_str()),
                None => {},
            }
            self.modified = false;
            self.status_message = Some(message);
        } else {
            self.status_message = Some(String::from_str("Failed to save file"));
        }
    }

    /// Takes the message away once it has been shown for longer than it
    /// stays; `secs` and `nanos` say how long ago it was set.
    pub fn expire_status(&mut self, secs: u64, nanos: u32)
        ensures
            final(self)@ == if status_expired(secs, nanos) {
                EditorView { status_message: None, ..old(self)@ }
            } else {
                old(self)@
            },
    {
        if secs > STATUS_SECONDS || (secs == STATUS_SECONDS && nanos > 0) {
            self.empty_status();
        }
    }
}

} // verus!
