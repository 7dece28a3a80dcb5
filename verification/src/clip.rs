//! The clipboard as the editor sees it: the system's clipboard where that
//! one answers, and a text kept here where it does not.

use vstd::prelude::*;

verus! {

/// The text that was last put on the clipboard through this value.
pub struct Clipboard {
    contents: String,
}

impl View for Clipboard {
    type V = Seq<char>;

    closed spec fn view(&self) -> Seq<char> {
        self.contents@
    }
}

/// The text that reading the clipboard gives: what the system's clipboard
/// answered, or the text kept here where it gave no answer.
pub open spec fn clipboard_text(system: Option<Seq<char>>, kept: Seq<char>) -> Seq<char> {
    match system {
        Some(text) => text,
        None => kept,
    }
}

impl Clipboard {
    /// A clipboard that keeps no text yet.
    pub fn new() -> (clipboard: Self)
        ensures
            clipboard@ == Seq::<char>::empty(),
    {
        Clipboard { contents: String::new() }
    }

    /// Keeps `s`, whatever becomes of the attempt to hand it to the
    /// system's clipboard.
    pub fn set(&mut self, s: &str)
        ensures
            final(self)@ == s@,
    {
        self.contents = s.to_owned();
    }

    /// The clipboard's text. `system` is what the system's clipboard
    /// answered, `None` where it failed or is not there.
    pub fn get(&self, system: Option<String>) -> (text: String)
        ensures
            text@ == clipboard_text(
                match system {
                    Some(s) => Some(s@),
                    None => None,
                },
                self@,
            ),
    {
        match system {
            Some(text) => text,
            None => self.contents.clone(),
        }
    }
}

} // verus!
