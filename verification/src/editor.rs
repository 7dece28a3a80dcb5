//! The editing session: the document, the window onto it and the cursor.
//!
//! The cursor is kept relative to the window, and the window by the document
//! coordinates of its top-left cell. [`EditorView`] is the session as a plain
//! value; every operation is stated as a function on it.

pub use crate::row::{HighlightType, RenderedRow, Row, RowView};
use crate::syntax_highlight::HighlightParams;
use std::collections::HashSet;
use vstd::prelude::*;

verus! {

/// The elements of a language's syntax.
pub struct SyntaxHighlightRule {
    /// The keywords of the language.
    pub keywords: HashSet<String>,
    /// The character sequences that start a single-line comment.
    pub single_line_comment_start: HashSet<String>,
    /// The character sequence that starts a multi-line comment.
    pub multi_line_comment_start: String,
    /// The character sequence that ends a multi-line comment.
    pub multi_line_comment_end: String,
    /// Which elements of the syntax are highlighted.
    pub params: HighlightParams,
}

/// The four ways the cursor steps.
#[derive(Copy, Clone, PartialEq, Eq, Debug, Structural)]
pub enum CursorDirection {
    Up,
    Down,
    Left,
    Right,
}

/// The session as a plain value.
pub ghost struct EditorView {
    /// The cursor's column inside the window.
    pub cursor_x: nat,
    /// The cursor's line inside the window.
    pub cursor_y: nat,
    /// The document row shown on the window's first line.
    pub row_offset: nat,
    /// The document column shown in the window's first column.
    pub col_offset: nat,
    /// The number of lines of text the window shows.
    pub screen_rows: nat,
    /// The number of columns the window shows.
    pub screen_cols: nat,
    /// The document, in file order.
    pub rows: Seq<RowView>,
    /// Whether the document was changed since it was loaded or saved.
    pub modified: bool,
    /// The name of the file being edited.
    pub filename: Option<Seq<char>>,
    /// The message shown below the status bar.
    pub status_message: Option<Seq<char>>,
}

impl EditorView {
    /// The document row the cursor is on.
    pub open spec fn file_row(self) -> nat {
        self.row_offset + self.cursor_y
    }

    /// The document column the cursor is at.
    pub open spec fn file_col(self) -> nat {
        self.col_offset + self.cursor_x
    }

    /// Whether the cursor is on a row of the document, rather than on the
    /// line below its last row.
    pub open spec fn on_row(self) -> bool {
        self.file_row() < self.rows.len()
    }

    /// The length of row `r`; zero where the document has no such row.
    pub open spec fn row_len(self, r: int) -> nat {
        if 0 <= r < self.rows.len() {
            self.rows[r].content.len()
        } else {
            0
        }
    }

    /// The length of the row the cursor is on.
    pub open spec fn current_len(self) -> nat {
        self.row_len(self.file_row() as int)
    }

    /// The part of validity that holds at every moment: the cursor is inside
    /// the window and on a row of the document or on the line just below it,
    /// where it stands at column zero.
    pub open spec fn in_frame(self) -> bool {
        &&& self.cursor_y < self.screen_rows
        &&& self.cursor_x < self.screen_cols
        &&& self.file_row() <= self.rows.len()
        &&& !self.on_row() ==> self.file_col() == 0
        &&& self.file_col() <= usize::MAX
    }

    /// Validity of a session at rest: it is in frame, and the cursor is at a
    /// column of its row or at the row's end.
    pub open spec fn wf(self) -> bool {
        &&& self.in_frame()
        &&& self.file_col() <= self.current_len()
    }

    /// A session on an empty document in a window of the given size.
    pub open spec fn initial(screen_rows: nat, screen_cols: nat) -> EditorView {
        EditorView {
            cursor_x: 0,
            cursor_y: 0,
            row_offset: 0,
            col_offset: 0,
            screen_rows,
            screen_cols,
            rows: Seq::empty(),
            modified: false,
            filename: None,
            status_message: None,
        }
    }

    /// The session in a window of another size. The cursor keeps its place in
    /// the document; where it would fall outside the new window, the window
    /// moves just far enough to hold it.
    pub open spec fn resized(self, screen_rows: nat, screen_cols: nat) -> EditorView
        recommends
            screen_rows > 0,
            screen_cols > 0,
    {
        let cursor_y = if self.cursor_y < screen_rows {
            self.cursor_y
        } else {
            (screen_rows - 1) as nat
        };
        let cursor_x = if self.cursor_x < screen_cols {
            self.cursor_x
        } else {
            (screen_cols - 1) as nat
        };
        EditorView {
            cursor_x,
            cursor_y,
            row_offset: (self.file_row() - cursor_y) as nat,
            col_offset: (self.file_col() - cursor_x) as nat,
            screen_rows,
            screen_cols,
            ..self
        }
    }

    /// The session after a file of these lines was opened under `filename`.
    pub open spec fn loaded(self, filename: Seq<char>, lines: Seq<Seq<char>>) -> EditorView {
        EditorView {
            cursor_x: 0,
            cursor_y: 0,
            row_offset: 0,
            col_offset: 0,
            rows: Seq::new(
                lines.len(),
                |i: int| RowView { index_in_file: i as nat, content: lines[i] },
            ),
            modified: false,
            filename: Some(filename),
            ..self
        }
    }

    /// The lines to write when the document is saved.
    pub open spec fn lines(self) -> Seq<Seq<char>> {
        Seq::new(self.rows.len(), |i: int| self.rows[i].content)
    }
}

/// The number of terminal lines kept for the status bar and the message.
pub const RESERVED_LINES: usize = 3;

/// The editor's state.
pub struct Editor {
    /// The cursor's column inside the window.
    pub(crate) cursor_x: usize,
    /// The cursor's line inside the window.
    pub(crate) cursor_y: usize,
    /// The document row shown on the window's first line.
    pub(crate) row_offset: usize,
    /// The document column shown in the window's first column.
    pub(crate) col_offset: usize,
    /// The number of lines of text the window shows.
    pub(crate) screen_rows: usize,
    /// The number of columns the window shows.
    pub(crate) screen_cols: usize,
    /// The document.
    pub(crate) rows: Vec<Row>,
    /// Whether the document was changed since it was loaded or saved.
    pub(crate) modified: bool,
    /// The name of the file being edited.
    pub filename: Option<String>,
    /// The message shown below the status bar.
    pub(crate) status_message: Option<String>,
    /// The syntax highlighting rule in force.
    pub(crate) syntax_highlight: Option<SyntaxHighlightRule>,
}

/// The characters of a text that may be missing.
pub open spec fn text_view(text: Option<String>) -> Option<Seq<char>> {
    match text {
        Some(s) => Some(s@),
        None => None,
    }
}

impl Editor {
    /// The session as a plain value.
    pub open(crate) spec fn view(&self) -> EditorView {
        EditorView {
            cursor_x: self.cursor_x as nat,
            cursor_y: self.cursor_y as nat,
            row_offset: self.row_offset as nat,
            col_offset: self.col_offset as nat,
            screen_rows: self.screen_rows as nat,
            screen_cols: self.screen_cols as nat,
            rows: Seq::new(self.rows@.len(), |i: int| self.rows@[i]@),
            modified: self.modified,
            filename: text_view(self.filename),
            status_message: text_view(self.status_message),
        }
    }

    /// Every row of the document has a length that the machine can hold.
    pub proof fn lemma_rows_fit(&self)
        ensures
            self@.rows.len() <= usize::MAX,
            forall|r: int| 0 <= r < self@.rows.len() ==> self@.row_len(r) <= usize::MAX,
    {
        assert(self.rows.len() <= usize::MAX);
        assert forall|r: int| 0 <= r < self@.rows.len() implies self@.row_len(r)
            <= usize::MAX by {
            self.rows@[r].lemma_len_fits();
        }
    }

    /// An editor on an empty document, for a terminal of `screen_rows` lines
    /// and `screen_cols` columns. Three of the lines are kept for the status
    /// bar and the message, and at least one must be left for text.
    pub fn new(screen_rows: usize, screen_cols: usize) -> (editor: Self)
        requires
            screen_rows > RESERVED_LINES,
            screen_cols > 0,
        ensures
            editor@ == EditorView::initial((screen_rows - RESERVED_LINES) as nat, screen_cols as nat),
            editor@.wf(),
    {
        let editor = Editor {
            cursor_x: 0,
            cursor_y: 0,
            row_offset: 0,
            col_offset: 0,
            screen_rows: screen_rows - RESERVED_LINES,
            screen_cols: screen_cols,
            rows: Vec::new(),
            modified: false,
            filename: None,
            status_message: None,
            syntax_highlight: None,
        };
        assert(editor@.rows =~= Seq::empty());
        editor
    }

    /// Takes over the size of a terminal of `screen_rows` lines and
    /// `screen_cols` columns.
    pub fn set_screen_size(&mut self, screen_rows: usize, screen_cols: usize)
        requires
            old(self)@.in_frame(),
            screen_rows > RESERVED_LINES,
            screen_cols > 0,
        ensures
            final(self)@ == old(self)@.resized(
                (screen_rows - RESERVED_LINES) as nat,
                screen_cols as nat,
            ),
            final(self)@.in_frame(),
            old(self)@.wf() ==> final(self)@.wf(),
    {
        assert(self@.rows.len() == self.rows.len());
        let file_row = self.row_offset + self.cursor_y;
        let file_col = self.col_offset + self.cursor_x;
        self.screen_rows = screen_rows - RESERVED_LINES;
        self.screen_cols = screen_cols;
        if self.cursor_y >= self.screen_rows {
            self.cursor_y = self.screen_rows - 1;
        }
        if self.cursor_x >= self.screen_cols {
            self.cursor_x = self.screen_cols - 1;
        }
        self.row_offset = file_row - self.cursor_y;
        self.col_offset = file_col - self.cursor_x;
    }

    /// Whether the cursor is in the window's first column.
    #[inline(always)]
    pub fn left_edge(&self) -> (edge: bool)
        ensures
            edge == (self@.cursor_x == 0),
    {
        self.cursor_x == 0
    }

    /// Whether the cursor is in the window's last column.
    #[inline(always)]
    pub fn right_edge(&self) -> (edge: bool)
        requires
            self@.screen_cols > 0,
        ensures
            edge == (self@.cursor_x == self@.screen_cols - 1),
    {
        self.cursor_x == self.screen_cols - 1
    }

    /// Whether the cursor is on the window's first line.
    #[inline(always)]
    pub fn top_edge(&self) -> (edge: bool)
        ensures
            edge == (self@.cursor_y == 0),
    {
        self.cursor_y == 0
    }

    /// Whether the cursor is on the window's last line.
    #[inline(always)]
    pub fn bottom_edge(&self) -> (edge: bool)
        requires
            self@.screen_rows > 0,
        ensures
            edge == (self@.cursor_y == self@.screen_rows - 1),
    {
        self.cursor_y == self.screen_rows - 1
    }

    /// Takes the message away.
    pub fn empty_status(&mut self)
        ensures
            final(self)@ == (EditorView { status_message: None, ..old(self)@ }),
    {
        self.status_message = None;
    }

    /// Sets the message to show below the status bar.
    pub fn display_status(&mut self, status: &str)
        ensures
            final(self)@ == (EditorView { status_message: Some(status@), ..old(self)@ }),
    {
        self.status_message = Some(status.to_owned());
    }

    /// Replaces the document by the lines of a file that was opened under
    /// `filename`, and puts the cursor at its start.
    pub fn open_file(&mut self, filename: &str, lines: Vec<String>)
        requires
            old(self)@.in_frame(),
        ensures
            final(self)@ == old(self)@.loaded(filename@, lines@.map_values(|l: String| l@)),
            final(self)@.wf(),
    {
        let ghost texts = lines@.map_values(|l: String| l@);
        let mut rows: Vec<Row> = Vec::new();
        let mut at: usize = 0;
        while at < lines.len()
            invariant
                at <= lines.len(),
                texts == lines@.map_values(|l: String| l@),
                rows@.len() == at,
                forall|i: int|
                    0 <= i < at ==> (#[trigger] rows@[i])@ == (RowView {
                        index_in_file: i as nat,
                        content: texts[i],
                    }),
            decreases lines.len() - at,
        {
            rows.push(Row::new(at, lines[at].as_str()));
            at = at + 1;
        }
        self.modified = false;
        self.filename = Some(filename.to_owned());
        self.rows = rows;
        self.cursor_x = 0;
        self.cursor_y = 0;
        self.row_offset = 0;
        self.col_offset = 0;
        assert(self@.rows =~= old(self)@.loaded(filename@, texts).rows);
    }
}

impl Editor {
    /// The cursor's column inside the window.
    pub fn cursor_x(&self) -> (x: usize)
        ensures
            x == self@.cursor_x,
    {
        self.cursor_x
    }

    /// The cursor's line inside the window.
    pub fn cursor_y(&self) -> (y: usize)
        ensures
            y == self@.cursor_y,
    {
        self.cursor_y
    }

    /// The document row shown on the window's first line.
    pub fn row_offset(&self) -> (row: usize)
        ensures
            row == self@.row_offset,
    {
        self.row_offset
    }

    /// The document column shown in the window's first column.
    pub fn col_offset(&self) -> (col: usize)
        ensures
            col == self@.col_offset,
    {
        self.col_offset
    }

    /// The number of lines of text the window shows.
    pub fn screen_rows(&self) -> (rows: usize)
        ensures
            rows == self@.screen_rows,
    {
        self.screen_rows
    }

    /// The number of columns the window shows.
    pub fn screen_cols(&self) -> (cols: usize)
        ensures
            cols == self@.screen_cols,
    {
        self.screen_cols
    }

    /// The document row and column the cursor is at.
    pub fn position(&self) -> (at: (usize, usize))
        requires
            self@.in_frame(),
        ensures
            at.0 == self@.file_row(),
            at.1 == self@.file_col(),
    {
        assert(self@.rows.len() == self.rows.len());
        (self.row_offset + self.cursor_y, self.col_offset + self.cursor_x)
    }

    /// Whether the document was changed since it was loaded or saved.
    pub fn is_modified(&self) -> (modified: bool)
        ensures
            modified == self@.modified,
    {
        self.modified
    }

    /// The message shown below the status bar.
    pub fn status_message(&self) -> (message: Option<String>)
        ensures
            text_view(message) == self@.status_message,
    {
        self.status_message.clone()
    }

    /// The number of rows of the document.
    pub fn row_count(&self) -> (count: usize)
        ensures
            count == self@.rows.len(),
    {
        self.rows.len()
    }

    /// The text of row `row`; `None` where the document has no such row.
    pub fn row_text(&self, row: usize) -> (text: Option<String>)
        ensures
            match text {
                Some(t) => row < self@.rows.len() && t@ == self@.rows[row as int].content,
                None => row >= self@.rows.len(),
            },
    {
        if row < self.rows.len() {
            Some(self.rows[row].content())
        } else {
            None
        }
    }
}

} // verus!
