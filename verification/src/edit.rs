//! Changing the document: typing, breaking a line and deleting backwards.
//!
//! Every change goes through the single-character operations, so that the
//! cursor and the window follow the text in one way only.

use crate::cursor::alnum_run_before;
use crate::editor::{Editor, EditorView};
use crate::row::{Row, RowView};
use vstd::prelude::*;

verus! {

/// `rows`, with empty rows added at the end until row `upto` exists.
pub open spec fn padded(rows: Seq<RowView>, upto: nat) -> Seq<RowView> {
    if upto < rows.len() {
        rows
    } else {
        rows + Seq::new((upto + 1 - rows.len()) as nat, |i: int| RowView::fresh(Seq::empty()))
    }
}

impl EditorView {
    /// The cursor one column further right: the window scrolls where the
    /// cursor is in its last column.
    pub open spec fn advanced(self) -> EditorView {
        if self.cursor_x == self.screen_cols - 1 {
            EditorView { col_offset: self.col_offset + 1, ..self }
        } else {
            EditorView { cursor_x: self.cursor_x + 1, ..self }
        }
    }

    /// The cursor one column further left: the window scrolls where the
    /// cursor is in its first column.
    pub open spec fn retreated(self) -> EditorView {
        if self.cursor_x > 0 {
            EditorView { cursor_x: (self.cursor_x - 1) as nat, ..self }
        } else if self.col_offset > 0 {
            EditorView { col_offset: (self.col_offset - 1) as nat, ..self }
        } else {
            self
        }
    }

    /// The session after `c` was typed: the document reaches down to the
    /// cursor's row, `c` stands at the cursor's column, and the cursor stands
    /// behind it.
    pub open spec fn typed(self, c: char) -> EditorView {
        let r = self.file_row() as int;
        let rows = padded(self.rows, self.file_row());
        EditorView {
            rows: rows.update(r, rows[r].with_char(self.file_col() as int, c)),
            modified: true,
            ..self.advanced()
        }
    }

    /// The session after the characters of `text` were typed one by one.
    pub open spec fn typed_all(self, text: Seq<char>) -> EditorView
        decreases text.len(),
    {
        if text.len() == 0 {
            self
        } else {
            self.typed_all(text.drop_last()).typed(text.last())
        }
    }

    /// The column at which a line break cuts the cursor's row: the cursor's
    /// column, or the end of the row where the cursor stands past it.
    pub open spec fn break_column(self) -> nat {
        if self.file_col() < self.current_len() {
            self.file_col()
        } else {
            self.current_len()
        }
    }

    /// The document after a line break at the cursor. Below the last row an
    /// empty row is added; at column zero an empty row is put in before the
    /// cursor's row; elsewhere the row is cut in two.
    pub open spec fn broken_rows(self) -> Seq<RowView> {
        let r = self.file_row() as int;
        let c = self.break_column() as int;
        if !self.on_row() {
            self.rows.push(RowView::fresh(Seq::empty()))
        } else if c == 0 {
            self.rows.insert(r, RowView::fresh(Seq::empty()))
        } else {
            self.rows.update(r, self.rows[r].head(c)).insert(r + 1, self.rows[r].tail(c))
        }
    }

    /// The session after a line break: the document is broken at the cursor,
    /// and the cursor stands at the start of the next row.
    pub open spec fn with_newline(self) -> EditorView {
        EditorView {
            rows: self.broken_rows(),
            cursor_x: 0,
            col_offset: 0,
            modified: true,
            ..self.row_below()
        }
    }

    /// Whether deleting backwards does nothing: at the very start of the
    /// document, and below its last row.
    pub open spec fn backspace_is_idle(self) -> bool {
        !self.on_row() || (self.file_col() == 0 && self.file_row() == 0)
    }

    /// The session after the cursor's row was joined to the row above it:
    /// that row holds both texts, and the cursor stands where it ended.
    pub open spec fn joined(self) -> EditorView
        recommends
            self.on_row(),
            self.file_row() > 0,
    {
        let r = self.file_row() as int;
        let above = self.rows[r - 1];
        EditorView {
            rows: self.rows.update(r - 1, above.extended(self.rows[r].content)).remove(r),
            modified: true,
            ..self.row_above().at_column(above.content.len())
        }
    }

    /// The session after the character left of the cursor was taken out.
    pub open spec fn rubbed_out(self) -> EditorView
        recommends
            self.on_row(),
            self.file_col() > 0,
    {
        let r = self.file_row() as int;
        EditorView {
            rows: self.rows.update(r, self.rows[r].without_char_before(self.file_col() as int)),
            modified: true,
            ..self.retreated()
        }
    }

    /// The session after deleting backwards once.
    pub open spec fn backspaced(self) -> EditorView {
        if self.backspace_is_idle() {
            self
        } else if self.file_col() == 0 {
            self.joined()
        } else {
            self.rubbed_out()
        }
    }

    /// The session after deleting backwards `n` times.
    pub open spec fn backspaced_times(self, n: nat) -> EditorView
        decreases n,
    {
        if n == 0 {
            self
        } else {
            self.backspaced_times((n - 1) as nat).backspaced()
        }
    }

    /// The session after the letters and digits before the cursor were
    /// deleted.
    pub open spec fn word_backspaced(self) -> EditorView {
        if self.on_row() {
            self.backspaced_times(
                alnum_run_before(self.rows[self.file_row() as int].content, self.file_col() as int),
            )
        } else {
            self
        }
    }

    /// The session after as many backward deletions as the cursor's column
    /// says.
    pub open spec fn line_start_backspaced(self) -> EditorView {
        if self.on_row() {
            self.backspaced_times(self.file_col())
        } else {
            self
        }
    }
}

/// Adds empty rows at the end of `rows` until row `upto` exists.
fn pad_rows(rows: &mut Vec<Row>, upto: usize)
    ensures
        final(rows)@.len() == if upto < old(rows)@.len() {
            old(rows)@.len() as int
        } else {
            upto + 1
        },
        forall|i: int| 0 <= i < old(rows)@.len() ==> final(rows)@[i] == old(rows)@[i],
        forall|i: int|
            old(rows)@.len() <= i < final(rows)@.len() ==> (#[trigger] final(rows)@[i])@
                == RowView::fresh(Seq::empty()),
{
    while rows.len() <= upto
        invariant
            old(rows)@.len() <= rows@.len(),
            upto >= old(rows)@.len() ==> rows@.len() <= upto + 1,
            upto < old(rows)@.len() ==> rows@.len() == old(rows)@.len(),
            forall|i: int| 0 <= i < old(rows)@.len() ==> rows@[i] == old(rows)@[i],
            forall|i: int|
                old(rows)@.len() <= i < rows@.len() ==> (#[trigger] rows@[i])@ == RowView::fresh(
                    Seq::empty(),
                ),
        decreases upto + 1 - rows@.len(),
    {
        rows.push(Row::empty());
    }
}

impl Editor {
    /// Types `c` at the cursor.
    #[verifier::rlimit(50)]
    pub fn insert_char(&mut self, c: char)
        requires
            old(self)@.wf(),
        ensures
            final(self)@ == old(self)@.typed(c),
            final(self)@.wf(),
    {
        assert(self@.rows.len() == self.rows.len());
        let file_row = self.row_offset + self.cursor_y;
        let file_col = self.col_offset + self.cursor_x;

        pad_rows(&mut self.rows, file_row);
        let ghost rows = padded(old(self)@.rows, file_row as nat);
        assert(self@.rows =~= rows);
        self.rows[file_row].insert_char(file_col, c);
        assert(self@.rows =~= rows.update(
            file_row as int,
            rows[file_row as int].with_char(file_col as int, c),
        ));
        proof {
            self.rows@[file_row as int].lemma_len_fits();
        }
        if self.right_edge() {
            self.col_offset += 1;
        } else {
            self.cursor_x += 1;
        }

        self.modified = true;
    }

    /// Types the characters of `text` one by one.
    pub fn insert_str(&mut self, text: &str)
        requires
            old(self)@.wf(),
        ensures
            final(self)@ == old(self)@.typed_all(text@),
            final(self)@.wf(),
    {
        let chars = crate::text::chars_of(text);
        let mut i: usize = 0;
        while i < chars.len()
            invariant
                i <= chars.len(),
                chars@ == text@,
                self@ == old(self)@.typed_all(text@.take(i as int)),
                self@.wf(),
            decreases chars.len() - i,
        {
            self.insert_char(chars[i]);
            i = i + 1;
            proof {
                let upto = text@.take(i as int);
                assert(upto.drop_last() =~= text@.take(i - 1));
            }
        }
        assert(text@.take(i as int) =~= text@);
    }

    /// Breaks the line at the cursor.
    #[verifier::rlimit(50)]
    pub fn newline(&mut self)
        requires
            old(self)@.in_frame(),
        ensures
            final(self)@ == old(self)@.with_newline(),
            final(self)@.wf(),
    {
        assert(self@.rows.len() == self.rows.len());
        let file_row = self.row_offset + self.cursor_y;
        let mut file_col = self.col_offset + self.cursor_x;

        if file_row == self.rows.len() {
            self.rows.push(Row::empty());
        } else {
            if file_col >= self.rows[file_row].len() {
                file_col = self.rows[file_row].len();
            }
            if file_col == 0 {
                self.rows.insert(file_row, Row::empty());
            } else {
                let rest = self.rows[file_row].split_off(file_col);
                self.rows.insert(file_row + 1, rest);
            }
        }
        assert(self@.rows =~= old(self)@.broken_rows());
        assert(self.rows.len() <= usize::MAX);
        if self.bottom_edge() {
            self.row_offset += 1;
        } else {
            self.cursor_y += 1;
        }

        self.cursor_x = 0;
        self.col_offset = 0;
        self.modified = true;
    }

    /// Deletes backwards: the character left of the cursor, or at the start
    /// of a row the break between it and the row above.
    #[verifier::rlimit(50)]
    pub fn backspace(&mut self)
        requires
            old(self)@.wf(),
        ensures
            final(self)@ == old(self)@.backspaced(),
            final(self)@.wf(),
    {
        assert(self@.rows.len() == self.rows.len());
        let file_row = self.row_offset + self.cursor_y;
        let file_col = self.col_offset + self.cursor_x;
        if file_row >= self.rows.len() || (file_col == 0 && file_row == 0) {
            return ;
        }
        if file_col == 0 {
            let row = self.rows.remove(file_row);
            let prior_row_len = self.rows[file_row - 1].len();
            self.rows[file_row - 1].absorb(row);
            assert(self@.rows =~= old(self)@.joined().rows);
            if self.cursor_y == 0 {
                self.row_offset -= 1;
            } else {
                self.cursor_y -= 1;
            }
            if prior_row_len >= self.screen_cols {
                self.col_offset = prior_row_len - (self.screen_cols - 1);
                self.cursor_x = self.screen_cols - 1;
            } else {
                self.col_offset = 0;
                self.cursor_x = prior_row_len;
            }
        } else {
            self.rows[file_row].backspace(file_col);
            assert(self@.rows =~= old(self)@.rubbed_out().rows);
            if self.left_edge() && self.col_offset > 0 {
                self.col_offset -= 1;
            } else if !self.left_edge() {
                self.cursor_x -= 1;
            }
        }

        self.modified = true;
    }

    /// Deletes backwards `n` times.
    pub fn backspace_times(&mut self, n: usize)
        requires
            old(self)@.wf(),
        ensures
            final(self)@ == old(self)@.backspaced_times(n as nat),
            final(self)@.wf(),
    {
        let mut i: usize = 0;
        while i < n
            invariant
                i <= n,
                self@ == old(self)@.backspaced_times(i as nat),
                self@.wf(),
            decreases n - i,
        {
            self.backspace();
            i = i + 1;
        }
    }

    /// Deletes the letters and digits that stand before the cursor.
    pub fn backspace_word(&mut self)
        requires
            old(self)@.wf(),
        ensures
            final(self)@ == old(self)@.word_backspaced(),
            final(self)@.wf(),
    {
        if let Some(num_backspaces) = self.find_previous_non_alphanumeric_char_index() {
            self.backspace_times(num_backspaces);
        }
    }

    /// Deletes backwards as many times as the cursor's column says, which
    /// on a row takes out everything before the cursor.
    pub fn backspace_to_start_of_line(&mut self)
        requires
            old(self)@.wf(),
        ensures
            final(self)@ == old(self)@.line_start_backspaced(),
            final(self)@.wf(),
    {
        assert(self@.rows.len() == self.rows.len());
        let file_row = self.row_offset + self.cursor_y;
        let file_col = self.col_offset + self.cursor_x;

        if file_row < self.rows.len() {
            self.backspace_times(file_col);
        }
    }
}

} // verus!
