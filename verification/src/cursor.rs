//! Moving the cursor: the single step, and the movements made of steps.
//!
//! A step changes the cursor's place in the window and, at the window's
//! edges, the window's place in the document. Every longer movement is a
//! number of steps, so that it scrolls and wraps exactly as they do.

use crate::editor::{CursorDirection, Editor, EditorView};
use crate::text::{char_is_alphanumeric, is_alphanumeric};
use vstd::prelude::*;

verus! {

/// The number of letters and digits that stand in `text` immediately left of
/// column `at`, one after the other.
pub open spec fn alnum_run_before(text: Seq<char>, at: int) -> nat
    decreases at,
{
    if 0 < at <= text.len() && is_alphanumeric(text[at - 1]) {
        1 + alnum_run_before(text, at - 1)
    } else {
        0
    }
}

/// The number of letters and digits that stand in `text` from column `at`
/// on, one after the other.
pub open spec fn alnum_run_from(text: Seq<char>, at: int) -> nat
    decreases text.len() - at,
{
    if 0 <= at < text.len() && is_alphanumeric(text[at]) {
        1 + alnum_run_from(text, at + 1)
    } else {
        0
    }
}

impl EditorView {
    /// The cursor one row up: the window scrolls where the cursor is on its
    /// first line.
    pub open spec fn row_above(self) -> EditorView {
        if self.cursor_y == 0 {
            EditorView { row_offset: (self.row_offset - 1) as nat, ..self }
        } else {
            EditorView { cursor_y: (self.cursor_y - 1) as nat, ..self }
        }
    }

    /// The cursor one row down: the window scrolls where the cursor is on
    /// its last line.
    pub open spec fn row_below(self) -> EditorView {
        if self.cursor_y == self.screen_rows - 1 {
            EditorView { row_offset: self.row_offset + 1, ..self }
        } else {
            EditorView { cursor_y: self.cursor_y + 1, ..self }
        }
    }

    /// The cursor at document column `col`, arriving from the left end of
    /// the row: the window stays at column zero while `col` fits into it,
    /// and otherwise shows `col` in its last column.
    pub open spec fn at_column(self, col: nat) -> EditorView {
        if col > self.screen_cols - 1 {
            EditorView {
                col_offset: (col - self.screen_cols + 1) as nat,
                cursor_x: (self.screen_cols - 1) as nat,
                ..self
            }
        } else {
            EditorView { col_offset: 0, cursor_x: col, ..self }
        }
    }

    /// A step to the left, before the column is put right. Inside the
    /// window's first column the window scrolls left; at document column zero
    /// the cursor goes to the end of the row above, if there is one.
    pub open spec fn shifted_left(self) -> EditorView {
        if self.cursor_x == 0 {
            if self.col_offset > 0 {
                EditorView { col_offset: (self.col_offset - 1) as nat, ..self }
            } else if self.file_row() > 0 {
                self.row_above().at_column(self.row_len(self.file_row() - 1))
            } else {
                self
            }
        } else {
            EditorView { cursor_x: (self.cursor_x - 1) as nat, ..self }
        }
    }

    /// A step to the right, before the column is put right. Over a character
    /// the cursor advances, scrolling in the window's last column; at the end
    /// of a row it goes to the start of the next row, if there is one.
    pub open spec fn shifted_right(self) -> EditorView {
        if self.on_row() && self.file_col() < self.current_len() {
            if self.cursor_x == self.screen_cols - 1 {
                EditorView { col_offset: self.col_offset + 1, ..self }
            } else {
                EditorView { cursor_x: self.cursor_x + 1, ..self }
            }
        } else if self.on_row() && self.file_col() == self.current_len() && self.file_row() + 1
            < self.rows.len() {
            EditorView { cursor_x: 0, col_offset: 0, ..self.row_below() }
        } else {
            self
        }
    }

    /// A step up, before the column is put right: to the row above, if
    /// there is one.
    pub open spec fn shifted_up(self) -> EditorView {
        if self.file_row() > 0 {
            self.row_above()
        } else {
            self
        }
    }

    /// A step down, before the column is put right: to the row below, if
    /// there is one.
    pub open spec fn shifted_down(self) -> EditorView {
        if self.file_row() + 1 < self.rows.len() {
            self.row_below()
        } else {
            self
        }
    }

    /// A step in direction `dir`, before the column is put right.
    pub open spec fn shifted(self, dir: CursorDirection) -> EditorView {
        match dir {
            CursorDirection::Left => self.shifted_left(),
            CursorDirection::Right => self.shifted_right(),
            CursorDirection::Up => self.shifted_up(),
            CursorDirection::Down => self.shifted_down(),
        }
    }

    /// The cursor pulled back to the end of its row where it stands past it.
    /// The cursor gives way inside the window first; only what it cannot
    /// take is taken from the window's column offset.
    pub open spec fn reclamped(self) -> EditorView {
        if self.on_row() && self.file_col() > self.current_len() {
            let excess = self.file_col() - self.current_len();
            if self.cursor_x >= excess {
                EditorView { cursor_x: (self.cursor_x - excess) as nat, ..self }
            } else {
                EditorView {
                    cursor_x: 0,
                    col_offset: (self.col_offset - (excess - self.cursor_x)) as nat,
                    ..self
                }
            }
        } else {
            self
        }
    }

    /// One step in direction `dir`.
    pub open spec fn moved(self, dir: CursorDirection) -> EditorView {
        self.shifted(dir).reclamped()
    }

    /// `n` steps in direction `dir`.
    pub open spec fn moved_times(self, dir: CursorDirection, n: nat) -> EditorView
        decreases n,
    {
        if n == 0 {
            self
        } else {
            self.moved_times(dir, (n - 1) as nat).moved(dir)
        }
    }

    /// The cursor at the start of its row, the window at column zero.
    pub open spec fn at_line_start(self) -> EditorView {
        EditorView { col_offset: 0, cursor_x: 0, ..self }
    }

    /// The cursor stepped right to the end of its row.
    pub open spec fn at_line_end(self) -> EditorView {
        if self.on_row() {
            self.moved_times(
                CursorDirection::Right,
                (self.current_len() - self.file_col()) as nat,
            )
        } else {
            self
        }
    }

    /// The cursor moved left over the letters and digits before it and over
    /// one character more.
    pub open spec fn at_left_word(self) -> EditorView {
        if self.on_row() {
            self.moved_times(
                CursorDirection::Left,
                alnum_run_before(self.rows[self.file_row() as int].content, self.file_col() as int)
                    + 1,
            )
        } else {
            self
        }
    }

    /// The cursor moved right over the character it is on and over the
    /// letters and digits that follow that one.
    pub open spec fn at_right_word(self) -> EditorView {
        if self.on_row() {
            self.moved_times(
                CursorDirection::Right,
                alnum_run_from(
                    self.rows[self.file_row() as int].content,
                    (self.file_col() + 1) as int,
                )
                    + 1,
            )
        } else {
            self
        }
    }

    /// The cursor put on the window line from which a page movement starts:
    /// the first line for a page up; for a page down the last line, or the
    /// document's last row where that one is shown above it. The window does
    /// not move.
    pub open spec fn snapped(self, dir: CursorDirection) -> EditorView {
        if dir == CursorDirection::Up {
            EditorView { cursor_y: 0, ..self }
        } else if dir == CursorDirection::Down && self.on_row() {
            let last = self.rows.len() - 1 - self.row_offset;
            if last < self.screen_rows - 1 {
                EditorView { cursor_y: last as nat, ..self }
            } else {
                EditorView { cursor_y: (self.screen_rows - 1) as nat, ..self }
            }
        } else {
            self
        }
    }

    /// A page movement: the cursor is put on the window's near edge, then
    /// makes as many steps as the window has lines.
    pub open spec fn paged(self, dir: CursorDirection) -> EditorView {
        self.snapped(dir).moved_times(dir, self.screen_rows)
    }
}

impl EditorView {
    /// A step leaves the session in frame, though the cursor may stand past
    /// the end of the row it comes to.
    #[verifier::rlimit(50)]
    pub proof fn lemma_shifted_in_frame(self, dir: CursorDirection)
        requires
            self.in_frame(),
            forall|r: int| 0 <= r < self.rows.len() ==> self.row_len(r) <= usize::MAX,
        ensures
            self.shifted(dir).cursor_y < self.screen_rows,
            self.shifted(dir).cursor_x < self.screen_cols,
            self.shifted(dir).file_row() <= self.rows.len(),
            !self.shifted(dir).on_row() ==> self.shifted(dir).file_col() == 0,
            self.shifted(dir).file_col() <= usize::MAX,
            self.shifted(dir).rows == self.rows,
            self.shifted(dir).screen_rows == self.screen_rows,
            self.shifted(dir).screen_cols == self.screen_cols,
    {
    }

    /// Putting the column right makes a session that is in frame valid.
    pub proof fn lemma_reclamped_wf(self)
        requires
            self.in_frame(),
        ensures
            self.reclamped().wf(),
    {
    }
}

impl Editor {
    /// Makes the step to the left, leaving the column to be put right.
    #[verifier::rlimit(50)]
    fn shift_left(&mut self)
        requires
            old(self)@.in_frame(),
        ensures
            final(self)@ == old(self)@.shifted_left(),
    {
        assert(self@.rows.len() == self.rows.len());
        let file_row = self.row_offset + self.cursor_y;
        if self.left_edge() {
            if self.col_offset > 0 {
                self.col_offset -= 1;
            } else if file_row > 0 {
                if self.top_edge() {
                    self.row_offset -= 1;
                } else {
                    self.cursor_y -= 1;
                }
                self.cursor_x = self.rows[file_row - 1].len();
                if self.cursor_x > self.screen_cols - 1 {
                    self.col_offset = self.cursor_x - self.screen_cols + 1;
                    self.cursor_x = self.screen_cols - 1;
                }
            }
        } else {
            self.cursor_x -= 1;
        }
    }

    /// Makes the step to the right, leaving the column to be put right.
    #[verifier::rlimit(50)]
    fn shift_right(&mut self)
        requires
            old(self)@.in_frame(),
        ensures
            final(self)@ == old(self)@.shifted_right(),
    {
        assert(self@.rows.len() == self.rows.len());
        let file_row = self.row_offset + self.cursor_y;
        let file_col = self.col_offset + self.cursor_x;
        let row_exists = file_row < self.rows.len();
        proof {
            if row_exists {
                self.rows[file_row as int].lemma_len_fits();
            }
        }
        if row_exists && self.rows[file_row].column_exists(file_col) {
            if self.right_edge() {
                self.col_offset += 1;
            } else {
                self.cursor_x += 1;
            }
        } else if row_exists && self.rows[file_row].is_end(file_col) && file_row + 1
            < self.rows.len() {
            self.cursor_x = 0;
            self.col_offset = 0;
            if self.bottom_edge() {
                self.row_offset += 1;
            } else {
                self.cursor_y += 1;
            }
        }
    }

    /// Makes the step up, leaving the column to be put right.
    fn shift_up(&mut self)
        requires
            old(self)@.in_frame(),
        ensures
            final(self)@ == old(self)@.shifted_up(),
    {
        if self.top_edge() {
            if self.row_offset > 0 {
                self.row_offset -= 1;
            }
        } else {
            self.cursor_y -= 1;
        }
    }

    /// Makes the step down, leaving the column to be put right.
    fn shift_down(&mut self)
        requires
            old(self)@.in_frame(),
        ensures
            final(self)@ == old(self)@.shifted_down(),
    {
        assert(self@.rows.len() == self.rows.len());
        let file_row = self.row_offset + self.cursor_y;
        if file_row < self.rows.len() && file_row + 1 < self.rows.len() {
            if self.bottom_edge() {
                self.row_offset += 1;
            } else {
                self.cursor_y += 1;
            }
        }
    }

    /// Pulls the cursor back to the end of its row where it stands past it.
    fn reclamp(&mut self)
        requires
            old(self)@.file_row() <= old(self)@.rows.len(),
            old(self)@.file_col() <= usize::MAX,
        ensures
            final(self)@ == old(self)@.reclamped(),
    {
        assert(self@.rows.len() == self.rows.len());
        let file_row = self.row_offset + self.cursor_y;
        let file_col = self.col_offset + self.cursor_x;
        if file_row < self.rows.len() {
            let len = self.rows[file_row].len();
            if file_col > len {
                let excess = file_col - len;
                if self.cursor_x >= excess {
                    self.cursor_x -= excess;
                } else {
                    self.col_offset -= excess - self.cursor_x;
                    self.cursor_x = 0;
                }
            }
        }
    }

    /// Moves the cursor one step in direction `dir`.
    #[verifier::rlimit(50)]
    pub fn move_cursor(&mut self, dir: CursorDirection)
        requires
            old(self)@.in_frame(),
        ensures
            final(self)@ == old(self)@.moved(dir),
            final(self)@.wf(),
    {
        match dir {
            CursorDirection::Left => self.shift_left(),
            CursorDirection::Right => self.shift_right(),
            CursorDirection::Up => self.shift_up(),
            CursorDirection::Down => self.shift_down(),
        }
        proof {
            old(self).lemma_rows_fit();
            old(self)@.lemma_shifted_in_frame(dir);
        }
        self.reclamp();
        proof {
            old(self)@.shifted(dir).lemma_reclamped_wf();
        }
    }

    /// Puts the cursor at the start of its row.
    pub fn cursor_to_start_of_line(&mut self)
        ensures
            final(self)@ == old(self)@.at_line_start(),
            old(self)@.in_frame() ==> final(self)@.wf(),
    {
        self.col_offset = 0;
        self.cursor_x = 0;
    }

    /// Steps the cursor right to the end of its row.
    pub fn cursor_to_end_of_line(&mut self)
        requires
            old(self)@.wf(),
        ensures
            final(self)@ == old(self)@.at_line_end(),
            final(self)@.wf(),
    {
        assert(self@.rows.len() == self.rows.len());
        let file_row = self.row_offset + self.cursor_y;
        let file_col = self.col_offset + self.cursor_x;
        if file_row < self.rows.len() {
            let steps = self.rows[file_row].len() - file_col;
            self.step(CursorDirection::Right, steps);
        }
    }

    /// Moves the cursor `n` steps in direction `dir`.
    pub fn step(&mut self, dir: CursorDirection, n: usize)
        requires
            old(self)@.in_frame(),
        ensures
            final(self)@ == old(self)@.moved_times(dir, n as nat),
            final(self)@.in_frame(),
            n > 0 || old(self)@.wf() ==> final(self)@.wf(),
    {
        let mut i: usize = 0;
        while i < n
            invariant
                i <= n,
                self@ == old(self)@.moved_times(dir, i as nat),
                self@.in_frame(),
                i > 0 || old(self)@.wf() ==> self@.wf(),
            decreases n - i,
        {
            self.move_cursor(dir);
            i = i + 1;
        }
    }

    /// The number of letters and digits that stand immediately left of the
    /// cursor; `None` where the cursor is on no row.
    pub fn find_previous_non_alphanumeric_char_index(&self) -> (found: Option<usize>)
        requires
            self@.wf(),
        ensures
            match found {
                Some(n) => self@.on_row() && n == alnum_run_before(
                    self@.rows[self@.file_row() as int].content,
                    self@.file_col() as int,
                ),
                None => !self@.on_row(),
            },
    {
        assert(self@.rows.len() == self.rows.len());
        let file_row = self.row_offset + self.cursor_y;
        let file_col = self.col_offset + self.cursor_x;
        if file_row < self.rows.len() {
            let row = &self.rows[file_row];
            let ghost text = row@.content;
            let mut n: usize = 0;
            let mut more = true;
            while more && n < file_col
                invariant
                    n <= file_col <= text.len(),
                    text == row@.content,
                    alnum_run_before(text, file_col as int) == n + alnum_run_before(
                        text,
                        file_col - n,
                    ),
                    !more ==> alnum_run_before(text, file_col - n) == 0,
                decreases (file_col - n) + if more { 1int } else { 0int },
            {
                match row.char_at(file_col - n - 1) {
                    Some(c) => {
                        if char_is_alphanumeric(c) {
                            n = n + 1;
                        } else {
                            more = false;
                        }
                    },
                    None => {
                        more = false;
                    },
                }
            }
            Some(n)
        } else {
            None
        }
    }

    /// Moves the cursor to the left over the word before it.
    pub fn cursor_to_left_word(&mut self)
        requires
            old(self)@.wf(),
        ensures
            final(self)@ == old(self)@.at_left_word(),
            final(self)@.wf(),
    {
        if let Some(num) = self.find_previous_non_alphanumeric_char_index() {
            self.step(CursorDirection::Left, num);
            self.move_cursor(CursorDirection::Left);
        }
    }

    /// Moves the cursor to the right over the word after it.
    pub fn cursor_to_right_word(&mut self)
        requires
            old(self)@.wf(),
        ensures
            final(self)@ == old(self)@.at_right_word(),
            final(self)@.wf(),
    {
        assert(self@.rows.len() == self.rows.len());
        let file_row = self.row_offset + self.cursor_y;
        let file_col = self.col_offset + self.cursor_x;
        if file_row < self.rows.len() {
            let row = &self.rows[file_row];
            let len = row.len();
            let ghost text = row@.content;
            let mut n: usize = 0;
            if file_col < len {
                let start = file_col + 1;
                let mut more = true;
                while more && start + n < len
                    invariant
                        start + n <= len == text.len(),
                        text == row@.content,
                        alnum_run_from(text, start as int) == n + alnum_run_from(text, start + n),
                        !more ==> alnum_run_from(text, start + n) == 0,
                    decreases (len - start - n) + if more { 1int } else { 0int },
                {
                    match row.char_at(start + n) {
                        Some(c) => {
                            if char_is_alphanumeric(c) {
                                n = n + 1;
                            } else {
                                more = false;
                            }
                        },
                        None => {
                            more = false;
                        },
                    }
                }
            }
            self.step(CursorDirection::Right, n);
            self.move_cursor(CursorDirection::Right);
        }
    }

    /// Moves the cursor by a page in direction `dir`.
    #[verifier::rlimit(50)]
    pub fn page_cursor(&mut self, dir: CursorDirection)
        requires
            old(self)@.in_frame(),
        ensures
            final(self)@ == old(self)@.paged(dir),
            final(self)@.wf(),
    {
        assert(self@.rows.len() == self.rows.len());
        if dir == CursorDirection::Up && !self.top_edge() {
            self.cursor_y = 0;
        } else if dir == CursorDirection::Down && !self.bottom_edge() {
            if self.row_offset + self.cursor_y < self.rows.len() {
                let last = self.rows.len() - 1 - self.row_offset;
                if last < self.screen_rows - 1 {
                    self.cursor_y = last;
                } else {
                    self.cursor_y = self.screen_rows - 1;
                }
            }
        }
        assert(self@ == old(self)@.snapped(dir));
        let steps = self.screen_rows;
        self.step(dir, steps);
    }
}

} // verus!
