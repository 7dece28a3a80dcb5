//! What holds of the editing operations taken together.
//!
//! Each statement here is about sessions as plain values and is proved from
//! the definitions of the operations, for every valid session.

use crate::cursor::{alnum_run_before, alnum_run_from};
use crate::editor::{CursorDirection, EditorView};
use crate::text::is_alphanumeric;
use vstd::prelude::*;

verus! {

impl EditorView {
    /// Whether the cursor is at the very start of the document.
    pub open spec fn at_document_start(self) -> bool {
        self.file_row() == 0 && self.file_col() == 0
    }

    /// Whether the cursor is at the very end of the document: at the end of
    /// its last row, or below it.
    pub open spec fn at_document_end(self) -> bool {
        self.file_row() + 1 >= self.rows.len() && self.file_col() == self.current_len()
    }

    /// Whether `other` has a window of the same size.
    pub open spec fn same_window_size(self, other: EditorView) -> bool {
        &&& self.screen_rows == other.screen_rows
        &&& self.screen_cols == other.screen_cols
    }

    /// Whether `other` shows the same document, in the same state of being
    /// saved, in a window of the same size.
    pub open spec fn same_document(self, other: EditorView) -> bool {
        &&& self.rows == other.rows
        &&& self.modified == other.modified
        &&& self.filename == other.filename
        &&& self.same_window_size(other)
    }
}

/// Typing a character puts it where the cursor was and leaves the cursor
/// right behind it: the cursor stays on its row, one column further, and the
/// column it came from holds the character.
pub proof fn law_typed_char_is_left_of_cursor(s: EditorView, c: char)
    requires
        s.wf(),
    ensures
        s.typed(c).on_row(),
        s.typed(c).file_row() == s.file_row(),
        s.typed(c).file_col() == s.file_col() + 1,
        s.typed(c).rows[s.file_row() as int].content[s.file_col() as int] == c,
        s.typed(c).file_col() <= s.typed(c).current_len(),
        s.typed(c).modified,
{
}

/// Typing a text puts it in at the cursor: the row holds what it held left
/// of the cursor, then the text, then what it held from the cursor on, and
/// the cursor stands behind the text. Below the last row the text makes a
/// row of its own.
#[verifier::rlimit(50)]
pub proof fn law_typed_text_is_left_of_cursor(s: EditorView, text: Seq<char>)
    requires
        s.wf(),
    ensures
        ({
            let t = s.typed_all(text);
            let r = s.file_row() as int;
            let c = s.file_col() as int;
            let line = if s.on_row() {
                s.rows[r].content
            } else {
                Seq::empty()
            };
            &&& t.file_row() == s.file_row()
            &&& t.file_col() == s.file_col() + text.len()
            &&& t.same_window_size(s)
            &&& text.len() > 0 ==> t.on_row() && t.rows[r].content == line.take(c) + text
                + line.skip(c)
        }),
    decreases text.len(),
{
    let r = s.file_row() as int;
    let c = s.file_col() as int;
    let line = if s.on_row() {
        s.rows[r].content
    } else {
        Seq::empty()
    };
    if text.len() > 0 {
        let front = text.drop_last();
        law_typed_text_is_left_of_cursor(s, front);
        let u = s.typed_all(front);
        let t = u.typed(text.last());
        assert(t.rows[r].content =~= line.take(c) + text + line.skip(c));
    }
}

/// Breaking a row and deleting backwards from the start of the new row
/// gives the document back: every row holds what it held, and the cursor is
/// at the row and column it was at.
#[verifier::rlimit(50)]
pub proof fn law_newline_then_backspace_restores(s: EditorView)
    requires
        s.wf(),
        s.on_row(),
    ensures
        ({
            let t = s.with_newline().backspaced();
            &&& t.rows.len() == s.rows.len()
            &&& forall|i: int| 0 <= i < s.rows.len() ==> t.rows[i].content == s.rows[i].content
            &&& t.file_row() == s.file_row()
            &&& t.file_col() == s.file_col()
        }),
{
    let n = s.with_newline();
    let t = n.backspaced();
    let r = s.file_row() as int;
    let c = s.file_col() as int;
    assert(n.file_row() == r + 1);
    assert(n.file_col() == 0);
    assert(n.on_row());
    assert(t == n.joined());
    assert forall|i: int| 0 <= i < s.rows.len() implies t.rows[i].content
        == s.rows[i].content by {
        if i == r {
            if c == 0 {
                assert(t.rows[r].content =~= s.rows[r].content);
            } else {
                assert(t.rows[r].content =~= s.rows[r].content);
            }
        }
    }
}

/// A step right and then a step left lead back to where the cursor was,
/// and so do a step left and then a step right, from every place but the
/// start and the end of the document.
#[verifier::rlimit(50)]
pub proof fn law_left_and_right_undo_each_other(s: EditorView)
    requires
        s.wf(),
        !s.at_document_start(),
        !s.at_document_end(),
    ensures
        s.moved(CursorDirection::Right).moved(CursorDirection::Left).file_row() == s.file_row(),
        s.moved(CursorDirection::Right).moved(CursorDirection::Left).file_col() == s.file_col(),
        s.moved(CursorDirection::Left).moved(CursorDirection::Right).file_row() == s.file_row(),
        s.moved(CursorDirection::Left).moved(CursorDirection::Right).file_col() == s.file_col(),
{
    let right = s.moved(CursorDirection::Right);
    let left = s.moved(CursorDirection::Left);
    assert(right == s.shifted_right());
    assert(left == s.shifted_left());
    assert(right.moved(CursorDirection::Left) == right.shifted_left());
    assert(left.moved(CursorDirection::Right) == left.shifted_right());
}

/// At the start of the document a step left changes nothing, and at its
/// end a step right changes nothing.
pub proof fn law_steps_stop_at_document_bounds(s: EditorView)
    requires
        s.wf(),
    ensures
        s.at_document_start() ==> s.moved(CursorDirection::Left) == s,
        s.at_document_end() ==> s.moved(CursorDirection::Right) == s,
{
}

/// The letters and digits counted before a column are no more than the
/// characters that stand before it.
pub proof fn lemma_run_before_bound(text: Seq<char>, at: int)
    requires
        0 <= at,
    ensures
        alnum_run_before(text, at) <= at,
    decreases at,
{
    if 0 < at <= text.len() && is_alphanumeric(text[at - 1]) {
        lemma_run_before_bound(text, at - 1);
    }
}

/// The letters and digits counted from a column on are no more than the
/// characters that stand from there on.
pub proof fn lemma_run_from_bound(text: Seq<char>, at: int)
    requires
        0 <= at <= text.len(),
    ensures
        at + alnum_run_from(text, at) <= text.len(),
    decreases text.len() - at,
{
    if at < text.len() && is_alphanumeric(text[at]) {
        lemma_run_from_bound(text, at + 1);
    }
}

/// The characters counted before a column are letters and digits, and the
/// count stops at the start of the text or at a character that is neither.
pub proof fn lemma_run_before_chars(text: Seq<char>, at: int)
    requires
        0 <= at <= text.len(),
    ensures
        forall|i: int|
            at - alnum_run_before(text, at) <= i < at ==> is_alphanumeric(#[trigger] text[i]),
        at - alnum_run_before(text, at) == 0 || !is_alphanumeric(
            text[at - alnum_run_before(text, at) - 1],
        ),
    decreases at,
{
    lemma_run_before_bound(text, at);
    if 0 < at && is_alphanumeric(text[at - 1]) {
        lemma_run_before_chars(text, at - 1);
    }
}

/// A count that starts inside a stretch of letters and digits runs through
/// to its end and goes on from there.
pub proof fn lemma_run_from_split(text: Seq<char>, from: int, to: int)
    requires
        0 <= from <= to <= text.len(),
        forall|i: int| from <= i < to ==> is_alphanumeric(#[trigger] text[i]),
    ensures
        alnum_run_from(text, from) == (to - from) + alnum_run_from(text, to),
    decreases to - from,
{
    if from < to {
        lemma_run_from_split(text, from + 1, to);
    }
}

/// A step to the left from inside a row moves the cursor by one column and
/// changes nothing else of the document.
pub proof fn lemma_left_step(s: EditorView)
    requires
        s.on_row(),
        0 < s.file_col() <= s.current_len(),
    ensures
        s.moved(CursorDirection::Left).same_document(s),
        s.moved(CursorDirection::Left).file_row() == s.file_row(),
        s.moved(CursorDirection::Left).file_col() == s.file_col() - 1,
{
    assert(s.shifted_left().file_col() == s.file_col() - 1);
    assert(s.shifted_left().file_row() == s.file_row());
    assert(s.moved(CursorDirection::Left) == s.shifted_left());
}

/// A step to the right over a character moves the cursor by one column and
/// changes nothing else of the document.
pub proof fn lemma_right_step(s: EditorView)
    requires
        s.on_row(),
        s.file_col() < s.current_len(),
    ensures
        s.moved(CursorDirection::Right).same_document(s),
        s.moved(CursorDirection::Right).file_row() == s.file_row(),
        s.moved(CursorDirection::Right).file_col() == s.file_col() + 1,
{
    assert(s.shifted_right().file_col() == s.file_col() + 1);
    assert(s.shifted_right().file_row() == s.file_row());
    assert(s.moved(CursorDirection::Right) == s.shifted_right());
}

/// A step to the left from the start of a row below the first leads to the
/// end of the row above.
pub proof fn lemma_left_wrap(s: EditorView)
    requires
        s.on_row(),
        s.file_col() == 0,
        s.file_row() > 0,
        s.screen_cols > 0,
    ensures
        s.moved(CursorDirection::Left).same_document(s),
        s.moved(CursorDirection::Left).file_row() == s.file_row() - 1,
        s.moved(CursorDirection::Left).file_col() == s.row_len(s.file_row() - 1),
{
    let above = s.row_len(s.file_row() - 1);
    let up = s.row_above();
    assert(up.file_row() == s.file_row() - 1);
    let placed = up.at_column(above);
    assert(placed.file_col() == above);
    assert(placed.file_row() == s.file_row() - 1);
    assert(s.shifted_left() == placed);
    assert(placed.reclamped() == placed);
}

/// A step to the right from the end of a row that has a row below it leads
/// to the start of that row.
pub proof fn lemma_right_wrap(s: EditorView)
    requires
        s.on_row(),
        s.file_col() == s.current_len(),
        s.file_row() + 1 < s.rows.len(),
    ensures
        s.moved(CursorDirection::Right).same_document(s),
        s.moved(CursorDirection::Right).file_row() == s.file_row() + 1,
        s.moved(CursorDirection::Right).file_col() == 0,
{
    let down = s.row_below();
    assert(down.file_row() == s.file_row() + 1);
    let placed = EditorView { cursor_x: 0, col_offset: 0, ..down };
    assert(s.shifted_right() == placed);
    assert(placed.reclamped() == placed);
}

/// Steps to the left that stay on the row move the cursor by one column
/// each and change nothing else of the document.
pub proof fn lemma_left_steps(s: EditorView, n: nat)
    requires
        s.on_row(),
        n <= s.file_col() <= s.current_len(),
    ensures
        s.moved_times(CursorDirection::Left, n).same_document(s),
        s.moved_times(CursorDirection::Left, n).file_row() == s.file_row(),
        s.moved_times(CursorDirection::Left, n).file_col() == s.file_col() - n,
    decreases n,
{
    if n > 0 {
        lemma_left_steps(s, (n - 1) as nat);
        lemma_left_step(s.moved_times(CursorDirection::Left, (n - 1) as nat));
    }
}

/// Steps to the right that stay on the row move the cursor by one column
/// each and change nothing else of the document.
pub proof fn lemma_right_steps(s: EditorView, n: nat)
    requires
        s.on_row(),
        s.file_col() + n <= s.current_len(),
    ensures
        s.moved_times(CursorDirection::Right, n).same_document(s),
        s.moved_times(CursorDirection::Right, n).file_row() == s.file_row(),
        s.moved_times(CursorDirection::Right, n).file_col() == s.file_col() + n,
    decreases n,
{
    if n > 0 {
        lemma_right_steps(s, (n - 1) as nat);
        lemma_right_step(s.moved_times(CursorDirection::Right, (n - 1) as nat));
    }
}

/// Moving a word to the right from inside a row, where the letters and
/// digits behind the cursor's character end inside the row, brings the
/// cursor behind the last of them.
pub proof fn lemma_right_word_inside_row(s: EditorView)
    requires
        s.on_row(),
        s.file_col() < s.current_len(),
    ensures
        s.at_right_word().same_document(s),
        s.at_right_word().file_row() == s.file_row(),
        s.at_right_word().file_col() == s.file_col() + 1 + alnum_run_from(
            s.rows[s.file_row() as int].content,
            (s.file_col() + 1) as int,
        ),
{
    let text = s.rows[s.file_row() as int].content;
    let run = alnum_run_from(text, (s.file_col() + 1) as int);
    lemma_run_from_bound(text, (s.file_col() + 1) as int);
    lemma_right_steps(s, run);
    lemma_right_step(s.moved_times(CursorDirection::Right, run));
}

/// Moving a word to the left from inside a row, where a character stands
/// before the letters and digits left of the cursor, brings the cursor onto
/// that character.
pub proof fn lemma_left_word_inside_row(s: EditorView)
    requires
        s.on_row(),
        s.file_col() <= s.current_len(),
        alnum_run_before(s.rows[s.file_row() as int].content, s.file_col() as int)
            < s.file_col(),
    ensures
        s.at_left_word().same_document(s),
        s.at_left_word().file_row() == s.file_row(),
        s.at_left_word().file_col() == s.file_col() - 1 - alnum_run_before(
            s.rows[s.file_row() as int].content,
            s.file_col() as int,
        ),
{
    let text = s.rows[s.file_row() as int].content;
    let run = alnum_run_before(text, s.file_col() as int);
    lemma_left_steps(s, run);
    lemma_left_step(s.moved_times(CursorDirection::Left, run));
}

/// Moving a word to the left when everything left of the cursor is letters
/// and digits brings the cursor to the end of the row above, or to the start
/// of the document where there is no row above.
pub proof fn lemma_left_word_from_row_start(s: EditorView)
    requires
        s.wf(),
        s.on_row(),
        alnum_run_before(s.rows[s.file_row() as int].content, s.file_col() as int)
            == s.file_col(),
    ensures
        s.at_left_word().same_document(s),
        s.file_row() > 0 ==> s.at_left_word().file_row() == s.file_row() - 1
            && s.at_left_word().file_col() == s.row_len(s.file_row() - 1),
        s.file_row() == 0 ==> s.at_left_word().file_row() == 0 && s.at_left_word().file_col()
            == 0,
{
    let u = s.moved_times(CursorDirection::Left, s.file_col());
    lemma_left_steps(s, s.file_col());
    if s.file_row() > 0 {
        lemma_left_wrap(u);
    } else {
        assert(u.shifted_left() == u);
        assert(u.moved(CursorDirection::Left) == u);
    }
}

/// Where the cursor lands when it moves a word to the left and then a word
/// to the right, from a place that has a letter or digit on both sides.
///
/// If the word the cursor is in starts its row and the row is not the
/// first, the cursor passes to the end of the row above and comes back to
/// the start of the word. Otherwise it comes to stand behind the word's
/// last character.
#[verifier::rlimit(50)]
pub proof fn law_left_word_then_right_word(s: EditorView)
    requires
        s.wf(),
        s.on_row(),
        0 < s.file_col() < s.current_len(),
        is_alphanumeric(s.rows[s.file_row() as int].content[s.file_col() - 1]),
        is_alphanumeric(s.rows[s.file_row() as int].content[s.file_col() as int]),
    ensures
        ({
            let t = s.at_left_word().at_right_word();
            let text = s.rows[s.file_row() as int].content;
            let col = s.file_col() as int;
            let start = col - alnum_run_before(text, col);
            &&& t.same_document(s)
            &&& t.file_row() == s.file_row()
            &&& t.file_col() == if start == 0 && s.file_row() > 0 {
                0
            } else {
                col + alnum_run_from(text, col)
            }
        }),
{
    let r = s.file_row() as int;
    let col = s.file_col() as int;
    let text = s.rows[r].content;
    let k = alnum_run_before(text, col);
    let start = col - k;
    lemma_run_before_bound(text, col);
    lemma_run_before_chars(text, col);
    lemma_run_from_bound(text, col);
    lemma_run_from_split(text, start, col);
    let left = s.at_left_word();
    if start > 0 {
        lemma_left_word_inside_row(s);
        assert(left.rows[r].content == text);
        lemma_right_word_inside_row(left);
    } else if r == 0 {
        lemma_left_word_from_row_start(s);
        assert(left.rows[r].content == text);
        assert(alnum_run_from(text, 0) == 1 + alnum_run_from(text, 1));
        lemma_right_word_inside_row(left);
    } else {
        lemma_left_word_from_row_start(s);
        let above = s.rows[r - 1].content;
        assert(left.rows[r - 1].content == above);
        assert(alnum_run_from(above, (above.len() + 1) as int) == 0);
        assert(left.moved_times(CursorDirection::Right, 0) == left);
        assert(left.at_right_word() == left.moved(CursorDirection::Right));
        lemma_right_wrap(left);
    }
}

/// Moving a word to the left and then a word to the right, from inside a
/// word that starts its row on a row below the first, does not take the
/// cursor past the column it was at: it comes to the start of that row.
pub proof fn law_word_round_trip_stays_before(s: EditorView)
    requires
        s.wf(),
        s.on_row(),
        0 < s.file_col() < s.current_len(),
        is_alphanumeric(s.rows[s.file_row() as int].content[s.file_col() - 1]),
        is_alphanumeric(s.rows[s.file_row() as int].content[s.file_col() as int]),
        s.file_row() > 0,
        alnum_run_before(s.rows[s.file_row() as int].content, s.file_col() as int)
            == s.file_col(),
    ensures
        s.at_left_word().at_right_word().file_row() == s.file_row(),
        s.at_left_word().at_right_word().file_col() <= s.file_col(),
{
    law_left_word_then_right_word(s);
}

/// A step leaves a valid session, wherever in its row or past it the cursor
/// stood before, as long as the rows are of a length the machine can hold.
pub proof fn law_step_gives_a_valid_session(s: EditorView, dir: CursorDirection)
    requires
        s.in_frame(),
        forall|r: int| 0 <= r < s.rows.len() ==> s.row_len(r) <= usize::MAX,
    ensures
        s.moved(dir).wf(),
{
    s.lemma_shifted_in_frame(dir);
    s.shifted(dir).lemma_reclamped_wf();
}

/// Moving the cursor changes neither the document nor the record of
/// whether it was changed.
pub proof fn law_steps_leave_the_document(s: EditorView, dir: CursorDirection, n: nat)
    ensures
        s.moved_times(dir, n).same_document(s),
    decreases n,
{
    if n > 0 {
        law_steps_leave_the_document(s, dir, (n - 1) as nat);
    }
}

/// Going to the end of the line brings the cursor to the end of its row.
pub proof fn law_line_end_is_reached(s: EditorView)
    requires
        s.wf(),
        s.on_row(),
    ensures
        s.at_line_end().file_row() == s.file_row(),
        s.at_line_end().file_col() == s.current_len(),
        s.at_line_end().same_document(s),
{
    lemma_right_steps(s, (s.current_len() - s.file_col()) as nat);
}

/// Deleting backwards inside a row, as often as there are characters before
/// the cursor or less, takes out that many characters left of the cursor
/// and leaves every other row as it was.
#[verifier::rlimit(50)]
pub proof fn lemma_backspace_steps(s: EditorView, n: nat)
    requires
        s.on_row(),
        n <= s.file_col() <= s.current_len(),
    ensures
        ({
            let t = s.backspaced_times(n);
            let r = s.file_row() as int;
            let c = s.file_col() as int;
            let line = s.rows[r].content;
            &&& t.file_row() == s.file_row()
            &&& t.file_col() == c - n
            &&& t.same_window_size(s)
            &&& t.rows.len() == s.rows.len()
            &&& t.rows[r].content == line.take(c - n) + line.skip(c)
            &&& forall|i: int| 0 <= i < s.rows.len() && i != r ==> t.rows[i] == s.rows[i]
            &&& n > 0 ==> t.modified
        }),
    decreases n,
{
    let r = s.file_row() as int;
    let c = s.file_col() as int;
    let line = s.rows[r].content;
    if n == 0 {
        assert(line =~= line.take(c) + line.skip(c));
    } else {
        lemma_backspace_steps(s, (n - 1) as nat);
        let u = s.backspaced_times((n - 1) as nat);
        let t = u.backspaced();
        assert(t == u.rubbed_out());
        assert(t.rows[r].content =~= line.take(c - n) + line.skip(c));
    }
}

/// Deleting to the start of the line leaves of the cursor's row what stood
/// from the cursor on, with the cursor at its start.
pub proof fn law_line_start_backspace_empties_the_left(s: EditorView)
    requires
        s.wf(),
        s.on_row(),
    ensures
        ({
            let t = s.line_start_backspaced();
            let r = s.file_row() as int;
            &&& t.file_row() == s.file_row()
            &&& t.file_col() == 0
            &&& t.rows.len() == s.rows.len()
            &&& t.rows[r].content == s.rows[r].content.skip(s.file_col() as int)
        }),
{
    let r = s.file_row() as int;
    let c = s.file_col() as int;
    let line = s.rows[r].content;
    lemma_backspace_steps(s, s.file_col());
    assert(line.take(0) + line.skip(c) =~= line.skip(c));
}

/// Deleting a word takes out the letters and digits that stand immediately
/// left of the cursor and nothing else.
pub proof fn law_word_backspace_takes_the_run(s: EditorView)
    requires
        s.wf(),
        s.on_row(),
    ensures
        ({
            let t = s.word_backspaced();
            let r = s.file_row() as int;
            let c = s.file_col() as int;
            let line = s.rows[r].content;
            let run = alnum_run_before(line, c);
            &&& t.file_row() == s.file_row()
            &&& t.file_col() == c - run
            &&& t.rows.len() == s.rows.len()
            &&& t.rows[r].content == line.take(c - run) + line.skip(c)
        }),
{
    let r = s.file_row() as int;
    let c = s.file_col() as int;
    let line = s.rows[r].content;
    lemma_run_before_bound(line, c);
    lemma_backspace_steps(s, alnum_run_before(line, c));
}

/// A line break leaves a valid session.
pub proof fn law_newline_gives_a_valid_session(s: EditorView)
    requires
        s.in_frame(),
    ensures
        s.with_newline().wf(),
        s.with_newline().modified,
        s.with_newline().rows.len() == s.rows.len() + 1,
{
}

/// Typing leaves a valid session, as long as the cursor's column is not the
/// last one the machine can count.
pub proof fn law_typing_gives_a_valid_session(s: EditorView, c: char)
    requires
        s.wf(),
        s.file_col() < usize::MAX,
    ensures
        s.typed(c).wf(),
{
}

/// Deleting backwards leaves a valid session, as long as the rows are of a
/// length the machine can hold. Where it does nothing, the document does
/// not count as changed by it.
pub proof fn law_backspace_gives_a_valid_session(s: EditorView)
    requires
        s.wf(),
        forall|r: int| 0 <= r < s.rows.len() ==> s.row_len(r) <= usize::MAX,
    ensures
        s.backspaced().wf(),
        s.backspace_is_idle() ==> s.backspaced() == s,
        !s.backspace_is_idle() ==> s.backspaced().modified,
{
    let r = s.file_row() as int;
    if s.backspace_is_idle() {
    } else if s.file_col() == 0 {
        let t = s.joined();
        let above = s.rows[r - 1];
        assert(above.content.len() == s.row_len(r - 1));
        assert(t.rows.len() == s.rows.len() - 1);
        assert(t.file_row() == r - 1);
        assert(t.rows[r - 1] == above.extended(s.rows[r].content));
        assert(t.file_col() == above.content.len());
        assert(t.current_len() == above.content.len() + s.rows[r].content.len());
    } else {
        let t = s.rubbed_out();
        assert(t.rows.len() == s.rows.len());
        assert(t.file_row() == r);
        assert(t.file_col() == s.file_col() - 1);
        assert(t.current_len() == s.current_len() - 1);
    }
}

} // verus!
