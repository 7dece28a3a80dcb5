//! One line of the document and the cells it is drawn as.

use crate::text::{chars_of, push_char};
use vstd::prelude::*;

verus! {

/// The tab character, the only one that takes more than one cell.
pub const TAB: char = '\t';

/// The number of cells a tab is drawn as.
pub const SPACES_PER_TAB: usize = 4;

/// How a cell is to be styled.
#[derive(Copy, Clone, PartialEq, Eq, Debug, Structural)]
pub enum HighlightType {
    Normal,
    NonPrint,
    Comment,
    Keyword,
    String,
    Number,
    Selection,
}

/// A line as it is drawn: one entry per display cell.
pub type RenderedRow = Vec<(char, HighlightType)>;

/// What a [`Row`] stands for.
pub ghost struct RowView {
    /// The line's number in the file it was read from; zero for a line that
    /// was made while editing. Nothing looks a row up by it.
    pub index_in_file: nat,
    /// The line's characters.
    pub content: Seq<char>,
}

impl RowView {
    /// A row made while editing, with these characters.
    pub open spec fn fresh(content: Seq<char>) -> RowView {
        RowView { index_in_file: 0, content }
    }

    /// The row with `c` put in at column `at`.
    pub open spec fn with_char(self, at: int, c: char) -> RowView
        recommends
            0 <= at <= self.content.len(),
    {
        RowView { content: self.content.insert(at, c), ..self }
    }

    /// The row without the character left of column `at`; the row itself
    /// where no character stands there.
    pub open spec fn without_char_before(self, at: int) -> RowView {
        if 1 <= at <= self.content.len() {
            RowView { content: self.content.remove(at - 1), ..self }
        } else {
            self
        }
    }

    /// The row with `more` added at its end.
    pub open spec fn extended(self, more: Seq<char>) -> RowView {
        RowView { content: self.content + more, ..self }
    }

    /// The row cut down to its first `at` characters.
    pub open spec fn head(self, at: int) -> RowView
        recommends
            0 <= at <= self.content.len(),
    {
        RowView { content: self.content.take(at), ..self }
    }

    /// What stands from column `at` on, as a row of its own.
    pub open spec fn tail(self, at: int) -> RowView
        recommends
            0 <= at <= self.content.len(),
    {
        RowView::fresh(self.content.skip(at))
    }
}

/// The cells that one character is drawn as: a run of spaces for a tab, the
/// character itself otherwise, all in the normal style.
pub open spec fn cells_of(c: char) -> Seq<(char, HighlightType)> {
    if c == TAB {
        Seq::new(SPACES_PER_TAB as nat, |i: int| (' ', HighlightType::Normal))
    } else {
        seq![(c, HighlightType::Normal)]
    }
}

/// The cells that a line is drawn as: those of its characters, in order.
pub open spec fn render_cells(content: Seq<char>) -> Seq<(char, HighlightType)>
    decreases content.len(),
{
    if content.len() == 0 {
        Seq::empty()
    } else {
        render_cells(content.drop_last()) + cells_of(content.last())
    }
}

/// One line of text.
pub struct Row {
    index_in_file: usize,
    content: Vec<char>,
}

impl View for Row {
    type V = RowView;

    closed spec fn view(&self) -> RowView {
        RowView { index_in_file: self.index_in_file as nat, content: self.content@ }
    }
}

impl Row {
    /// The row of line `at` of a file, holding `content`.
    pub fn new(at: usize, content: &str) -> (row: Self)
        ensures
            row@ == (RowView { index_in_file: at as nat, content: content@ }),
    {
        Row { index_in_file: at, content: chars_of(content) }
    }

    /// A row made while editing, holding `content`.
    pub fn with_content(content: &str) -> (row: Self)
        ensures
            row@ == RowView::fresh(content@),
    {
        Row { index_in_file: 0, content: chars_of(content) }
    }

    /// A row made while editing, with nothing in it.
    pub fn empty() -> (row: Self)
        ensures
            row@ == RowView::fresh(Seq::empty()),
    {
        Row { index_in_file: 0, content: Vec::new() }
    }

    /// The cells this row is drawn as.
    pub fn render(&self) -> (cells: RenderedRow)
        ensures
            cells@ == render_cells(self@.content),
    {
        let mut cells: Vec<(char, HighlightType)> = Vec::new();
        let mut i: usize = 0;
        while i < self.content.len()
            invariant
                i <= self.content.len(),
                cells@ == render_cells(self.content@.take(i as int)),
            decreases self.content.len() - i,
        {
            let ch = self.content[i];
            let ghost before = cells@;
            if ch == TAB {
                let mut k: usize = 0;
                while k < SPACES_PER_TAB
                    invariant
                        k <= SPACES_PER_TAB,
                        cells@ == before + Seq::new(k as nat, |i: int| (' ', HighlightType::Normal)),
                    decreases SPACES_PER_TAB - k,
                {
                    cells.push((' ', HighlightType::Normal));
                    k = k + 1;
                    assert(cells@ =~= before + Seq::new(
                        k as nat,
                        |i: int| (' ', HighlightType::Normal),
                    ));
                }
            } else {
                cells.push((ch, HighlightType::Normal));
                assert(cells@ =~= before + seq![(ch, HighlightType::Normal)]);
            }
            i = i + 1;
            proof {
                let upto = self.content@.take(i as int);
                assert(upto.drop_last() =~= self.content@.take(i - 1));
                assert(upto.last() == ch);
            }
        }
        assert(self.content@.take(i as int) =~= self.content@);
        cells
    }

    /// Adds the characters of `s` at the end of the row.
    pub fn push_str(&mut self, s: String)
        ensures
            final(self)@ == old(self)@.extended(s@),
    {
        let mut more = chars_of(s.as_str());
        self.content.append(&mut more);
    }

    /// Removes the character left of column `at`. Where there is none, at
    /// column zero or past the end of the row, the row stays as it is.
    pub fn backspace(&mut self, at: usize)
        ensures
            final(self)@ == old(self)@.without_char_before(at as int),
    {
        if 1 <= at && at <= self.content.len() {
            self.content.remove(at - 1);
        }
    }

    /// Puts `c` in at column `at`, which is a column of the row or its end.
    pub fn insert_char(&mut self, at: usize, c: char)
        requires
            at <= old(self)@.content.len(),
        ensures
            final(self)@ == old(self)@.with_char(at as int, c),
    {
        self.content.insert(at, c);
    }

    /// Whether the row has a character at column `col_idx`.
    #[inline(always)]
    pub fn column_exists(&self, col_idx: usize) -> (exists: bool)
        ensures
            exists == (col_idx < self@.content.len()),
    {
        col_idx < self.content.len()
    }

    /// Whether column `col_idx` is the end of the row.
    #[inline(always)]
    pub fn is_end(&self, col_idx: usize) -> (end: bool)
        ensures
            end == (col_idx == self@.content.len()),
    {
        col_idx == self.content.len()
    }

    /// A row's length is a length that the machine can hold.
    pub proof fn lemma_len_fits(&self)
        ensures
            self@.content.len() <= usize::MAX,
    {
        assert(self.content.len() <= usize::MAX);
    }

    /// The number of characters in the row.
    pub fn len(&self) -> (len: usize)
        ensures
            len == self@.content.len(),
    {
        self.content.len()
    }

    /// The character at column `col_idx`.
    pub fn char_at(&self, col_idx: usize) -> (c: Option<char>)
        ensures
            c == if col_idx < self@.content.len() {
                Some(self@.content[col_idx as int])
            } else {
                None
            },
    {
        if col_idx < self.content.len() {
            Some(self.content[col_idx])
        } else {
            None
        }
    }

    /// The line's number in the file it was read from.
    pub fn index_in_file(&self) -> (index: usize)
        ensures
            index == self@.index_in_file,
    {
        self.index_in_file
    }

    /// The row's text.
    pub fn content(&self) -> (text: String)
        ensures
            text@ == self@.content,
    {
        let mut text = String::new();
        let mut i: usize = 0;
        while i < self.content.len()
            invariant
                i <= self.content.len(),
                text@ == self.content@.take(i as int),
            decreases self.content.len() - i,
        {
            push_char(&mut text, self.content[i]);
            i = i + 1;
            assert(text@ =~= self.content@.take(i as int));
        }
        assert(self.content@.take(i as int) =~= self.content@);
        text
    }

    /// Cuts the row at column `at`: the row keeps what stands before it, and
    /// what stands from there on is returned as a new row.
    pub fn split_off(&mut self, at: usize) -> (rest: Row)
        requires
            at <= old(self)@.content.len(),
        ensures
            final(self)@ == old(self)@.head(at as int),
            rest@ == old(self)@.tail(at as int),
    {
        let rest = self.content.split_off(at);
        Row { index_in_file: 0, content: rest }
    }

    /// Adds the characters of `other` at the end of the row.
    pub fn absorb(&mut self, other: Row)
        ensures
            final(self)@ == old(self)@.extended(other@.content),
    {
        let mut more = other.content;
        self.content.append(&mut more);
    }
}

/// A row that holds one tab and nothing else is drawn as four cells, spaces in
/// the normal style.
pub proof fn law_tab_renders_as_four_cells()
    ensures
        render_cells(seq![TAB]) == seq![
            (' ', HighlightType::Normal),
            (' ', HighlightType::Normal),
            (' ', HighlightType::Normal),
            (' ', HighlightType::Normal),
        ],
{
    let row = seq![TAB];
    assert(row.drop_last() =~= Seq::<char>::empty());
    assert(render_cells(row.drop_last()) =~= Seq::empty());
    assert(render_cells(row) =~= seq![
        (' ', HighlightType::Normal),
        (' ', HighlightType::Normal),
        (' ', HighlightType::Normal),
        (' ', HighlightType::Normal),
    ]);
}

/// Drawing goes character by character: the cells of a line with one more
/// character are those of the line, then those of the character.
pub proof fn law_render_appends(content: Seq<char>, c: char)
    ensures
        render_cells(content.push(c)) == render_cells(content) + cells_of(c),
{
    assert(content.push(c).drop_last() =~= content);
}

} // verus!
