//! Drawing the session: the whole screen as one stream of characters and
//! control sequences.
//!
//! The screen is drawn anew each time. What comes out is a function of the
//! session alone; writing it to the terminal is the caller's part.

use crate::editor::{Editor, EditorView};
use crate::row::{render_cells, HighlightType, TAB};
use crate::terminal::{
    background_code, blue_foreground, bold, bold_code, clear_after_cursor, clear_after_cursor_code,
    cyan_foreground, default_background, default_background_code, default_foreground,
    default_foreground_code, foreground_code, goto, goto_code, green_foreground, hide_cursor,
    hide_cursor_code, invert, invert_code, light_black_background, magenta_foreground,
    reset_style, reset_style_code, show_cursor, show_cursor_code, white_foreground, BLUE, CYAN,
    GREEN, LIGHT_BLACK, MAGENTA, WHITE,
};
use crate::text::{decimal, push_char, push_decimal, push_spaces, right_justified, spaces};
use vstd::prelude::*;
use vstd::string::StrSliceExecFns;
use vstd::string::StringExecFns;

verus! {

/// The version shown in the banner of an empty document.
pub const VERSION: &'static str = "0.1.0";

/// The end of a screen line.
pub open spec fn line_end() -> Seq<char> {
    seq!['\r', '\n']
}

/// The control sequences that put a style in force.
pub open spec fn tag_style(tag: HighlightType) -> Seq<char> {
    match tag {
        HighlightType::NonPrint => default_foreground_code() + default_background_code(),
        HighlightType::Normal => foreground_code(WHITE as nat),
        HighlightType::Comment => foreground_code(CYAN as nat),
        HighlightType::Keyword => foreground_code(MAGENTA as nat),
        HighlightType::String => foreground_code(GREEN as nat),
        HighlightType::Number => foreground_code(BLUE as nat),
        HighlightType::Selection => background_code(LIGHT_BLACK as nat) + foreground_code(
            WHITE as nat,
        ),
    }
}

/// The cells of a line as they are sent: each character behind the control
/// sequences of its style.
pub open spec fn styled(cells: Seq<(char, HighlightType)>) -> Seq<char>
    decreases cells.len(),
{
    if cells.len() == 0 {
        Seq::empty()
    } else {
        styled(cells.drop_last()) + tag_style(cells.last().1).push(cells.last().0)
    }
}

/// The cells of a line that a window of `screen_cols` columns shows when its
/// first column is cell `col_offset`.
pub open spec fn visible(
    cells: Seq<(char, HighlightType)>,
    col_offset: nat,
    screen_cols: nat,
) -> Seq<(char, HighlightType)> {
    let from = if col_offset < cells.len() {
        col_offset
    } else {
        cells.len()
    };
    let to = if col_offset + screen_cols < cells.len() {
        col_offset + screen_cols
    } else {
        cells.len()
    };
    cells.subrange(from as int, to as int)
}

/// The title of the banner, with its line end.
pub open spec fn banner_title() -> Seq<char> {
    "mutxt version "@ + bold_code() + VERSION@ + reset_style_code() + line_end()
}

/// The number of spaces before the banner's title: one less than half of
/// what the title leaves of the window's width, and none where the window is
/// too narrow for that.
pub open spec fn banner_padding(screen_cols: nat) -> nat {
    let room = if screen_cols > banner_title().len() {
        (screen_cols - banner_title().len()) as nat
    } else {
        0
    };
    if room / 2 > 0 {
        (room / 2 - 1) as nat
    } else {
        0
    }
}

/// The line that welcomes the user to an empty document.
pub open spec fn banner_line(screen_cols: nat) -> Seq<char> {
    seq!['~'] + spaces(banner_padding(screen_cols)) + banner_title()
}

/// The line that marks a window line below the document.
pub open spec fn blank_line() -> Seq<char> {
    seq!['~'] + clear_after_cursor_code() + line_end()
}

/// The screen column, counted from one, that the cursor is shown in when
/// the window starts at document column `from` of `text` and the cursor is
/// at document column `to`: one more for every character between the two,
/// and for a tab what leads to the next multiple of four.
pub open spec fn screen_column(text: Seq<char>, from: int, to: int) -> nat
    decreases to - from,
{
    if to <= from {
        1
    } else {
        let before = screen_column(text, from, to - 1);
        if 0 <= to - 1 < text.len() {
            if text[to - 1] == TAB {
                (before + 3 - before % 4 + 1) as nat
            } else {
                before + 1
            }
        } else {
            before
        }
    }
}

/// A screen coordinate as the terminal takes it: numbers that do not fit
/// are held at the largest that does.
pub open spec fn coordinate(n: nat) -> u16 {
    if n > u16::MAX {
        u16::MAX
    } else {
        n as u16
    }
}

impl EditorView {
    /// Window line `y` of the text region.
    pub open spec fn text_line(self, y: nat) -> Seq<char> {
        let file_row = self.row_offset + y;
        if file_row >= self.rows.len() {
            if self.rows.len() == 0 && y == self.screen_rows / 3 {
                banner_line(self.screen_cols)
            } else {
                blank_line()
            }
        } else {
            styled(
                visible(
                    render_cells(self.rows[file_row as int].content),
                    self.col_offset,
                    self.screen_cols,
                ),
            ) + foreground_code(WHITE as nat) + clear_after_cursor_code() + line_end()
        }
    }

    /// The first `n` window lines of the text region.
    pub open spec fn text_lines(self, n: nat) -> Seq<char>
        decreases n,
    {
        if n == 0 {
            Seq::empty()
        } else {
            self.text_lines((n - 1) as nat) + self.text_line((n - 1) as nat)
        }
    }

    /// The left part of the status bar: the file's name, whether the
    /// document was changed, and the number of its rows.
    pub open spec fn status_left(self) -> Seq<char> {
        let name = match self.filename {
            Some(f) => f,
            None => "(no file)"@,
        };
        let changed = if self.modified {
            " (modified)"@
        } else {
            Seq::empty()
        };
        name + changed + " - "@ + decimal(self.rows.len()) + " lines"@
    }

    /// The right part of the status bar: the cursor's row, counted from one,
    /// and the number of rows.
    pub open spec fn status_right(self) -> Seq<char> {
        decimal(self.file_row() + 1) + seq!['/'] + decimal(self.rows.len())
    }

    /// The status bar, in inverted colors: the left part, then the right
    /// part moved to the window's right end as far as there is room.
    pub open spec fn status_bar(self) -> Seq<char> {
        let room = if self.screen_cols > self.status_left().len() {
            (self.screen_cols - self.status_left().len()) as nat
        } else {
            0
        };
        clear_after_cursor_code() + invert_code() + clear_after_cursor_code() + self.status_left()
            + right_justified(self.status_right(), room) + reset_style_code() + line_end()
    }

    /// The message line, where a message is set.
    pub open spec fn message_line(self) -> Seq<char> {
        match self.status_message {
            Some(message) => message + line_end(),
            None => Seq::empty(),
        }
    }

    /// The screen column of the cursor, counted from one.
    pub open spec fn cursor_column(self) -> nat {
        if self.on_row() {
            screen_column(
                self.rows[self.file_row() as int].content,
                self.col_offset as int,
                self.file_col() as int,
            )
        } else {
            1
        }
    }

    /// The sequences that put the terminal's cursor in its place and show it.
    pub open spec fn cursor_code(self) -> Seq<char> {
        goto_code(coordinate(self.cursor_column()), coordinate(self.cursor_y + 1))
            + show_cursor_code()
    }

    /// The whole screen: the cursor hidden and sent home, the text region,
    /// the status bar, the message, and the cursor put in place and shown.
    pub open spec fn frame(self) -> Seq<char> {
        hide_cursor_code() + goto_code(1, 1) + self.text_lines(self.screen_rows)
            + self.status_bar() + self.message_line() + self.cursor_code()
    }
}

/// The style of a tag, as the control sequences that put it in force.
pub fn style_of(tag: HighlightType) -> (style: String)
    ensures
        style@ == tag_style(tag),
{
    match tag {
        HighlightType::NonPrint => {
            let mut style = default_foreground();
            style.append(default_background().as_str());
            style
        },
        HighlightType::Normal => white_foreground(),
        HighlightType::Comment => cyan_foreground(),
        HighlightType::Keyword => magenta_foreground(),
        HighlightType::String => green_foreground(),
        HighlightType::Number => blue_foreground(),
        HighlightType::Selection => {
            let mut style = light_black_background();
            style.append(white_foreground().as_str());
            style
        },
    }
}

/// Holds a number at the largest coordinate a terminal takes.
fn saturate(n: u128) -> (c: u16)
    ensures
        c == coordinate(n as nat),
{
    if n > 0xFFFF {
        0xFFFF
    } else {
        n as u16
    }
}

/// Appends cells `from` to `to` of a line, each behind its style.
fn push_cells(out: &mut String, cells: &Vec<(char, HighlightType)>, from: usize, to: usize)
    requires
        from <= to <= cells@.len(),
    ensures
        final(out)@ == old(out)@ + styled(cells@.subrange(from as int, to as int)),
{
    let mut i: usize = from;
    assert(cells@.subrange(from as int, from as int) =~= Seq::empty());
    while i < to
        invariant
            from <= i <= to <= cells@.len(),
            out@ == old(out)@ + styled(cells@.subrange(from as int, i as int)),
        decreases to - i,
    {
        let (c, tag) = cells[i];
        let style = style_of(tag);
        out.append(style.as_str());
        push_char(out, c);
        i = i + 1;
        proof {
            let now = cells@.subrange(from as int, i as int);
            assert(now.drop_last() =~= cells@.subrange(from as int, i - 1));
            assert(now.last() == (c, tag));
            assert(out@ =~= old(out)@ + styled(now));
        }
    }
}

/// Appends the end of a screen line.
fn push_line_end(out: &mut String)
    ensures
        final(out)@ == old(out)@ + line_end(),
{
    push_char(out, '\r');
    push_char(out, '\n');
    assert(out@ =~= old(out)@ + line_end());
}

/// The title of the banner, with its line end.
fn banner_title_text() -> (title: String)
    ensures
        title@ == banner_title(),
{
    let mut title = String::from_str("mutxt version ");
    title.append(bold().as_str());
    title.append(VERSION);
    title.append(reset_style().as_str());
    push_line_end(&mut title);
    title
}

/// Appends the line that welcomes the user to an empty document.
fn push_banner(out: &mut String, screen_cols: usize)
    ensures
        final(out)@ == old(out)@ + banner_line(screen_cols as nat),
{
    let title = banner_title_text();
    let title_len = title.as_str().unicode_len();
    let room = if screen_cols > title_len {
        screen_cols - title_len
    } else {
        0
    };
    let padding = if room / 2 > 0 {
        room / 2 - 1
    } else {
        0
    };
    push_char(out, '~');
    push_spaces(out, padding);
    out.append(title.as_str());
    assert(out@ =~= old(out)@ + banner_line(screen_cols as nat));
}

impl Editor {
    /// Appends window line `y` of the text region.
    #[verifier::rlimit(50)]
    fn push_text_line(&self, out: &mut String, y: usize)
        requires
            y < self@.screen_rows,
        ensures
            final(out)@ == old(out)@ + self@.text_line(y as nat),
    {
        assert(self@.rows.len() == self.rows.len());
        let past_end = self.row_offset >= self.rows.len() || y >= self.rows.len()
            - self.row_offset;
        if past_end {
            if self.rows.len() == 0 && y == self.screen_rows / 3 {
                push_banner(out, self.screen_cols);
            } else {
                push_char(out, '~');
                out.append(clear_after_cursor().as_str());
                push_line_end(out);
                assert(out@ =~= old(out)@ + blank_line());
            }
        } else {
            let file_row = self.row_offset + y;
            let cells = self.rows[file_row].render();
            let from = if self.col_offset < cells.len() {
                self.col_offset
            } else {
                cells.len()
            };
            let to = if self.screen_cols < cells.len() - from {
                from + self.screen_cols
            } else {
                cells.len()
            };
            assert(cells@.subrange(from as int, to as int) == visible(
                cells@,
                self@.col_offset,
                self@.screen_cols,
            ));
            push_cells(out, &cells, from, to);
            out.append(white_foreground().as_str());
            out.append(clear_after_cursor().as_str());
            push_line_end(out);
            assert(out@ =~= old(out)@ + self@.text_line(y as nat));
        }
    }

    /// The left part of the status bar.
    fn status_left_text(&self) -> (left: String)
        ensures
            left@ == self@.status_left(),
    {
        assert(self@.rows.len() == self.rows.len());
        let mut left = String::new();
        match &self.filename {
            Some(f) => left.append(f.as_str()),
            None => left.append("(no file)"),
        }
        if self.modified {
            left.append(" (modified)");
        }
        left.append(" - ");
        push_decimal(&mut left, self.rows.len() as u128);
        left.append(" lines");
        assert(left@ =~= self@.status_left());
        left
    }

    /// The right part of the status bar.
    fn status_right_text(&self) -> (right: String)
        requires
            self@.in_frame(),
        ensures
            right@ == self@.status_right(),
    {
        assert(self@.rows.len() == self.rows.len());
        let mut right = String::new();
        let file_row = self.row_offset + self.cursor_y;
        push_decimal(&mut right, file_row as u128 + 1);
        push_char(&mut right, '/');
        push_decimal(&mut right, self.rows.len() as u128);
        assert(right@ =~= self@.status_right());
        right
    }

    /// Appends the status bar.
    #[verifier::rlimit(50)]
    fn push_status_bar(&self, out: &mut String)
        requires
            self@.in_frame(),
        ensures
            final(out)@ == old(out)@ + self@.status_bar(),
    {
        let left = self.status_left_text();
        let right = self.status_right_text();
        let left_len = left.as_str().unicode_len();
        let right_len = right.as_str().unicode_len();
        let room = if self.screen_cols > left_len {
            self.screen_cols - left_len
        } else {
            0
        };
        out.append(clear_after_cursor().as_str());
        out.append(invert().as_str());
        out.append(clear_after_cursor().as_str());
        out.append(left.as_str());
        if right_len < room {
            push_spaces(out, room - right_len);
        }
        out.append(right.as_str());
        out.append(reset_style().as_str());
        push_line_end(out);
        assert(out@ =~= old(out)@ + self@.status_bar());
    }

    /// The screen column of the cursor, counted from one and held at the
    /// largest coordinate a terminal takes.
    fn cursor_coordinate(&self) -> (cx: u16)
        requires
            self@.in_frame(),
        ensures
            cx == coordinate(self@.cursor_column()),
    {
        assert(self@.rows.len() == self.rows.len());
        let file_row = self.row_offset + self.cursor_y;
        let mut cx: u128 = 1;
        if file_row < self.rows.len() {
            let row = &self.rows[file_row];
            let ghost text = row@.content;
            let end = self.col_offset + self.cursor_x;
            let mut j: usize = self.col_offset;
            while j < end
                invariant
                    self.col_offset <= j <= end,
                    text == row@.content,
                    cx == screen_column(text, self.col_offset as int, j as int),
                    1 <= cx <= 1 + 4 * (j - self.col_offset),
                decreases end - j,
            {
                if let Some(ch) = row.char_at(j) {
                    if ch == TAB {
                        cx = cx + 3 - (cx % 4);
                    }
                    cx = cx + 1;
                }
                j = j + 1;
            }
        }
        saturate(cx)
    }

    /// Draws the screen.
    #[verifier::rlimit(50)]
    pub fn render(&self) -> (out: String)
        requires
            self@.in_frame(),
        ensures
            out@ == self@.frame(),
    {
        let mut out = hide_cursor();
        out.append(goto(1, 1).as_str());
        let ghost head = out@;
        let mut y: usize = 0;
        while y < self.screen_rows
            invariant
                y <= self.screen_rows,
                out@ == head + self@.text_lines(y as nat),
            decreases self.screen_rows - y,
        {
            self.push_text_line(&mut out, y);
            y = y + 1;
            assert(out@ =~= head + self@.text_lines(y as nat));
        }
        self.push_status_bar(&mut out);
        match &self.status_message {
            Some(message) => {
                out.append(message.as_str());
                push_line_end(&mut out);
            },
            None => {},
        }
        assert(out@ =~= head + self@.text_lines(self@.screen_rows) + self@.status_bar()
            + self@.message_line());
        let cx = self.cursor_coordinate();
        let cy = saturate(self.cursor_y as u128 + 1);
        out.append(goto(cx, cy).as_str());
        out.append(show_cursor().as_str());
        assert(out@ =~= self@.frame());
        out
    }
}

/// No two tags are drawn in the same style.
#[verifier::rlimit(50)]
pub proof fn law_styles_are_distinct(a: HighlightType, b: HighlightType)
    requires
        a != b,
    ensures
        tag_style(a) != tag_style(b),
{
    let x = tag_style(a);
    let y = tag_style(b);
    assert(decimal(2) =~= seq!['2']);
    assert(decimal(4) =~= seq!['4']);
    assert(decimal(5) =~= seq!['5']);
    assert(decimal(6) =~= seq!['6']);
    assert(decimal(7) =~= seq!['7']);
    assert(decimal(8) =~= seq!['8']);
    assert(foreground_code(2) =~= seq!['\x1b', '[', '3', '8', ';', '5', ';', '2', 'm']);
    assert(foreground_code(4) =~= seq!['\x1b', '[', '3', '8', ';', '5', ';', '4', 'm']);
    assert(foreground_code(5) =~= seq!['\x1b', '[', '3', '8', ';', '5', ';', '5', 'm']);
    assert(foreground_code(6) =~= seq!['\x1b', '[', '3', '8', ';', '5', ';', '6', 'm']);
    assert(foreground_code(7) =~= seq!['\x1b', '[', '3', '8', ';', '5', ';', '7', 'm']);
    assert(background_code(8) =~= seq!['\x1b', '[', '4', '8', ';', '5', ';', '8', 'm']);
    assert(default_foreground_code() =~= seq!['\x1b', '[', '3', '9', 'm']);
    assert(x.len() > 7 && y.len() > 7);
    if a == HighlightType::Selection || b == HighlightType::Selection {
        assert(x[2] != y[2]);
    } else if a == HighlightType::NonPrint || b == HighlightType::NonPrint {
        assert(x[3] != y[3]);
    } else {
        assert(x[7] != y[7]);
    }
}

} // verus!
