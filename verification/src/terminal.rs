//! The control sequences that the renderer sends, taken from `termion`.
//!
//! Each sequence is stated here as the characters it is made of, and each
//! function below formats the `termion` value of that name. Nothing checks
//! these statements against `termion` but a reading of its source and the
//! tests: they are what the renderer's contract rests on.

use crate::text::decimal;
use vstd::prelude::*;

verus! {

/// A sequence that the control sequence introducer `ESC [` opens.
pub open spec fn csi(tail: Seq<char>) -> Seq<char> {
    seq!['\x1b', '['] + tail
}

/// Hides the cursor.
pub open spec fn hide_cursor_code() -> Seq<char> {
    csi(seq!['?', '2', '5', 'l'])
}

/// Shows the cursor.
pub open spec fn show_cursor_code() -> Seq<char> {
    csi(seq!['?', '2', '5', 'h'])
}

/// Moves the cursor to column `x` of line `y`, both counted from one.
pub open spec fn goto_code(x: u16, y: u16) -> Seq<char> {
    csi(decimal(y as nat) + seq![';'] + decimal(x as nat) + seq!['H'])
}

/// Clears the screen from the cursor on.
pub open spec fn clear_after_cursor_code() -> Seq<char> {
    csi(seq!['J'])
}

/// Switches to bold text.
pub open spec fn bold_code() -> Seq<char> {
    csi(seq!['1', 'm'])
}

/// Switches to inverted colors.
pub open spec fn invert_code() -> Seq<char> {
    csi(seq!['7', 'm'])
}

/// Resets every text attribute.
pub open spec fn reset_style_code() -> Seq<char> {
    csi(seq!['m'])
}

/// Sets the foreground to color `index` of the 256-color palette.
pub open spec fn foreground_code(index: nat) -> Seq<char> {
    csi(seq!['3', '8', ';', '5', ';'] + decimal(index) + seq!['m'])
}

/// Sets the background to color `index` of the 256-color palette.
pub open spec fn background_code(index: nat) -> Seq<char> {
    csi(seq!['4', '8', ';', '5', ';'] + decimal(index) + seq!['m'])
}

/// Sets the foreground to the terminal's default.
pub open spec fn default_foreground_code() -> Seq<char> {
    csi(seq!['3', '9', 'm'])
}

/// Sets the background to the terminal's default.
pub open spec fn default_background_code() -> Seq<char> {
    csi(seq!['4', '9', 'm'])
}

/// Palette index of green.
pub const GREEN: u8 = 2;

/// Palette index of blue.
pub const BLUE: u8 = 4;

/// Palette index of magenta.
pub const MAGENTA: u8 = 5;

/// Palette index of cyan.
pub const CYAN: u8 = 6;

/// Palette index of white.
pub const WHITE: u8 = 7;

/// Palette index of high-intensity black.
pub const LIGHT_BLACK: u8 = 8;

/// Formats `termion::cursor::Hide`, whose `Display` writes `ESC [ ? 2 5 l`.
#[verifier::external_body]
pub(crate) fn hide_cursor() -> (s: String)
    ensures
        s@ == hide_cursor_code(),
{
    format!("{}", termion::cursor::Hide)
}

/// Formats `termion::cursor::Show`, whose `Display` writes `ESC [ ? 2 5 h`.
#[verifier::external_body]
pub(crate) fn show_cursor() -> (s: String)
    ensures
        s@ == show_cursor_code(),
{
    format!("{}", termion::cursor::Show)
}

/// Formats `termion::cursor::Goto(x, y)`, whose `Display` writes `ESC [`,
/// the line in decimal, `;`, the column in decimal and `H`. It refuses the
/// position `(0, 0)`, which is left out here.
#[verifier::external_body]
pub(crate) fn goto(x: u16, y: u16) -> (s: String)
    requires
        x != 0 || y != 0,
    ensures
        s@ == goto_code(x, y),
{
    format!("{}", termion::cursor::Goto(x, y))
}

/// Formats `termion::clear::AfterCursor`, whose `Display` writes `ESC [ J`.
#[verifier::external_body]
pub(crate) fn clear_after_cursor() -> (s: String)
    ensures
        s@ == clear_after_cursor_code(),
{
    format!("{}", termion::clear::AfterCursor)
}

/// Formats `termion::style::Bold`, whose `Display` writes `ESC [ 1 m`.
#[verifier::external_body]
pub(crate) fn bold() -> (s: String)
    ensures
        s@ == bold_code(),
{
    format!("{}", termion::style::Bold)
}

/// Formats `termion::style::Invert`, whose `Display` writes `ESC [ 7 m`.
#[verifier::external_body]
pub(crate) fn invert() -> (s: String)
    ensures
        s@ == invert_code(),
{
    format!("{}", termion::style::Invert)
}

/// Formats `termion::style::Reset`, whose `Display` writes `ESC [ m`.
#[verifier::external_body]
pub(crate) fn reset_style() -> (s: String)
    ensures
        s@ == reset_style_code(),
{
    format!("{}", termion::style::Reset)
}

/// Formats `termion::color::Fg(termion::color::Reset)`, which writes
/// `ESC [ 3 9 m`.
#[verifier::external_body]
pub(crate) fn default_foreground() -> (s: String)
    ensures
        s@ == default_foreground_code(),
{
    format!("{}", termion::color::Fg(termion::color::Reset))
}

/// Formats `termion::color::Bg(termion::color::Reset)`, which writes
/// `ESC [ 4 9 m`.
#[verifier::external_body]
pub(crate) fn default_background() -> (s: String)
    ensures
        s@ == default_background_code(),
{
    format!("{}", termion::color::Bg(termion::color::Reset))
}

/// Formats `termion::color::Fg(termion::color::White)`, which writes
/// `ESC [ 3 8 ; 5 ; 7 m`.
#[verifier::external_body]
pub(crate) fn white_foreground() -> (s: String)
    ensures
        s@ == foreground_code(WHITE as nat),
{
    format!("{}", termion::color::Fg(termion::color::White))
}

/// Formats `termion::color::Fg(termion::color::Cyan)`, which writes
/// `ESC [ 3 8 ; 5 ; 6 m`.
#[verifier::external_body]
pub(crate) fn cyan_foreground() -> (s: String)
    ensures
        s@ == foreground_code(CYAN as nat),
{
    format!("{}", termion::color::Fg(termion::color::Cyan))
}

/// Formats `termion::color::Fg(termion::color::Magenta)`, which writes
/// `ESC [ 3 8 ; 5 ; 5 m`.
#[verifier::external_body]
pub(crate) fn magenta_foreground() -> (s: String)
    ensures
        s@ == foreground_code(MAGENTA as nat),
{
    format!("{}", termion::color::Fg(termion::color::Magenta))
}

/// Formats `termion::color::Fg(termion::color::Green)`, which writes
/// `ESC [ 3 8 ; 5 ; 2 m`.
#[verifier::external_body]
pub(crate) fn green_foreground() -> (s: String)
    ensures
        s@ == foreground_code(GREEN as nat),
{
    format!("{}", termion::color::Fg(termion::color::Green))
}

/// Formats `termion::color::Fg(termion::color::Blue)`, which writes
/// `ESC [ 3 8 ; 5 ; 4 m`.
#[verifier::external_body]
pub(crate) fn blue_foreground() -> (s: String)
    ensures
        s@ == foreground_code(BLUE as nat),
{
    format!("{}", termion::color::Fg(termion::color::Blue))
}

/// Formats `termion::color::Bg(termion::color::LightBlack)`, which writes
/// `ESC [ 4 8 ; 5 ; 8 m`.
#[verifier::external_body]
pub(crate) fn light_black_background() -> (s: String)
    ensures
        s@ == background_code(LIGHT_BLACK as nat),
{
    format!("{}", termion::color::Bg(termion::color::LightBlack))
}

} // verus!
