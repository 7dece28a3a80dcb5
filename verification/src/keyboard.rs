//! Decoding of raw terminal input into editing commands.
//!
//! A keypress arrives as one byte, or as an escape sequence of up to four
//! bytes that a non-blocking stream may deliver in pieces. [`CommandReader`]
//! is the state machine that turns deliveries into [`Command`]s; the caller
//! does the reading and hands over what each read returned.

use vstd::prelude::*;
use vstd::slice::slice_subrange;

verus! {

/// One logical keypress.
#[derive(Copy, Clone, PartialEq, Eq, Debug, Structural)]
pub enum Command {
    MoveUp,
    MoveDown,
    MoveLeft,
    MoveRight,
    MoveLeftWord,
    MoveRightWord,
    PageUp,
    PageDown,
    Save,
    Open,
    Find,
    Cut,
    Copy,
    Paste,
    GoHome,
    GoEnd,
    Backspace,
    BackspaceWord,
    BackspaceLine,
    Delete,
    Refresh,
    Quit,
    Char(char),
    Ignore,
}

/// The byte that opens an escape sequence.
pub const ESC: u8 = 0x1B;

/// `[`, the second byte of a CSI sequence.
pub const BRACKET: u8 = 0x5B;

/// `O`, the second byte of the sequences some terminals send for Home and End.
pub const LETTER_O: u8 = 0x4F;

/// `5`, the second byte of the word-movement sequences.
pub const DIGIT_5: u8 = 0x35;

/// `~`, which closes a CSI sequence that carries a digit.
pub const TILDE: u8 = 0x7E;

/// Whether `b` is one of the ASCII digits `0` to `9`.
pub open spec fn is_digit(b: u8) -> bool {
    0x30 <= b <= 0x39
}

/// The command of a single byte that is not [`ESC`].
pub open spec fn key_command(b: u8) -> Command {
    if b == 0x7F {
        Command::Backspace
    } else if b == 0x03 {
        Command::Copy
    } else if b == 0x16 {
        Command::Paste
    } else if b == 0x18 {
        Command::Cut
    } else if b == 0x11 {
        Command::Quit
    } else if b == 0x0C {
        Command::Refresh
    } else if b == 0x13 {
        Command::Save
    } else if b == 0x0F {
        Command::Open
    } else if b == 0x0D {
        Command::Char('\n')
    } else if b == 0x17 || b == 0x08 {
        Command::BackspaceWord
    } else if b == 0x15 {
        Command::BackspaceLine
    } else if b == 0x01 {
        Command::GoHome
    } else if b == 0x05 {
        Command::GoEnd
    } else {
        Command::Char(b as char)
    }
}

/// The command of `ESC [ b`, where `b` is not a digit.
pub open spec fn csi_command(b: u8) -> Command {
    if b == 0x41 {
        Command::MoveUp
    } else if b == 0x42 {
        Command::MoveDown
    } else if b == 0x43 {
        Command::MoveRight
    } else if b == 0x44 {
        Command::MoveLeft
    } else if b == 0x48 {
        Command::GoHome
    } else if b == 0x46 {
        Command::GoEnd
    } else {
        Command::Ignore
    }
}

/// The command of `ESC [ digit ~`.
pub open spec fn csi_tilde_command(digit: u8) -> Command {
    if digit == 0x33 {
        Command::Backspace
    } else if digit == 0x35 {
        Command::PageUp
    } else if digit == 0x36 {
        Command::PageDown
    } else {
        Command::Ignore
    }
}

/// The command of `ESC O b`.
pub open spec fn ss3_command(b: u8) -> Command {
    if b == 0x48 {
        Command::GoHome
    } else if b == 0x46 {
        Command::GoEnd
    } else {
        Command::Ignore
    }
}

/// The command of `ESC 5 b`.
pub open spec fn word_command(b: u8) -> Command {
    if b == 0x44 {
        Command::MoveLeftWord
    } else if b == 0x43 {
        Command::MoveRightWord
    } else {
        Command::Ignore
    }
}

/// The command of the two bytes `a`, `b` that follow [`ESC`], when `a b` is
/// not the start of a longer sequence.
pub open spec fn escape_command(a: u8, b: u8) -> Command {
    if a == BRACKET {
        csi_command(b)
    } else if a == LETTER_O {
        ss3_command(b)
    } else if a == DIGIT_5 {
        word_command(b)
    } else {
        Command::Ignore
    }
}

/// Where the decoder stands inside a keypress.
#[derive(Copy, Clone, PartialEq, Eq, Debug, Structural)]
pub enum DecoderState {
    /// Between keypresses: the next byte starts one.
    Ground,
    /// [`ESC`] was read: the next two bytes select the command.
    Escape,
    /// `ESC [` and this digit were read: one closing byte is awaited.
    CsiDigit(u8),
}

/// How many bytes the decoder asks for in `state`.
pub open spec fn wanted_in(state: DecoderState) -> nat {
    match state {
        DecoderState::Ground => 1,
        DecoderState::Escape => 2,
        DecoderState::CsiDigit(_) => 1,
    }
}

/// One transition of the decoder: the state after `bytes` were delivered in
/// `state`, and the command that this completes, if any.
///
/// An empty delivery at the start of a keypress yields [`Command::Ignore`];
/// inside a sequence it changes nothing, so that the caller reads again. A
/// delivery of one byte where two were asked for leaves the second byte at
/// zero, which no sequence uses. Bytes past those asked for are not examined.
pub open spec fn step(state: DecoderState, bytes: Seq<u8>) -> (DecoderState, Option<Command>) {
    match state {
        DecoderState::Ground => {
            if bytes.len() == 0 {
                (DecoderState::Ground, Some(Command::Ignore))
            } else if bytes[0] == ESC {
                (DecoderState::Escape, None)
            } else {
                (DecoderState::Ground, Some(key_command(bytes[0])))
            }
        },
        DecoderState::Escape => {
            if bytes.len() == 0 {
                (DecoderState::Escape, None)
            } else {
                let a = bytes[0];
                let b = if bytes.len() > 1 {
                    bytes[1]
                } else {
                    0u8
                };
                if a == BRACKET && is_digit(b) {
                    (DecoderState::CsiDigit(b), None)
                } else {
                    (DecoderState::Ground, Some(escape_command(a, b)))
                }
            }
        },
        DecoderState::CsiDigit(digit) => {
            if bytes.len() == 0 {
                (state, None)
            } else if bytes[0] == TILDE {
                (DecoderState::Ground, Some(csi_tilde_command(digit)))
            } else {
                (DecoderState::Ground, Some(Command::Ignore))
            }
        },
    }
}

/// What a whole buffer decodes to: the command of the keypress at its start
/// and the number of bytes that keypress takes, or `None` where the buffer
/// ends inside an escape sequence.
///
/// An empty buffer is the empty delivery: [`Command::Ignore`], nothing taken.
pub open spec fn decoded(bytes: Seq<u8>) -> Option<(Command, nat)> {
    if bytes.len() == 0 {
        Some((Command::Ignore, 0nat))
    } else if bytes[0] != ESC {
        Some((key_command(bytes[0]), 1nat))
    } else if bytes.len() == 1 {
        None
    } else if bytes.len() == 2 {
        Some((escape_command(bytes[1], 0u8), 2nat))
    } else if !(bytes[1] == BRACKET && is_digit(bytes[2])) {
        Some((escape_command(bytes[1], bytes[2]), 3nat))
    } else if bytes.len() == 3 {
        None
    } else if bytes[3] == TILDE {
        Some((csi_tilde_command(bytes[2]), 4nat))
    } else {
        Some((Command::Ignore, 4nat))
    }
}

/// The command of a single byte that is not [`ESC`].
fn key(b: u8) -> (command: Command)
    ensures
        command == key_command(b),
{
    if b == 0x7F {
        Command::Backspace
    } else if b == 0x03 {
        Command::Copy
    } else if b == 0x16 {
        Command::Paste
    } else if b == 0x18 {
        Command::Cut
    } else if b == 0x11 {
        Command::Quit
    } else if b == 0x0C {
        Command::Refresh
    } else if b == 0x13 {
        Command::Save
    } else if b == 0x0F {
        Command::Open
    } else if b == 0x0D {
        Command::Char('\n')
    } else if b == 0x17 || b == 0x08 {
        Command::BackspaceWord
    } else if b == 0x15 {
        Command::BackspaceLine
    } else if b == 0x01 {
        Command::GoHome
    } else if b == 0x05 {
        Command::GoEnd
    } else {
        Command::Char(b as char)
    }
}

/// The command of the two bytes that follow [`ESC`].
fn escape(a: u8, b: u8) -> (command: Command)
    ensures
        command == escape_command(a, b),
{
    if a == BRACKET {
        if b == 0x41 {
            Command::MoveUp
        } else if b == 0x42 {
            Command::MoveDown
        } else if b == 0x43 {
            Command::MoveRight
        } else if b == 0x44 {
            Command::MoveLeft
        } else if b == 0x48 {
            Command::GoHome
        } else if b == 0x46 {
            Command::GoEnd
        } else {
            Command::Ignore
        }
    } else if a == LETTER_O {
        if b == 0x48 {
            Command::GoHome
        } else if b == 0x46 {
            Command::GoEnd
        } else {
            Command::Ignore
        }
    } else if a == DIGIT_5 {
        if b == 0x44 {
            Command::MoveLeftWord
        } else if b == 0x43 {
            Command::MoveRightWord
        } else {
            Command::Ignore
        }
    } else {
        Command::Ignore
    }
}

/// The command of `ESC [ digit ~`.
fn tilde(digit: u8) -> (command: Command)
    ensures
        command == csi_tilde_command(digit),
{
    if digit == 0x33 {
        Command::Backspace
    } else if digit == 0x35 {
        Command::PageUp
    } else if digit == 0x36 {
        Command::PageDown
    } else {
        Command::Ignore
    }
}

/// The decoder of the terminal's byte stream.
///
/// The caller asks its input for [`CommandReader::wanted`] bytes and hands
/// whatever arrived, possibly nothing, to [`CommandReader::feed`], until a
/// command comes out.
pub struct CommandReader {
    state: DecoderState,
}

impl View for CommandReader {
    type V = DecoderState;

    closed spec fn view(&self) -> DecoderState {
        self.state
    }
}

impl CommandReader {
    /// A decoder at the start of a keypress.
    pub fn commands() -> (reader: Self)
        ensures
            reader@ == DecoderState::Ground,
    {
        CommandReader { state: DecoderState::Ground }
    }

    /// The state the decoder is in.
    pub fn state(&self) -> (state: DecoderState)
        ensures
            state == self@,
    {
        self.state
    }

    /// The number of bytes the next read should ask for.
    pub fn wanted(&self) -> (n: usize)
        ensures
            n == wanted_in(self@),
    {
        match self.state {
            DecoderState::Ground => 1,
            DecoderState::Escape => 2,
            DecoderState::CsiDigit(_) => 1,
        }
    }

    /// Takes what one read delivered and returns the command that it
    /// completes, if it completes one.
    pub fn feed(&mut self, bytes: &[u8]) -> (emitted: Option<Command>)
        ensures
            (final(self)@, emitted) == step(old(self)@, bytes@),
            emitted is Some ==> final(self)@ == DecoderState::Ground,
    {
        let n = bytes.len();
        match self.state {
            DecoderState::Ground => {
                if n == 0 {
                    Some(Command::Ignore)
                } else if bytes[0] == ESC {
                    self.state = DecoderState::Escape;
                    None
                } else {
                    Some(key(bytes[0]))
                }
            },
            DecoderState::Escape => {
                if n == 0 {
                    None
                } else {
                    let a = bytes[0];
                    let b = if n > 1 {
                        bytes[1]
                    } else {
                        0u8
                    };
                    if a == BRACKET && 0x30 <= b && b <= 0x39 {
                        self.state = DecoderState::CsiDigit(b);
                        None
                    } else {
                        self.state = DecoderState::Ground;
                        Some(escape(a, b))
                    }
                }
            },
            DecoderState::CsiDigit(digit) => {
                if n == 0 {
                    None
                } else {
                    self.state = DecoderState::Ground;
                    if bytes[0] == TILDE {
                        Some(tilde(digit))
                    } else {
                        Some(Command::Ignore)
                    }
                }
            },
        }
    }
}

/// Decodes the keypress at the start of `input`, as a fresh
/// [`CommandReader`] does when every read delivers all that was asked for as
/// long as `input` lasts. Returns the command and the number of bytes it
/// took, or `None` where `input` ends inside an escape sequence.
pub fn decode(input: &[u8]) -> (result: Option<(Command, usize)>)
    ensures
        match decoded(input@) {
            Some((command, taken)) => result == Some((command, taken as usize)) && taken
                <= input@.len(),
            None => result is None,
        },
{
    let mut reader = CommandReader::commands();
    let first: usize = if input.len() < 1 {
        0
    } else {
        1
    };
    let mut emitted = reader.feed(slice_subrange(input, 0, first));
    let mut at: usize = first;
    if emitted.is_none() {
        if input.len() - at == 0 {
            return None;
        }
        let second: usize = if input.len() - at < 2 {
            1
        } else {
            2
        };
        emitted = reader.feed(slice_subrange(input, at, at + second));
        at = at + second;
        if emitted.is_none() {
            if input.len() - at == 0 {
                return None;
            }
            emitted = reader.feed(slice_subrange(input, at, at + 1));
            at = at + 1;
        }
    }
    match emitted {
        Some(command) => Some((command, at)),
        None => None,
    }
}

/// A keypress never takes more than three deliveries that carry a byte:
/// whatever arrives, the third one at the latest completes a command, and a
/// completed command leaves the decoder at the start of the next keypress.
pub proof fn law_decoder_completes(first: Seq<u8>, second: Seq<u8>, third: Seq<u8>)
    requires
        first.len() > 0,
        second.len() > 0,
        third.len() > 0,
    ensures
        ({
            let one = step(DecoderState::Ground, first);
            let two = step(one.0, second);
            let three = step(two.0, third);
            &&& one.1 is Some || two.1 is Some || three.1 is Some
            &&& one.1 is Some ==> one.0 == DecoderState::Ground
            &&& two.1 is Some ==> two.0 == DecoderState::Ground
            &&& three.1 is Some ==> three.0 == DecoderState::Ground
        }),
{
}

/// An empty delivery inside an escape sequence changes nothing and completes
/// nothing, so reading again is always in order.
pub proof fn law_empty_delivery_waits(state: DecoderState)
    requires
        state != DecoderState::Ground,
    ensures
        step(state, Seq::<u8>::empty()) == (state, None::<Command>),
{
}

} // verus!
