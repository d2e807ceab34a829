//! Events of the host's keyboard and window, and the bytes that a key stands
//! for on the line.

use vstd::prelude::*;
use vstd::utf8::*;

verus! {

/// The modifier keys held with a key: one bit for each.
#[derive(Clone, Copy, Debug, PartialEq, Eq, Structural)]
pub struct KeyModifiers {
    pub bits: u8,
}

/// The bits of no modifier at all.
pub const NO_MODIFIERS: u8 = 0;

/// The bit of Shift.
pub const SHIFT: u8 = 1;

/// The bit of Control.
pub const CONTROL: u8 = 2;

/// The bit of Alt.
pub const ALT: u8 = 4;

/// The bit of Super.
pub const SUPER: u8 = 8;

/// The bit of Hyper.
pub const HYPER: u8 = 16;

/// The bit of Meta.
pub const META: u8 = 32;

/// The key that was pressed.
#[derive(Clone, Copy, Debug, PartialEq, Eq, Structural)]
pub enum KeyCode {
    /// A character key.
    Char(char),
    /// A function key, by its number.
    F(u8),
    Backspace,
    Tab,
    Enter,
    Esc,
    Up,
    Down,
    Right,
    Left,
    End,
    Home,
    BackTab,
    Insert,
    Delete,
    PageUp,
    PageDown,
    /// Any other key.
    Other,
}

/// A key together with the modifiers held.
#[derive(Clone, Copy, Debug, PartialEq, Eq, Structural)]
pub struct KeyEvent {
    pub code: KeyCode,
    pub modifiers: KeyModifiers,
}

/// One event of the host.
#[derive(Clone, Copy, Debug, PartialEq, Eq, Structural)]
pub enum Event {
    /// A key was pressed.
    Key(KeyEvent),
    /// The window now has this many columns and rows.
    Resize(u16, u16),
    /// Anything else: focus, mouse, paste.
    Other,
}

/// The bytes that a key puts on the line: for a character its UTF-8
/// encoding, for the keys named here their control code or escape sequence,
/// for every other key nothing.
pub open spec fn key_bytes(code: KeyCode) -> Seq<u8> {
    match code {
        KeyCode::Char(ch) => encode_scalar(ch as u32),
        KeyCode::Backspace => seq![8u8],
        KeyCode::Tab => seq![9u8],
        KeyCode::Enter => seq![10u8],
        KeyCode::Esc => seq![27u8],
        KeyCode::Up => seq![27u8, 91u8, 65u8],
        KeyCode::Down => seq![27u8, 91u8, 66u8],
        KeyCode::Right => seq![27u8, 91u8, 67u8],
        KeyCode::Left => seq![27u8, 91u8, 68u8],
        KeyCode::End => seq![27u8, 91u8, 70u8],
        KeyCode::Home => seq![27u8, 91u8, 72u8],
        KeyCode::BackTab => seq![27u8, 91u8, 90u8],
        KeyCode::Insert => seq![27u8, 91u8, 50u8, 126u8],
        KeyCode::Delete => seq![27u8, 91u8, 51u8, 126u8],
        KeyCode::PageUp => seq![27u8, 91u8, 53u8, 126u8],
        KeyCode::PageDown => seq![27u8, 91u8, 54u8, 126u8],
        KeyCode::F(_) => Seq::empty(),
        KeyCode::Other => Seq::empty(),
    }
}

/// The bytes of a character key are valid UTF-8, and decoding them gives the
/// character back and nothing else.
pub proof fn lemma_char_bytes_round_trip(ch: char)
    ensures
        valid_utf8(key_bytes(KeyCode::Char(ch))),
        decode_utf8(key_bytes(KeyCode::Char(ch))) == seq![ch],
{
    let chars = seq![ch];
    assert(chars.drop_first() =~= Seq::<char>::empty());
    assert(encode_utf8(chars) =~= encode_scalar(ch as u32)) by {
        reveal_with_fuel(encode_utf8, 2);
    }
    encode_utf8_valid_utf8(chars);
    encode_utf8_decode_utf8(chars);
}

/// The UTF-8 encoding of one character.
pub fn encode_char(ch: char) -> (bytes: Vec<u8>)
    ensures
        bytes@ == encode_scalar(ch as u32),
{
    let scalar: u32 = ch as u32;
    proof {
        char_is_scalar(ch);
    }
    if scalar <= 0x7F {
        let only: u8 = (scalar & 0x7F) as u8;
        vec![only]
    } else if scalar <= 0x7FF {
        let lead: u8 = 0xC0 | ((scalar >> 6) & 0x1F) as u8;
        let last: u8 = 0x80 | (scalar & 0x3F) as u8;
        vec![lead, last]
    } else if scalar <= 0xFFFF {
        let lead: u8 = 0xE0 | ((scalar >> 12) & 0x0F) as u8;
        let middle: u8 = 0x80 | ((scalar >> 6) & 0x3F) as u8;
        let last: u8 = 0x80 | (scalar & 0x3F) as u8;
        vec![lead, middle, last]
    } else {
        let lead: u8 = 0xF0 | ((scalar >> 18) & 0x7) as u8;
        let second: u8 = 0x80 | ((scalar >> 12) & 0x3F) as u8;
        let third: u8 = 0x80 | ((scalar >> 6) & 0x3F) as u8;
        let last: u8 = 0x80 | (scalar & 0x3F) as u8;
        vec![lead, second, third, last]
    }
}

/// The bytes that a key puts on the line.
pub fn encode_key(code: KeyCode) -> (bytes: Vec<u8>)
    ensures
        bytes@ == key_bytes(code),
{
    match code {
        KeyCode::Char(ch) => encode_char(ch),
        KeyCode::Backspace => vec![8u8],
        KeyCode::Tab => vec![9u8],
        KeyCode::Enter => vec![10u8],
        KeyCode::Esc => vec![27u8],
        KeyCode::Up => vec![27u8, 91u8, 65u8],
        KeyCode::Down => vec![27u8, 91u8, 66u8],
        KeyCode::Right => vec![27u8, 91u8, 67u8],
        KeyCode::Left => vec![27u8, 91u8, 68u8],
        KeyCode::End => vec![27u8, 91u8, 70u8],
        KeyCode::Home => vec![27u8, 91u8, 72u8],
        KeyCode::BackTab => vec![27u8, 91u8, 90u8],
        KeyCode::Insert => vec![27u8, 91u8, 50u8, 126u8],
        KeyCode::Delete => vec![27u8, 91u8, 51u8, 126u8],
        KeyCode::PageUp => vec![27u8, 91u8, 53u8, 126u8],
        KeyCode::PageDown => vec![27u8, 91u8, 54u8, 126u8],
        KeyCode::F(_) => Vec::new(),
        KeyCode::Other => Vec::new(),
    }
}

} // verus!
