//! The mode controller: which mode a session is in, and what each event of
//! the host means in that mode.
//!
//! ```text
//! WaitingInput   --Control+t-->  WaitingCommand
//! WaitingCommand --q-->          Exit
//! WaitingCommand --s-->          SendingFile
//! WaitingCommand --r-->          ReceivingFile
//! WaitingCommand --other key-->  WaitingInput
//! SendingFile    --always-->     WaitingInput
//! ReceivingFile  --always-->     WaitingInput
//! ```

use crate::arguments::Arguments;
use crate::error::{Error, IoFailure};
use crate::event::{encode_key, key_bytes, Event, KeyCode, KeyEvent, CONTROL, NO_MODIFIERS};
use crate::serial_port::settings_for;
use crate::session::{start, Session};
use vstd::prelude::*;

verus! {

/// How the keyboard is read at the moment.
#[derive(Clone, Copy, Debug, PartialEq, Eq, Structural)]
pub enum Mode {
    /// Keys go to the line.
    WaitingInput,
    /// The next key is a command to the terminal itself.
    WaitingCommand,
    /// A file is to be sent.
    SendingFile,
    /// A file is to be received.
    ReceivingFile,
    /// The session is over.
    Exit,
}

/// The character that, held with Control alone, announces a command.
pub const COMMAND_PREFIX: char = 't';

/// The key is the chord that announces a command: the prefix character with
/// Control and no other modifier.
pub open spec fn is_command_prefix(key: KeyEvent) -> bool {
    key.code == KeyCode::Char(COMMAND_PREFIX) && key.modifiers.bits == CONTROL
}

/// The mode after an event in `WaitingInput`.
pub open spec fn waiting_input_next(event: Event) -> Mode {
    match event {
        Event::Key(key) => if is_command_prefix(key) {
            Mode::WaitingCommand
        } else {
            Mode::WaitingInput
        },
        _ => Mode::WaitingInput,
    }
}

/// The bytes that an event in `WaitingInput` puts on the line: those of the
/// key, whatever modifiers are held with it; nothing for the command chord
/// and for an event that is no key.
pub open spec fn waiting_input_bytes(event: Event) -> Seq<u8> {
    match event {
        Event::Key(key) => if is_command_prefix(key) {
            Seq::empty()
        } else {
            key_bytes(key.code)
        },
        _ => Seq::empty(),
    }
}

/// The mode that a key asks for as a command: `q`, `s` and `r` without
/// modifiers name one each, every other key goes back to the line.
pub open spec fn command_mode(key: KeyEvent) -> Mode {
    if key.modifiers.bits != NO_MODIFIERS {
        Mode::WaitingInput
    } else if key.code == KeyCode::Char('q') {
        Mode::Exit
    } else if key.code == KeyCode::Char('s') {
        Mode::SendingFile
    } else if key.code == KeyCode::Char('r') {
        Mode::ReceivingFile
    } else {
        Mode::WaitingInput
    }
}

/// The mode after an event in `WaitingCommand`: the next key decides, and an
/// event that is no key leaves the command pending.
pub open spec fn waiting_command_next(event: Event) -> Mode {
    match event {
        Event::Key(key) => command_mode(key),
        _ => Mode::WaitingCommand,
    }
}

/// `next` can follow `mode` directly: the two are the same, or joined by an
/// arrow of the diagram at the head of this module.
pub open spec fn may_follow(mode: Mode, next: Mode) -> bool {
    ||| next == mode
    ||| mode == Mode::WaitingInput && next == Mode::WaitingCommand
    ||| mode == Mode::WaitingCommand && next != Mode::WaitingCommand
    ||| mode == Mode::SendingFile && next == Mode::WaitingInput
    ||| mode == Mode::ReceivingFile && next == Mode::WaitingInput
}

/// The terminal: the handlers of the modes.
#[derive(Clone, Copy, Debug)]
pub struct Terminal {}

impl Terminal {
    /// Starts a session on the device named `device`: checks the line
    /// parameters and hands out the session in its first state, about to
    /// open the device. Where the data bits are not one of 5, 6, 7 and 8 the
    /// result is a configuration error, and the device is never touched.
    pub fn run(&self, args: &Arguments, device: &str) -> (session: Result<Session, Error>)
        ensures
            match settings_for(device@, *args) {
                Some(settings) => session.is_ok() && session.unwrap()@ == start(settings),
                None => session.is_err() && session.unwrap_err() == Error::Configuration(
                    args.data_bits,
                ),
            },
    {
        Session::new(device.to_owned(), args)
    }

    /// The names of the devices that the host found, in the order found; a
    /// device error where the search itself failed.
    pub fn available_ports(&self, found: Result<Vec<String>, IoFailure>) -> (ports: Result<
        Vec<String>,
        Error,
    >)
        ensures
            match found {
                Ok(names) => ports == Ok::<Vec<String>, Error>(names),
                Err(failure) => ports == Err::<Vec<String>, Error>(Error::Device(failure)),
            },
    {
        match found {
            Ok(names) => Ok(names),
            Err(failure) => Err(Error::Device(failure)),
        }
    }

    /// Handles one event in `WaitingInput`: gives the next mode and the bytes
    /// to write to the line. The command chord leads to `WaitingCommand` and
    /// writes nothing; every other key stays and is written as the bytes it
    /// stands for; an event that is no key stays and writes nothing.
    pub fn visit_waiting_input(&self, event: Event) -> (visit: (Mode, Vec<u8>))
        ensures
            visit.0 == waiting_input_next(event),
            visit.1@ == waiting_input_bytes(event),
    {
        match event {
            Event::Key(key) => {
                if self.is_prefix_chord(key) {
                    (Mode::WaitingCommand, Vec::new())
                } else {
                    (Mode::WaitingInput, encode_key(key.code))
                }
            },
            _ => (Mode::WaitingInput, Vec::new()),
        }
    }

    /// Handles one event in `WaitingCommand`: gives the next mode. Nothing is
    /// ever written to the line from here.
    pub fn visit_waiting_command(&self, event: Event) -> (next: Mode)
        ensures
            next == waiting_command_next(event),
    {
        match event {
            Event::Key(key) => {
                if key.modifiers.bits != NO_MODIFIERS {
                    Mode::WaitingInput
                } else {
                    match key.code {
                        KeyCode::Char('q') => Mode::Exit,
                        KeyCode::Char('s') => Mode::SendingFile,
                        KeyCode::Char('r') => Mode::ReceivingFile,
                        _ => Mode::WaitingInput,
                    }
                }
            },
            _ => Mode::WaitingCommand,
        }
    }

    /// Handles `SendingFile`, given the path that the user chose, if any.
    /// No transfer takes place: whatever was chosen, the next mode is
    /// `WaitingInput`.
    pub fn visit_sending_file(&self, path: Option<String>) -> (next: Mode)
        ensures
            next == Mode::WaitingInput,
    {
        Mode::WaitingInput
    }

    /// Handles `ReceivingFile`. No transfer takes place: the next mode is
    /// `WaitingInput`.
    pub fn visit_receiving_file(&self) -> (next: Mode)
        ensures
            next == Mode::WaitingInput,
    {
        Mode::WaitingInput
    }

    /// Whether the key is the chord that announces a command.
    pub fn is_prefix_chord(&self, key: KeyEvent) -> (answer: bool)
        ensures
            answer == is_command_prefix(key),
    {
        match key.code {
            KeyCode::Char(ch) => ch == COMMAND_PREFIX && key.modifiers.bits == CONTROL,
            _ => false,
        }
    }
}

/// In `WaitingInput` every event but the command chord stays in
/// `WaitingInput`; the chord leads to `WaitingCommand` and puts no byte on
/// the line.
pub proof fn lemma_waiting_input(event: Event)
    ensures
        match event {
            Event::Key(key) => if is_command_prefix(key) {
                &&& waiting_input_next(event) == Mode::WaitingCommand
                &&& waiting_input_bytes(event).len() == 0
            } else {
                &&& waiting_input_next(event) == Mode::WaitingInput
                &&& waiting_input_bytes(event) == key_bytes(key.code)
            },
            _ => {
                &&& waiting_input_next(event) == Mode::WaitingInput
                &&& waiting_input_bytes(event).len() == 0
            },
        },
{
}

/// In `WaitingCommand` the key `q` without modifiers leads to `Exit`, `s` to
/// `SendingFile`, `r` to `ReceivingFile`, and every other key, a modified
/// one too, leads back to `WaitingInput`.
pub proof fn lemma_waiting_command(key: KeyEvent)
    ensures
        key.modifiers.bits == NO_MODIFIERS && key.code == KeyCode::Char('q')
            ==> waiting_command_next(Event::Key(key)) == Mode::Exit,
        key.modifiers.bits == NO_MODIFIERS && key.code == KeyCode::Char('s')
            ==> waiting_command_next(Event::Key(key)) == Mode::SendingFile,
        key.modifiers.bits == NO_MODIFIERS && key.code == KeyCode::Char('r')
            ==> waiting_command_next(Event::Key(key)) == Mode::ReceivingFile,
        key.modifiers.bits != NO_MODIFIERS || (key.code != KeyCode::Char('q') && key.code
            != KeyCode::Char('s') && key.code != KeyCode::Char('r')) ==> waiting_command_next(
            Event::Key(key),
        ) == Mode::WaitingInput,
{
}

/// Whatever the event, the handlers of `WaitingInput` and `WaitingCommand`
/// follow the arrows of the diagram.
pub proof fn lemma_handlers_follow_arrows(event: Event)
    ensures
        may_follow(Mode::WaitingInput, waiting_input_next(event)),
        may_follow(Mode::WaitingCommand, waiting_command_next(event)),
{
}

} // verus!
