//! The session driver: the loop that joins the line, the screen and the
//! keyboard, as a machine that its host drives.
//!
//! A session always has one request outstanding. The host carries it out and
//! hands the outcome to the method that belongs to the request; the session
//! moves on and has its next request ready. An outcome handed to a method
//! whose request is not the outstanding one changes nothing.
//!
//! A session first opens the device and takes the host's screen. Then it
//! turns. One turn of the loop reads the line, shows what was read, and then visits
//! the current mode: the two waiting modes wait for one event of the host,
//! `SendingFile` asks the user for a path, `ReceivingFile` goes straight
//! back to the line, and `Exit` ends the session.

use crate::arguments::Arguments;
use crate::error::{timeout_as_empty, Error, IoFailure};
use crate::event::{key_bytes, Event};
use crate::serial_port::{rest_after, settings_for, SerialPort, SerialPortView};
use crate::terminal::{
    is_command_prefix,
    may_follow,
    waiting_command_next,
    waiting_input_bytes,
    waiting_input_next,
    Mode,
    Terminal,
};
use vstd::prelude::*;

verus! {

/// The most bytes that are read from the line in one turn.
pub const READ_LIMIT: usize = 512;

/// What a session asks its host to do next.
#[derive(Clone, Copy, Debug, PartialEq, Eq, Structural)]
pub enum Request {
    /// Open the device with the session's settings.
    Open,
    /// Put the host's terminal into raw mode and switch to the alternate
    /// screen.
    EnterScreen,
    /// Read what the line holds, up to [`READ_LIMIT`] bytes.
    ReadPort,
    /// Write the pending bytes to the display as they are, and flush.
    Display,
    /// Wait for exactly one event of the keyboard or the window.
    AwaitEvent,
    /// Write the pending bytes to the line, once.
    WritePort,
    /// Ask the user for the path of a file to send.
    PromptPath,
    /// Restore the host's terminal and report how the session ended.
    Finish,
}

/// The state of a session, as contracts see it.
#[verifier::ext_equal]
pub struct SessionView {
    /// The settings of the transport.
    pub port: SerialPortView,
    /// The mode of the keyboard.
    pub mode: Mode,
    /// The outstanding request.
    pub request: Request,
    /// The bytes that `Display` and `WritePort` speak of.
    pub pending: Seq<u8>,
    /// Why the session ended, where it did not end by the user's wish.
    pub failure: Option<Error>,
}

impl SessionView {
    /// What holds of every session that was started and then driven: each
    /// request stands in a mode that can make it, a write to the line has
    /// something to write, and a failure has ended the session.
    pub open spec fn wf(self) -> bool {
        &&& self.request == Request::Open || self.request == Request::EnterScreen ==> self.mode
            == Mode::WaitingInput
        &&& self.request == Request::AwaitEvent ==> self.mode == Mode::WaitingInput || self.mode
            == Mode::WaitingCommand
        &&& self.request == Request::WritePort ==> self.pending.len() > 0 && (self.mode
            == Mode::WaitingInput || self.mode == Mode::WaitingCommand)
        &&& self.request == Request::PromptPath ==> self.mode == Mode::SendingFile
        &&& self.failure.is_some() ==> self.request == Request::Finish
        &&& self.request == Request::Finish && self.failure.is_none() ==> self.mode == Mode::Exit
    }

    /// The session has ended.
    pub open spec fn finished(self) -> bool {
        self.request == Request::Finish
    }
}

/// A session in its first state: in `WaitingInput`, about to open the device.
pub open spec fn start(port: SerialPortView) -> SessionView {
    SessionView {
        port,
        mode: Mode::WaitingInput,
        request: Request::Open,
        pending: Seq::empty(),
        failure: None,
    }
}

/// The session ended by `error`.
pub open spec fn failed(s: SessionView, error: Error) -> SessionView {
    SessionView { request: Request::Finish, failure: Some(error), ..s }
}

/// The session at the start of a turn: about to read the line.
pub open spec fn next_turn(s: SessionView, mode: Mode) -> SessionView {
    SessionView { mode, request: Request::ReadPort, pending: Seq::empty(), ..s }
}

/// The session once the device was asked to open: about to take the screen
/// where the device accepted the settings, ended by a device error where it
/// did not.
pub open spec fn after_open(s: SessionView, outcome: Result<(), IoFailure>) -> SessionView {
    if s.request != Request::Open {
        s
    } else {
        match outcome {
            Ok(_) => SessionView { request: Request::EnterScreen, ..s },
            Err(failure) => failed(s, Error::Device(failure)),
        }
    }
}

/// The session once the host's terminal was asked for raw mode and the
/// alternate screen: at its first turn, or ended where the terminal refused.
pub open spec fn after_enter(s: SessionView, outcome: Result<(), IoFailure>) -> SessionView {
    if s.request != Request::EnterScreen {
        s
    } else {
        match outcome {
            Ok(_) => next_turn(s, s.mode),
            Err(failure) => failed(s, Error::HostOutput(failure)),
        }
    }
}

/// The session once the line was read: about to display what was read,
/// nothing where the deadline expired; ended by a device error on every other
/// failure.
pub open spec fn after_read(s: SessionView, outcome: Result<Seq<u8>, IoFailure>) -> SessionView {
    if s.request != Request::ReadPort {
        s
    } else {
        match timeout_as_empty(outcome, Seq::empty()) {
            Ok(bytes) => SessionView { request: Request::Display, pending: bytes, ..s },
            Err(error) => failed(s, error),
        }
    }
}

/// The session as it visits its mode after the display was written.
pub open spec fn visit(s: SessionView) -> SessionView {
    match s.mode {
        Mode::WaitingInput | Mode::WaitingCommand => SessionView {
            request: Request::AwaitEvent,
            pending: Seq::empty(),
            ..s
        },
        Mode::SendingFile => SessionView {
            request: Request::PromptPath,
            pending: Seq::empty(),
            ..s
        },
        Mode::ReceivingFile => next_turn(s, Mode::WaitingInput),
        Mode::Exit => SessionView { request: Request::Finish, pending: Seq::empty(), ..s },
    }
}

/// The session once the display was written: visiting its mode, or ended
/// where the display failed.
pub open spec fn after_display(s: SessionView, outcome: Result<(), IoFailure>) -> SessionView {
    if s.request != Request::Display {
        s
    } else {
        match outcome {
            Ok(_) => visit(s),
            Err(failure) => failed(s, Error::HostOutput(failure)),
        }
    }
}

/// The session once the host delivered an event, or failed to. The mode's
/// handler decides the next mode; the bytes of a key in `WaitingInput` are
/// then written to the line before the next turn.
pub open spec fn after_event(s: SessionView, outcome: Result<Event, IoFailure>) -> SessionView {
    if s.request != Request::AwaitEvent {
        s
    } else {
        match outcome {
            Err(failure) => failed(s, Error::HostInput(failure)),
            Ok(event) => match s.mode {
                Mode::WaitingInput => {
                    let bytes = waiting_input_bytes(event);
                    if bytes.len() > 0 {
                        SessionView {
                            mode: waiting_input_next(event),
                            request: Request::WritePort,
                            pending: bytes,
                            ..s
                        }
                    } else {
                        next_turn(s, waiting_input_next(event))
                    }
                },
                Mode::WaitingCommand => next_turn(s, waiting_command_next(event)),
                _ => s,
            },
        }
    }
}

/// The session once the pending bytes were written to the line, once. What
/// the device did not accept is written again, also after an expired
/// deadline; with nothing left the next turn begins. A failure other than an
/// expired deadline ends the session.
pub open spec fn after_write(s: SessionView, outcome: Result<usize, IoFailure>) -> SessionView {
    if s.request != Request::WritePort {
        s
    } else {
        match timeout_as_empty(outcome, 0usize) {
            Ok(accepted) => {
                let rest = rest_after(s.pending, accepted as nat);
                if rest.len() > 0 {
                    SessionView { pending: rest, ..s }
                } else {
                    next_turn(s, s.mode)
                }
            },
            Err(error) => failed(s, error),
        }
    }
}

/// The session once the user was asked for a path: back in `WaitingInput`,
/// whatever the answer.
pub open spec fn after_prompt(s: SessionView) -> SessionView {
    if s.request != Request::PromptPath {
        s
    } else {
        next_turn(s, Mode::WaitingInput)
    }
}

/// What was read from the line, as contracts see it.
pub open spec fn bytes_read(outcome: Result<Vec<u8>, IoFailure>) -> Result<Seq<u8>, IoFailure> {
    match outcome {
        Ok(bytes) => Ok(bytes@),
        Err(failure) => Err(failure),
    }
}

/// A session on one serial device.
#[derive(Debug)]
pub struct Session {
    port: SerialPort,
    mode: Mode,
    request: Request,
    pending: Vec<u8>,
    failure: Option<Error>,
}

impl View for Session {
    type V = SessionView;

    closed spec fn view(&self) -> SessionView {
        SessionView {
            port: self.port@,
            mode: self.mode,
            request: self.request,
            pending: self.pending@,
            failure: self.failure,
        }
    }
}

impl Session {
    /// Creates the session for the device named `device`, in its first
    /// state. The line parameters are checked before anything is asked of
    /// the device: data bits other than 5, 6, 7 or 8 are a configuration
    /// error.
    pub fn new(device: String, args: &Arguments) -> (session: Result<Session, Error>)
        ensures
            match settings_for(device@, *args) {
                Some(settings) => session.is_ok() && session.unwrap()@ == start(settings),
                None => session.is_err() && session.unwrap_err() == Error::Configuration(
                    args.data_bits,
                ),
            },
    {
        match SerialPort::new(device, args) {
            Ok(port) => Ok(
                Session {
                    port,
                    mode: Mode::WaitingInput,
                    request: Request::Open,
                    pending: Vec::new(),
                    failure: None,
                },
            ),
            Err(error) => Err(error),
        }
    }

    /// The outstanding request.
    pub fn request(&self) -> (request: Request)
        ensures
            request == self@.request,
    {
        self.request
    }

    /// The mode of the keyboard.
    pub fn mode(&self) -> (mode: Mode)
        ensures
            mode == self@.mode,
    {
        self.mode
    }

    /// The settings to open the device with.
    pub fn port(&self) -> (port: &SerialPort)
        ensures
            port@ == self@.port,
    {
        &self.port
    }

    /// The bytes that the outstanding `Display` or `WritePort` speaks of.
    pub fn pending(&self) -> (bytes: &Vec<u8>)
        ensures
            bytes@ == self@.pending,
    {
        &self.pending
    }

    /// Whether the session has ended.
    pub fn is_finished(&self) -> (answer: bool)
        ensures
            answer == self@.finished(),
    {
        self.request == Request::Finish
    }

    /// How the session ended: with the failure that ended it, if any.
    pub fn finish(self) -> (end: Result<(), Error>)
        ensures
            match self@.failure {
                Some(error) => end == Err::<(), Error>(error),
                None => end.is_ok(),
            },
    {
        match self.failure {
            Some(error) => Err(error),
            None => Ok(()),
        }
    }

    /// Takes the outcome of opening the device.
    pub fn opened(&mut self, outcome: Result<(), IoFailure>)
        ensures
            final(self)@ == after_open(old(self)@, outcome),
    {
        if self.request != Request::Open {
            return ;
        }
        match outcome {
            Ok(_) => {
                self.request = Request::EnterScreen;
            },
            Err(failure) => {
                self.fail(Error::Device(failure));
            },
        }
    }

    /// Takes the outcome of putting the host's terminal into raw mode and
    /// onto the alternate screen.
    pub fn entered(&mut self, outcome: Result<(), IoFailure>)
        ensures
            final(self)@ == after_enter(old(self)@, outcome),
    {
        if self.request != Request::EnterScreen {
            return ;
        }
        match outcome {
            Ok(_) => {
                self.begin_turn(self.mode);
            },
            Err(failure) => {
                self.fail(Error::HostOutput(failure));
            },
        }
    }

    /// Takes the outcome of reading the line: the bytes read, or the failure.
    pub fn read_port(&mut self, outcome: Result<Vec<u8>, IoFailure>)
        ensures
            final(self)@ == after_read(old(self)@, bytes_read(outcome)),
    {
        if self.request != Request::ReadPort {
            return ;
        }
        match outcome {
            Ok(bytes) => {
                self.pending = bytes;
                self.request = Request::Display;
            },
            Err(failure) => {
                if failure.is_timeout() {
                    self.pending = Vec::new();
                    self.request = Request::Display;
                } else {
                    self.fail(Error::Device(failure));
                }
            },
        }
    }

    /// Takes the outcome of writing the pending bytes to the display.
    pub fn write_output_all(&mut self, outcome: Result<(), IoFailure>)
        ensures
            final(self)@ == after_display(old(self)@, outcome),
    {
        if self.request != Request::Display {
            return ;
        }
        match outcome {
            Ok(_) => {
                let terminal = Terminal {  };
                match self.mode {
                    Mode::WaitingInput | Mode::WaitingCommand => {
                        self.pending = Vec::new();
                        self.request = Request::AwaitEvent;
                    },
                    Mode::SendingFile => {
                        self.pending = Vec::new();
                        self.request = Request::PromptPath;
                    },
                    Mode::ReceivingFile => {
                        let next = terminal.visit_receiving_file();
                        self.begin_turn(next);
                    },
                    Mode::Exit => {
                        self.pending = Vec::new();
                        self.request = Request::Finish;
                    },
                }
            },
            Err(failure) => {
                self.fail(Error::HostOutput(failure));
            },
        }
    }

    /// Takes the event that the host waited for, or the failure to get one.
    pub fn dispatch(&mut self, outcome: Result<Event, IoFailure>)
        ensures
            final(self)@ == after_event(old(self)@, outcome),
    {
        if self.request != Request::AwaitEvent {
            return ;
        }
        match outcome {
            Err(failure) => {
                self.fail(Error::HostInput(failure));
            },
            Ok(event) => {
                let terminal = Terminal {  };
                match self.mode {
                    Mode::WaitingInput => {
                        let (next, bytes) = terminal.visit_waiting_input(event);
                        if bytes.len() > 0 {
                            self.mode = next;
                            self.pending = bytes;
                            self.request = Request::WritePort;
                        } else {
                            self.begin_turn(next);
                        }
                    },
                    Mode::WaitingCommand => {
                        let next = terminal.visit_waiting_command(event);
                        self.begin_turn(next);
                    },
                    _ => {},
                }
            },
        }
    }

    /// Takes the outcome of writing the pending bytes to the line, once.
    pub fn write_port_all(&mut self, outcome: Result<usize, IoFailure>)
        ensures
            final(self)@ == after_write(old(self)@, outcome),
    {
        if self.request != Request::WritePort {
            return ;
        }
        match self.port.write_all(&mut self.pending, outcome) {
            Ok(_) => {
                if self.pending.len() == 0 {
                    self.begin_turn(self.mode);
                }
            },
            Err(error) => {
                self.fail(error);
            },
        }
    }

    /// Takes the path that the user chose for sending, if any.
    pub fn prompted(&mut self, path: Option<String>)
        ensures
            final(self)@ == after_prompt(old(self)@),
    {
        if self.request != Request::PromptPath {
            return ;
        }
        let terminal = Terminal {  };
        let next = terminal.visit_sending_file(path);
        self.begin_turn(next);
    }

    fn begin_turn(&mut self, mode: Mode)
        ensures
            final(self)@ == next_turn(old(self)@, mode),
    {
        self.mode = mode;
        self.pending = Vec::new();
        self.request = Request::ReadPort;
    }

    fn fail(&mut self, error: Error)
        ensures
            final(self)@ == failed(old(self)@, error),
    {
        self.failure = Some(error);
        self.request = Request::Finish;
    }
}

/// A session in its first state is well formed.
pub proof fn lemma_start_wf(port: SerialPortView)
    ensures
        start(port).wf(),
{
}

/// Every step keeps a session well formed, whatever the outcome handed in.
pub proof fn lemma_steps_keep_wf(
    s: SessionView,
    opened: Result<(), IoFailure>,
    entered: Result<(), IoFailure>,
    read: Result<Seq<u8>, IoFailure>,
    displayed: Result<(), IoFailure>,
    event: Result<Event, IoFailure>,
    written: Result<usize, IoFailure>,
)
    requires
        s.wf(),
    ensures
        after_open(s, opened).wf(),
        after_enter(s, entered).wf(),
        after_read(s, read).wf(),
        after_display(s, displayed).wf(),
        after_event(s, event).wf(),
        after_write(s, written).wf(),
        after_prompt(s).wf(),
{
}

/// Every step moves the mode along an arrow of the mode diagram, or leaves
/// it where it is.
pub proof fn lemma_steps_follow_arrows(
    s: SessionView,
    opened: Result<(), IoFailure>,
    entered: Result<(), IoFailure>,
    read: Result<Seq<u8>, IoFailure>,
    displayed: Result<(), IoFailure>,
    event: Result<Event, IoFailure>,
    written: Result<usize, IoFailure>,
)
    requires
        s.wf(),
    ensures
        may_follow(s.mode, after_open(s, opened).mode),
        may_follow(s.mode, after_enter(s, entered).mode),
        may_follow(s.mode, after_read(s, read).mode),
        may_follow(s.mode, after_display(s, displayed).mode),
        may_follow(s.mode, after_event(s, event).mode),
        may_follow(s.mode, after_write(s, written).mode),
        may_follow(s.mode, after_prompt(s).mode),
{
}

/// A session that has ended stays as it is, whatever is handed to it.
pub proof fn lemma_finished_is_final(
    s: SessionView,
    opened: Result<(), IoFailure>,
    entered: Result<(), IoFailure>,
    read: Result<Seq<u8>, IoFailure>,
    displayed: Result<(), IoFailure>,
    event: Result<Event, IoFailure>,
    written: Result<usize, IoFailure>,
)
    requires
        s.finished(),
    ensures
        after_open(s, opened) == s,
        after_enter(s, entered) == s,
        after_read(s, read) == s,
        after_display(s, displayed) == s,
        after_event(s, event) == s,
        after_write(s, written) == s,
        after_prompt(s) == s,
{
}

/// Opening succeeds exactly where the device accepts the settings: the new
/// session then goes on to take the screen, and otherwise ends with the
/// device's failure.
pub proof fn lemma_open_succeeds_iff_accepted(port: SerialPortView, outcome: Result<(), IoFailure>)
    ensures
        outcome.is_ok() <==> !after_open(start(port), outcome).finished(),
        outcome.is_ok() ==> after_open(start(port), outcome) == (SessionView {
            request: Request::EnterScreen,
            ..start(port)
        }),
        outcome matches Err(failure) ==> after_open(start(port), outcome).failure == Some(
            Error::Device(failure),
        ),
{
}

/// An expired deadline on the line is no failure: a read that timed out is
/// a read of nothing, a write that timed out is a write of nothing, and
/// neither ends the session.
pub proof fn lemma_timeout_is_empty_success(s: SessionView, failure: IoFailure)
    requires
        failure.timed_out(),
        !s.finished(),
    ensures
        after_read(s, Err(failure)) == after_read(s, Ok(Seq::empty())),
        after_write(s, Err(failure)) == after_write(s, Ok(0usize)),
        !after_read(s, Err(failure)).finished(),
        !after_write(s, Err(failure)).finished(),
        s.request == Request::WritePort && s.pending.len() > 0 ==> after_write(s, Err(failure))
            == s,
{
    assert(rest_after(s.pending, 0) =~= s.pending);
}

/// In `WaitingInput` the command chord leads to `WaitingCommand` without a
/// write to the line, and every other event stays in `WaitingInput`; a key
/// that stands for bytes has exactly those bytes written next.
pub proof fn lemma_waiting_input_step(s: SessionView, event: Event)
    requires
        s.request == Request::AwaitEvent,
        s.mode == Mode::WaitingInput,
    ensures
        ({
            let t = after_event(s, Ok(event));
            match event {
                Event::Key(key) => if is_command_prefix(key) {
                    t == next_turn(s, Mode::WaitingCommand)
                } else {
                    &&& t.mode == Mode::WaitingInput
                    &&& key_bytes(key.code).len() > 0 ==> t.request == Request::WritePort
                        && t.pending == key_bytes(key.code)
                    &&& key_bytes(key.code).len() == 0 ==> t.request == Request::ReadPort
                },
                _ => t == next_turn(s, Mode::WaitingInput),
            }
        }),
{
}

/// In `WaitingCommand` no event leads to a write to the line: a key takes
/// the session to the mode it names, at the start of the next turn.
pub proof fn lemma_waiting_command_step(s: SessionView, event: Event)
    requires
        s.request == Request::AwaitEvent,
        s.mode == Mode::WaitingCommand,
    ensures
        after_event(s, Ok(event)) == next_turn(s, waiting_command_next(event)),
        after_event(s, Ok(event)).request != Request::WritePort,
{
}

/// `SendingFile` and `ReceivingFile` last one visit: the session is back in
/// `WaitingInput` after it, whatever the user answered to the prompt.
pub proof fn lemma_transfers_return(s: SessionView, displayed: Result<(), IoFailure>)
    requires
        s.request == Request::Display,
        displayed.is_ok(),
    ensures
        s.mode == Mode::ReceivingFile ==> after_display(s, displayed) == next_turn(
            s,
            Mode::WaitingInput,
        ),
        s.mode == Mode::SendingFile ==> after_display(s, displayed).request
            == Request::PromptPath && after_prompt(after_display(s, displayed)) == next_turn(
            s,
            Mode::WaitingInput,
        ),
{
}

/// The line is written to only for a key in `WaitingInput`: a step that
/// newly asks for a write was the delivery of an event in that mode.
pub proof fn lemma_writes_come_from_keys(
    s: SessionView,
    opened: Result<(), IoFailure>,
    entered: Result<(), IoFailure>,
    read: Result<Seq<u8>, IoFailure>,
    displayed: Result<(), IoFailure>,
    event: Result<Event, IoFailure>,
)
    requires
        s.request != Request::WritePort,
    ensures
        after_open(s, opened).request != Request::WritePort,
        after_enter(s, entered).request != Request::WritePort,
        after_read(s, read).request != Request::WritePort,
        after_display(s, displayed).request != Request::WritePort,
        after_prompt(s).request != Request::WritePort,
        after_event(s, event).request == Request::WritePort ==> s.mode == Mode::WaitingInput
            && event.is_ok() && after_event(s, event).pending == waiting_input_bytes(
            event.unwrap(),
        ),
{
}

} // verus!
