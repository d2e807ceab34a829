use serial_terminal::arguments::{Arguments, DataBits, FlowControl, Parity, Task};
use serial_terminal::error::{Error, FailureKind, IoFailure};
use serial_terminal::event::{Event, KeyCode, KeyEvent, KeyModifiers, CONTROL, NO_MODIFIERS, SHIFT};
use serial_terminal::session::{Request, Session, READ_LIMIT};
use serial_terminal::terminal::Mode;

fn key(code: KeyCode, bits: u8) -> Event {
    Event::Key(KeyEvent { code, modifiers: KeyModifiers { bits } })
}

fn plain(ch: char) -> Event {
    key(KeyCode::Char(ch), NO_MODIFIERS)
}

fn failure(kind: FailureKind, message: &str) -> IoFailure {
    IoFailure { kind, message: String::from(message) }
}

fn timeout() -> IoFailure {
    failure(FailureKind::TimedOut, "timed out")
}

fn session() -> Session {
    let args = Arguments::new(Task::Open { device: String::from("/dev/mock") });
    Session::new(String::from("/dev/mock"), &args).unwrap()
}

/// A session that has opened its device and waits for an event.
fn waiting() -> Session {
    let mut session = turning();
    session.read_port(Err(timeout()));
    session.write_output_all(Ok(()));
    assert_eq!(session.request(), Request::AwaitEvent);
    session
}

/// A session at its first turn.
fn turning() -> Session {
    let mut session = session();
    session.opened(Ok(()));
    session.entered(Ok(()));
    assert_eq!(session.request(), Request::ReadPort);
    session
}

/// A session in the given mode, about to read the line.
fn in_mode(command: char) -> Session {
    let mut session = waiting();
    session.dispatch(Ok(key(KeyCode::Char('t'), CONTROL)));
    session.read_port(Ok(vec![]));
    session.write_output_all(Ok(()));
    session.dispatch(Ok(plain(command)));
    assert_eq!(session.request(), Request::ReadPort);
    session
}

/// A host made of scripts: what the line delivers, which keys are pressed,
/// and how many bytes the device accepts per write.
struct MockHost {
    incoming: Vec<Vec<u8>>,
    events: Vec<Event>,
    accept: usize,
    opens: usize,
    screens: usize,
    reads: usize,
    written: Vec<u8>,
    writes: Vec<Vec<u8>>,
    displayed: Vec<u8>,
    displays: usize,
    prompts: usize,
}

impl MockHost {
    fn new(events: Vec<Event>) -> MockHost {
        MockHost {
            incoming: vec![],
            events,
            accept: usize::MAX,
            opens: 0,
            screens: 0,
            reads: 0,
            written: vec![],
            writes: vec![],
            displayed: vec![],
            displays: 0,
            prompts: 0,
        }
    }

    /// Drives the session until it has finished.
    fn drive(&mut self, session: &mut Session) {
        let mut steps = 0;
        while !session.is_finished() {
            steps += 1;
            assert!(steps < 10_000, "the session does not end");
            match session.request() {
                Request::Open => {
                    self.opens += 1;
                    session.opened(Ok(()));
                }
                Request::EnterScreen => {
                    assert_eq!(self.opens, 1);
                    self.screens += 1;
                    session.entered(Ok(()));
                }
                Request::ReadPort => {
                    self.reads += 1;
                    if self.incoming.is_empty() {
                        session.read_port(Err(timeout()));
                    } else {
                        session.read_port(Ok(self.incoming.remove(0)));
                    }
                }
                Request::Display => {
                    self.displays += 1;
                    self.displayed.extend_from_slice(session.pending());
                    session.write_output_all(Ok(()));
                }
                Request::AwaitEvent => {
                    if self.events.is_empty() {
                        session.dispatch(Err(failure(FailureKind::Other, "no more keys")));
                    } else {
                        session.dispatch(Ok(self.events.remove(0)));
                    }
                }
                Request::WritePort => {
                    let pending = session.pending().clone();
                    assert!(!pending.is_empty());
                    let accepted = pending.len().min(self.accept);
                    self.written.extend_from_slice(&pending[..accepted]);
                    self.writes.push(pending);
                    session.write_port_all(Ok(accepted));
                }
                Request::PromptPath => {
                    self.prompts += 1;
                    session.prompted(Some(String::from("file.bin")));
                }
                Request::Finish => unreachable!(),
            }
        }
    }
}

#[test]
fn read_limit_is_512() {
    assert_eq!(READ_LIMIT, 512);
}

#[test]
fn a_new_session_is_about_to_open_the_device() {
    let mut args = Arguments::new(Task::Open { device: String::from("/dev/ttyACM0") });
    args.baud_rate = 57600;
    args.data_bits = String::from("7");
    args.parity = Parity::Even;
    args.flow_control = FlowControl::Hardware;
    let session = Session::new(String::from("/dev/ttyACM0"), &args).unwrap();
    assert_eq!(session.request(), Request::Open);
    assert_eq!(session.mode(), Mode::WaitingInput);
    assert!(session.pending().is_empty());
    assert!(!session.is_finished());
    assert_eq!(session.port().path(), "/dev/ttyACM0");
    assert_eq!(session.port().baud_rate(), 57600);
    assert_eq!(session.port().data_bits(), DataBits::Seven);
    assert_eq!(session.port().parity(), Parity::Even);
    assert_eq!(session.port().flow_control(), FlowControl::Hardware);
}

#[test]
fn illegal_data_bits_fail_before_the_device_is_touched() {
    let mut args = Arguments::new(Task::Open { device: String::from("/dev/mock") });
    args.data_bits = String::from("9");
    match Session::new(String::from("/dev/mock"), &args) {
        Err(error) => assert_eq!(error, Error::Configuration(String::from("9"))),
        Ok(_) => panic!("a session was made"),
    }
}

#[test]
fn opening_succeeds_where_the_device_accepts() {
    let mut session = session();
    session.opened(Ok(()));
    assert_eq!(session.request(), Request::EnterScreen);
    assert_eq!(session.mode(), Mode::WaitingInput);
    assert!(!session.is_finished());
    session.entered(Ok(()));
    assert_eq!(session.request(), Request::ReadPort);
    assert_eq!(session.mode(), Mode::WaitingInput);
    assert!(!session.is_finished());
}

#[test]
fn a_terminal_that_refuses_raw_mode_ends_the_session() {
    let mut session = session();
    session.opened(Ok(()));
    let refused = failure(FailureKind::Other, "not a tty");
    session.entered(Err(refused.clone()));
    assert!(session.is_finished());
    assert_eq!(session.finish(), Err(Error::HostOutput(refused)));
}

#[test]
fn opening_fails_where_the_device_refuses() {
    let mut session = session();
    let refused = failure(FailureKind::NotFound, "no such device");
    session.opened(Err(refused.clone()));
    assert_eq!(session.request(), Request::Finish);
    assert!(session.is_finished());
    assert_eq!(session.finish(), Err(Error::Device(refused)));
}

#[test]
fn a_timeout_on_open_is_a_device_error() {
    let mut session = session();
    session.opened(Err(timeout()));
    assert_eq!(session.finish(), Err(Error::Device(timeout())));
}

#[test]
fn a_read_timeout_is_an_empty_read() {
    let mut session = turning();
    session.read_port(Err(timeout()));
    assert_eq!(session.request(), Request::Display);
    assert!(session.pending().is_empty());
    assert!(!session.is_finished());
}

#[test]
fn bytes_read_are_displayed_verbatim() {
    let mut session = turning();
    session.read_port(Ok(vec![0, 255, 27, 91, 50, 74, 13, 10]));
    assert_eq!(session.request(), Request::Display);
    assert_eq!(session.pending(), &vec![0, 255, 27, 91, 50, 74, 13, 10]);
    session.write_output_all(Ok(()));
    assert_eq!(session.request(), Request::AwaitEvent);
    assert!(session.pending().is_empty());
}

#[test]
fn a_read_failure_ends_the_session() {
    let mut session = turning();
    let gone = failure(FailureKind::Other, "device removed");
    session.read_port(Err(gone.clone()));
    assert!(session.is_finished());
    assert_eq!(session.finish(), Err(Error::Device(gone)));
}

#[test]
fn a_display_failure_ends_the_session() {
    let mut session = turning();
    session.read_port(Ok(vec![1]));
    let closed = failure(FailureKind::Other, "broken pipe");
    session.write_output_all(Err(closed.clone()));
    assert!(session.is_finished());
    assert_eq!(session.finish(), Err(Error::HostOutput(closed)));
}

#[test]
fn an_input_failure_ends_the_session() {
    let mut session = waiting();
    let lost = failure(FailureKind::Other, "stdin closed");
    session.dispatch(Err(lost.clone()));
    assert!(session.is_finished());
    assert_eq!(session.finish(), Err(Error::HostInput(lost)));
}

#[test]
fn a_timeout_while_waiting_for_input_is_a_host_input_error() {
    let mut session = waiting();
    session.dispatch(Err(timeout()));
    assert_eq!(session.finish(), Err(Error::HostInput(timeout())));
}

#[test]
fn a_key_is_written_to_the_line() {
    let mut session = waiting();
    session.dispatch(Ok(plain('h')));
    assert_eq!(session.request(), Request::WritePort);
    assert_eq!(session.pending(), &vec![b'h']);
    assert_eq!(session.mode(), Mode::WaitingInput);
    session.write_port_all(Ok(1));
    assert_eq!(session.request(), Request::ReadPort);
    assert!(session.pending().is_empty());
}

#[test]
fn an_unmapped_key_and_a_resize_write_nothing() {
    for event in [key(KeyCode::F(3), NO_MODIFIERS), key(KeyCode::Other, SHIFT), Event::Resize(80, 25), Event::Other] {
        let mut session = waiting();
        session.dispatch(Ok(event));
        assert_eq!(session.request(), Request::ReadPort);
        assert_eq!(session.mode(), Mode::WaitingInput);
        assert!(session.pending().is_empty());
    }
}

#[test]
fn the_chord_writes_nothing_and_waits_for_a_command() {
    let mut session = waiting();
    session.dispatch(Ok(key(KeyCode::Char('t'), CONTROL)));
    assert_eq!(session.request(), Request::ReadPort);
    assert_eq!(session.mode(), Mode::WaitingCommand);
    assert!(session.pending().is_empty());
}

#[test]
fn a_command_key_is_never_written() {
    for (ch, bits, mode) in [
        ('q', NO_MODIFIERS, Mode::Exit),
        ('s', NO_MODIFIERS, Mode::SendingFile),
        ('r', NO_MODIFIERS, Mode::ReceivingFile),
        ('x', NO_MODIFIERS, Mode::WaitingInput),
        ('q', SHIFT, Mode::WaitingInput),
    ] {
        let mut session = waiting();
        session.dispatch(Ok(key(KeyCode::Char('t'), CONTROL)));
        session.read_port(Err(timeout()));
        session.write_output_all(Ok(()));
        assert_eq!(session.request(), Request::AwaitEvent);
        session.dispatch(Ok(key(KeyCode::Char(ch), bits)));
        assert_eq!(session.request(), Request::ReadPort);
        assert_eq!(session.mode(), mode);
        assert!(session.pending().is_empty());
    }
}

#[test]
fn a_resize_leaves_the_command_pending() {
    let mut session = waiting();
    session.dispatch(Ok(key(KeyCode::Char('t'), CONTROL)));
    session.read_port(Ok(vec![b'>']));
    session.write_output_all(Ok(()));
    session.dispatch(Ok(Event::Resize(100, 30)));
    assert_eq!(session.mode(), Mode::WaitingCommand);
    session.read_port(Ok(vec![]));
    session.write_output_all(Ok(()));
    session.dispatch(Ok(plain('q')));
    assert_eq!(session.mode(), Mode::Exit);
}

#[test]
fn a_partial_write_is_continued_until_all_is_accepted() {
    let mut session = waiting();
    session.dispatch(Ok(key(KeyCode::PageUp, NO_MODIFIERS)));
    assert_eq!(session.pending(), &vec![27, 91, 53, 126]);
    session.write_port_all(Ok(1));
    assert_eq!(session.request(), Request::WritePort);
    assert_eq!(session.pending(), &vec![91, 53, 126]);
    session.write_port_all(Err(timeout()));
    assert_eq!(session.request(), Request::WritePort);
    assert_eq!(session.pending(), &vec![91, 53, 126]);
    session.write_port_all(Ok(0));
    assert_eq!(session.request(), Request::WritePort);
    assert_eq!(session.pending(), &vec![91, 53, 126]);
    session.write_port_all(Ok(2));
    assert_eq!(session.request(), Request::WritePort);
    assert_eq!(session.pending(), &vec![126]);
    session.write_port_all(Ok(1));
    assert_eq!(session.request(), Request::ReadPort);
    assert!(session.pending().is_empty());
    assert_eq!(session.mode(), Mode::WaitingInput);
}

#[test]
fn a_write_failure_ends_the_session() {
    let mut session = waiting();
    session.dispatch(Ok(plain('a')));
    let denied = failure(FailureKind::Other, "permission denied");
    session.write_port_all(Err(denied.clone()));
    assert!(session.is_finished());
    assert_eq!(session.finish(), Err(Error::Device(denied)));
}

#[test]
fn sending_file_prompts_and_returns_whatever_the_answer() {
    for answer in [Some(String::from("a.txt")), Some(String::new()), None] {
        let mut session = in_mode('s');
        assert_eq!(session.mode(), Mode::SendingFile);
        session.read_port(Ok(vec![]));
        session.write_output_all(Ok(()));
        assert_eq!(session.request(), Request::PromptPath);
        assert_eq!(session.mode(), Mode::SendingFile);
        session.prompted(answer);
        assert_eq!(session.request(), Request::ReadPort);
        assert_eq!(session.mode(), Mode::WaitingInput);
    }
}

#[test]
fn receiving_file_returns_on_its_visit() {
    let mut session = in_mode('r');
    assert_eq!(session.mode(), Mode::ReceivingFile);
    session.read_port(Ok(vec![7]));
    session.write_output_all(Ok(()));
    assert_eq!(session.request(), Request::ReadPort);
    assert_eq!(session.mode(), Mode::WaitingInput);
}

#[test]
fn exit_ends_the_session_on_its_visit() {
    let mut session = in_mode('q');
    assert_eq!(session.mode(), Mode::Exit);
    assert!(!session.is_finished());
    session.read_port(Err(timeout()));
    session.write_output_all(Ok(()));
    assert_eq!(session.request(), Request::Finish);
    assert!(session.is_finished());
    assert_eq!(session.finish(), Ok(()));
}

#[test]
fn an_outcome_that_was_not_asked_for_changes_nothing() {
    let mut session = session();
    session.entered(Ok(()));
    session.read_port(Ok(vec![1, 2, 3]));
    session.write_output_all(Ok(()));
    session.dispatch(Ok(plain('q')));
    session.write_port_all(Ok(3));
    session.prompted(None);
    assert_eq!(session.request(), Request::Open);
    assert_eq!(session.mode(), Mode::WaitingInput);
    assert!(session.pending().is_empty());

    let mut session = waiting();
    session.opened(Err(failure(FailureKind::Other, "late")));
    session.entered(Err(failure(FailureKind::Other, "late")));
    session.read_port(Ok(vec![1]));
    session.write_output_all(Err(failure(FailureKind::Other, "late")));
    session.write_port_all(Ok(1));
    session.prompted(None);
    assert_eq!(session.request(), Request::AwaitEvent);
    assert!(!session.is_finished());
}

#[test]
fn a_finished_session_stays_finished() {
    let mut session = session();
    let refused = failure(FailureKind::Other, "busy");
    session.opened(Err(refused.clone()));
    session.opened(Ok(()));
    session.entered(Ok(()));
    session.read_port(Ok(vec![1]));
    session.write_output_all(Ok(()));
    session.dispatch(Ok(plain('a')));
    session.write_port_all(Ok(1));
    session.prompted(None);
    assert_eq!(session.request(), Request::Finish);
    assert_eq!(session.finish(), Err(Error::Device(refused)));
}

#[test]
fn hi_then_quit_writes_two_bytes_and_ends() {
    let mut host = MockHost::new(vec![
        plain('h'),
        plain('i'),
        key(KeyCode::Char('t'), CONTROL),
        plain('q'),
    ]);
    let mut session = session();
    host.drive(&mut session);
    assert_eq!(host.opens, 1);
    assert_eq!(host.screens, 1);
    assert_eq!(host.written, vec![b'h', b'i']);
    assert_eq!(host.writes, vec![vec![b'h'], vec![b'i']]);
    assert!(host.events.is_empty());
    assert!(host.displayed.is_empty());
    assert_eq!(host.prompts, 0);
    assert_eq!(host.reads, 5);
    assert_eq!(host.displays, 5);
    assert_eq!(session.mode(), Mode::Exit);
    assert!(session.pending().is_empty());
    assert_eq!(session.finish(), Ok(()));
}

#[test]
fn line_output_reaches_the_display_in_order() {
    let mut host = MockHost::new(vec![plain('l'), plain('s'), key(KeyCode::Enter, NO_MODIFIERS), key(KeyCode::Char('t'), CONTROL), plain('q')]);
    host.incoming = vec![b"login: ".to_vec(), vec![], b"ls\r\n".to_vec(), b"a b c\r\n$ ".to_vec()];
    let mut session = session();
    host.drive(&mut session);
    assert_eq!(host.displayed, b"login: ls\r\na b c\r\n$ ".to_vec());
    assert_eq!(host.written, b"ls\n".to_vec());
    assert_eq!(session.finish(), Ok(()));
}

#[test]
fn a_slow_device_still_gets_every_byte() {
    let mut host = MockHost::new(vec![
        key(KeyCode::Insert, NO_MODIFIERS),
        key(KeyCode::Char('€'), NO_MODIFIERS),
        key(KeyCode::Char('t'), CONTROL),
        plain('q'),
    ]);
    host.accept = 1;
    let mut session = session();
    host.drive(&mut session);
    assert_eq!(host.written, vec![27, 91, 50, 126, 0xe2, 0x82, 0xac]);
    assert_eq!(host.writes.len(), 7);
    assert_eq!(session.finish(), Ok(()));
}

#[test]
fn stub_transfers_do_not_disturb_the_session() {
    let mut host = MockHost::new(vec![
        plain('a'),
        key(KeyCode::Char('t'), CONTROL),
        plain('s'),
        plain('b'),
        key(KeyCode::Char('t'), CONTROL),
        plain('r'),
        plain('c'),
        key(KeyCode::Char('t'), CONTROL),
        plain('x'),
        plain('d'),
        key(KeyCode::Char('t'), CONTROL),
        plain('q'),
        plain('e'),
    ]);
    let mut session = session();
    host.drive(&mut session);
    assert_eq!(host.written, b"abcd".to_vec());
    assert_eq!(host.prompts, 1);
    assert_eq!(host.events, vec![plain('e')]);
    assert_eq!(session.finish(), Ok(()));
}

#[test]
fn running_out_of_keys_is_a_host_input_error() {
    let mut host = MockHost::new(vec![plain('z')]);
    let mut session = session();
    host.drive(&mut session);
    assert_eq!(host.written, vec![b'z']);
    assert_eq!(
        session.finish(),
        Err(Error::HostInput(failure(FailureKind::Other, "no more keys")))
    );
}
