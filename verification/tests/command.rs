use serial_terminal::arguments::{Arguments, DataBits, FlowControl, Parity, Task};
use serial_terminal::command::{exit_code, run_command, run_list, Plan};
use serial_terminal::error::{FailureKind, IoFailure};
use serial_terminal::error::Error;
use serial_terminal::session::Request;
use serial_terminal::terminal::{Mode, Terminal};

#[test]
fn the_exit_code_is_zero_on_success_only() {
    let failure = IoFailure { kind: FailureKind::Other, message: String::from("no bus") };
    assert_eq!(exit_code(&Ok(())), 0);
    assert_eq!(exit_code(&Err(Error::Device(failure.clone()))), 1);
    assert_eq!(exit_code(&Err(Error::HostInput(failure.clone()))), 1);
    assert_eq!(exit_code(&Err(Error::HostOutput(failure))), 1);
    assert_eq!(exit_code(&Err(Error::Configuration(String::from("9")))), 1);
}

#[test]
fn list_prints_each_device_on_its_own_line() {
    let ports = vec![String::from("/dev/ttyUSB0"), String::from("/dev/ttyUSB1")];
    assert_eq!(run_list(&ports), "/dev/ttyUSB0\n/dev/ttyUSB1\n");
}

#[test]
fn list_of_nothing_prints_nothing() {
    assert_eq!(run_list(&vec![]), "");
}

#[test]
fn list_keeps_the_order_and_adds_nothing() {
    let ports = vec![String::from("COM3"), String::from(""), String::from("/dev/tty.usbmodem 1"), String::from("COM1")];
    assert_eq!(run_list(&ports), "COM3\n\n/dev/tty.usbmodem 1\nCOM1\n");
}

#[test]
fn the_list_task_is_planned_whatever_the_line_parameters() {
    let mut args = Arguments::new(Task::List);
    assert!(matches!(run_command(args.clone()), Ok(Plan::List)));
    args.data_bits = String::from("11");
    assert!(matches!(run_command(args), Ok(Plan::List)));
}

#[test]
fn the_open_task_hands_out_a_session() {
    let mut args = Arguments::new(Task::Open { device: String::from("/dev/ttyUSB0") });
    args.baud_rate = 19200;
    args.data_bits = String::from("6");
    args.parity = Parity::Odd;
    args.flow_control = FlowControl::Software;
    match run_command(args) {
        Ok(Plan::Open(session)) => {
            assert_eq!(session.request(), Request::Open);
            assert_eq!(session.mode(), Mode::WaitingInput);
            assert_eq!(session.port().path(), "/dev/ttyUSB0");
            assert_eq!(session.port().baud_rate(), 19200);
            assert_eq!(session.port().data_bits(), DataBits::Six);
            assert_eq!(session.port().parity(), Parity::Odd);
            assert_eq!(session.port().flow_control(), FlowControl::Software);
        }
        other => panic!("{:?}", other),
    }
}

#[test]
fn the_open_task_with_defaults() {
    let args = Arguments::new(Task::Open { device: String::from("/dev/mock") });
    match run_command(args) {
        Ok(Plan::Open(session)) => {
            assert_eq!(session.port().baud_rate(), 115200);
            assert_eq!(session.port().data_bits(), DataBits::Eight);
            assert_eq!(session.port().parity(), Parity::Off);
            assert_eq!(session.port().flow_control(), FlowControl::Off);
        }
        other => panic!("{:?}", other),
    }
}

#[test]
fn the_open_task_with_illegal_data_bits_is_refused() {
    let mut args = Arguments::new(Task::Open { device: String::from("/dev/ttyUSB0") });
    args.data_bits = String::from("4");
    match run_command(args) {
        Err(error) => assert_eq!(error, Error::Configuration(String::from("4"))),
        other => panic!("{:?}", other),
    }
}

#[test]
fn terminal_run_starts_a_session() {
    let terminal = Terminal {};
    let args = Arguments::new(Task::List);
    let session = terminal.run(&args, "/dev/ttyS0").unwrap();
    assert_eq!(session.request(), Request::Open);
    assert_eq!(session.port().path(), "/dev/ttyS0");
    let mut bad = Arguments::new(Task::List);
    bad.data_bits = String::from("seven");
    match terminal.run(&bad, "/dev/ttyS0") {
        Err(error) => assert_eq!(error, Error::Configuration(String::from("seven"))),
        Ok(_) => panic!("a session was made"),
    }
}
