//! What the program does for a command line.

use crate::arguments::{Arguments, Task};
use crate::error::Error;
use crate::serial_port::settings_for;
use crate::session::{start, Session};
use crate::terminal::Terminal;
use crate::text::texts_of;
use vstd::prelude::*;
use vstd::string::*;

verus! {

/// What is to be done for a command line.
#[derive(Debug)]
pub enum Plan {
    /// Drive this session to its end.
    Open(Session),
    /// Search for the available devices and print their names.
    List,
}

/// The text that lists the devices: each name on a line of its own, in the
/// order given, with nothing added.
pub open spec fn listing(names: Seq<Seq<char>>) -> Seq<char>
    decreases names.len(),
{
    if names.len() == 0 {
        Seq::empty()
    } else {
        listing(names.drop_last()) + names.last() + seq!['\n']
    }
}

/// Decides what to do for a command line. For `Open` the line parameters
/// are checked and the session is handed out in its first state; data bits
/// other than 5, 6, 7 or 8 are a configuration error. `List` depends on no
/// line parameter.
pub fn run_command(args: Arguments) -> (plan: Result<Plan, Error>)
    ensures
        match args.task {
            Task::Open { device } => match settings_for(device@, args) {
                Some(settings) => plan matches Ok(Plan::Open(session)) && session@ == start(
                    settings,
                ),
                None => plan.is_err() && plan.unwrap_err() == Error::Configuration(
                    args.data_bits,
                ),
            },
            Task::List => plan matches Ok(Plan::List),
        },
{
    match &args.task {
        Task::Open { device } => {
            let terminal = Terminal {  };
            match terminal.run(&args, device.as_str()) {
                Ok(session) => Ok(Plan::Open(session)),
                Err(error) => Err(error),
            }
        },
        Task::List => Ok(Plan::List),
    }
}

/// The exit code of the program: zero where it did what it was asked, one
/// where it failed.
pub fn exit_code(outcome: &Result<(), Error>) -> (code: u8)
    ensures
        code == if outcome.is_ok() {
            0u8
        } else {
            1u8
        },
{
    match outcome {
        Ok(_) => 0,
        Err(_) => 1,
    }
}

/// The text to print for the devices found.
pub fn run_list(ports: &Vec<String>) -> (text: String)
    ensures
        text@ == listing(texts_of(ports@)),
{
    let ghost names = texts_of(ports@);
    let mut text = String::new();
    let mut i: usize = 0;
    assert(names.take(0) =~= Seq::<Seq<char>>::empty());
    while i < ports.len()
        invariant
            i <= ports.len(),
            names == texts_of(ports@),
            text@ == listing(names.take(i as int)),
        decreases ports.len() - i,
    {
        proof {
            reveal_strlit("\n");
            let upto = names.take(i + 1);
            assert(upto.drop_last() =~= names.take(i as int));
            assert(upto.last() == ports@[i as int]@);
        }
        text.append(ports[i].as_str());
        text.append("\n");
        assert("\n"@ =~= seq!['\n']);
        i += 1;
    }
    assert(names.take(i as int) =~= names);
    text
}

} // verus!
