//! Line parameters and the task given on the command line.

use vstd::prelude::*;
use vstd::string::*;

verus! {

/// The baud rate of a line when none is given.
pub const DEFAULT_BAUD_RATE: u32 = 115200;

/// Parity checking on the line.
#[derive(Clone, Copy, Debug, PartialEq, Eq, Structural)]
pub enum Parity {
    /// No parity bit.
    Off,
    /// The parity bit makes the count of ones odd.
    Odd,
    /// The parity bit makes the count of ones even.
    Even,
}

impl Default for Parity {
    fn default() -> (parity: Parity)
        ensures
            parity == Parity::Off,
    {
        Parity::Off
    }
}

/// Flow control on the line.
#[derive(Clone, Copy, Debug, PartialEq, Eq, Structural)]
pub enum FlowControl {
    /// No flow control.
    Off,
    /// Flow control by XON and XOFF bytes.
    Software,
    /// Flow control by the RTS and CTS signals.
    Hardware,
}

impl Default for FlowControl {
    fn default() -> (flow_control: FlowControl)
        ensures
            flow_control == FlowControl::Off,
    {
        FlowControl::Off
    }
}

/// The number of data bits in a character on the line.
#[derive(Clone, Copy, Debug, PartialEq, Eq, Structural)]
pub enum DataBits {
    Five,
    Six,
    Seven,
    Eight,
}

/// The data bits that a text names: the text is one of the digits 5 to 8 and
/// nothing else.
pub open spec fn data_bits_named(text: Seq<char>) -> Option<DataBits> {
    if text.len() != 1 {
        None
    } else if text[0] == '5' {
        Some(DataBits::Five)
    } else if text[0] == '6' {
        Some(DataBits::Six)
    } else if text[0] == '7' {
        Some(DataBits::Seven)
    } else if text[0] == '8' {
        Some(DataBits::Eight)
    } else {
        None
    }
}

impl DataBits {
    /// The count of bits.
    pub open spec fn count(self) -> int {
        match self {
            DataBits::Five => 5,
            DataBits::Six => 6,
            DataBits::Seven => 7,
            DataBits::Eight => 8,
        }
    }

    /// The count of bits, between 5 and 8.
    pub fn bits(self) -> (bits: u8)
        ensures
            bits == self.count(),
    {
        match self {
            DataBits::Five => 5,
            DataBits::Six => 6,
            DataBits::Seven => 7,
            DataBits::Eight => 8,
        }
    }

    /// Reads a data-bits value as it is written on the command line.
    pub fn parse(text: &str) -> (parsed: Option<DataBits>)
        ensures
            parsed == data_bits_named(text@),
    {
        if text.unicode_len() != 1 {
            return None;
        }
        let digit = text.get_char(0);
        if digit == '5' {
            Some(DataBits::Five)
        } else if digit == '6' {
            Some(DataBits::Six)
        } else if digit == '7' {
            Some(DataBits::Seven)
        } else if digit == '8' {
            Some(DataBits::Eight)
        } else {
            None
        }
    }
}

/// The number of stop bits after a character on the line.
#[derive(Clone, Copy, Debug, PartialEq, Eq, Structural)]
pub enum StopBits {
    One,
    Two,
}

/// What the program is asked to do.
#[derive(Clone, Debug, PartialEq, Eq)]
pub enum Task {
    /// Open an interactive session on the named device.
    Open { device: String },
    /// List the available devices.
    List,
}

/// The command line, read but not yet checked.
#[derive(Clone, Debug, PartialEq, Eq)]
pub struct Arguments {
    /// Line baud rate.
    pub baud_rate: u32,
    /// Line data bits, as written.
    pub data_bits: String,
    /// Flow control.
    pub flow_control: FlowControl,
    /// Parity.
    pub parity: Parity,
    /// The task.
    pub task: Task,
}

impl Arguments {
    /// The arguments of a command line that names a task and nothing else:
    /// 115200 baud, 8 data bits, no flow control, no parity.
    pub fn new(task: Task) -> (args: Arguments)
        ensures
            args.baud_rate == DEFAULT_BAUD_RATE,
            args.data_bits@ == seq!['8'],
            args.flow_control == FlowControl::Off,
            args.parity == Parity::Off,
            args.task == task,
    {
        proof {
            reveal_strlit("8");
        }
        let data_bits = String::from_str("8");
        assert(data_bits@ =~= seq!['8']);
        Arguments {
            baud_rate: DEFAULT_BAUD_RATE,
            data_bits,
            flow_control: FlowControl::Off,
            parity: Parity::Off,
            task,
        }
    }
}

} // verus!
