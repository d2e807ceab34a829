//! The transport: the line settings a device is opened with, and the rule
//! that turns each raw outcome of the device into what a session sees.
//!
//! A deadline that expires on the device is no failure. It means that
//! nothing was transferred yet, and is reported as a transfer of length zero.

use crate::arguments::{data_bits_named, Arguments, DataBits, FlowControl, Parity, StopBits};
use crate::error::{settle, timeout_as_empty, Error, IoFailure};
use vstd::prelude::*;

verus! {

/// How often in a second a session looks at the line.
pub const POLL_RATE: u64 = 100;

/// The deadline of one read or write in milliseconds: half a polling
/// interval, so that a session stays responsive to the line and to the
/// keyboard alike.
pub const POLL_TIMEOUT_MS: u64 = 1000 / POLL_RATE / 2;

/// The settings of a transport, as contracts see them.
pub struct SerialPortView {
    /// The name of the device.
    pub path: Seq<char>,
    pub baud_rate: u32,
    pub data_bits: DataBits,
    pub stop_bits: StopBits,
    pub parity: Parity,
    pub flow_control: FlowControl,
    /// The deadline of one read or write, in milliseconds.
    pub timeout_ms: u64,
}

/// A transport over one serial device: the checked settings that the device
/// is opened with. They do not change once the transport exists.
#[derive(Clone, Debug, PartialEq, Eq)]
pub struct SerialPort {
    path: String,
    baud_rate: u32,
    data_bits: DataBits,
    parity: Parity,
    flow_control: FlowControl,
}

impl View for SerialPort {
    type V = SerialPortView;

    closed spec fn view(&self) -> SerialPortView {
        SerialPortView {
            path: self.path@,
            baud_rate: self.baud_rate,
            data_bits: self.data_bits,
            stop_bits: StopBits::One,
            parity: self.parity,
            flow_control: self.flow_control,
            timeout_ms: POLL_TIMEOUT_MS,
        }
    }
}

/// The settings that a device named `device` is opened with under `args`:
/// the parameters given, always one stop bit, and a deadline of half a
/// polling interval. There are none where the data bits are not one of 5, 6,
/// 7 and 8.
pub open spec fn settings_for(device: Seq<char>, args: Arguments) -> Option<SerialPortView> {
    match data_bits_named(args.data_bits@) {
        Some(data_bits) => Some(
            SerialPortView {
                path: device,
                baud_rate: args.baud_rate,
                data_bits,
                stop_bits: StopBits::One,
                parity: args.parity,
                flow_control: args.flow_control,
                timeout_ms: POLL_TIMEOUT_MS,
            },
        ),
        None => None,
    }
}

/// What is left to write of `pending` once the device has accepted
/// `accepted` bytes of it. A device that claims more than it was given has
/// accepted all of it.
pub open spec fn rest_after(pending: Seq<u8>, accepted: nat) -> Seq<u8> {
    if accepted >= pending.len() {
        Seq::empty()
    } else {
        pending.skip(accepted as int)
    }
}

/// A round of writing loses nothing and repeats nothing: what the device
/// accepted, followed by what is left, is what was pending. What is left is
/// never longer than what was pending, and shorter as soon as the device
/// accepted a byte.
pub proof fn lemma_rest_after(pending: Seq<u8>, accepted: nat)
    ensures
        accepted <= pending.len() ==> pending.take(accepted as int) + rest_after(pending, accepted)
            == pending,
        rest_after(pending, accepted).len() <= pending.len(),
        accepted > 0 && pending.len() > 0 ==> rest_after(pending, accepted).len() < pending.len(),
        rest_after(pending, 0) == pending,
{
    if accepted <= pending.len() {
        assert(pending.take(accepted as int) + rest_after(pending, accepted) =~= pending);
    }
    assert(rest_after(pending, 0) =~= pending);
}

impl SerialPort {
    /// Checks the line parameters for the device named `device`. The data
    /// bits are checked here, before anything is asked of the device: a value
    /// other than 5, 6, 7 or 8 is a configuration error that holds the
    /// rejected text.
    pub fn new(device: String, args: &Arguments) -> (port: Result<SerialPort, Error>)
        ensures
            match settings_for(device@, *args) {
                Some(settings) => port.is_ok() && port.unwrap()@ == settings,
                None => port.is_err() && port.unwrap_err() == Error::Configuration(
                    args.data_bits,
                ),
            },
    {
        match DataBits::parse(args.data_bits.as_str()) {
            Some(data_bits) => Ok(
                SerialPort {
                    path: device,
                    baud_rate: args.baud_rate,
                    data_bits,
                    parity: args.parity,
                    flow_control: args.flow_control,
                },
            ),
            None => Err(Error::Configuration(args.data_bits.clone())),
        }
    }

    /// The name of the device.
    pub fn path(&self) -> (path: &String)
        ensures
            path@ == self@.path,
    {
        &self.path
    }

    /// The baud rate.
    pub fn baud_rate(&self) -> (baud_rate: u32)
        ensures
            baud_rate == self@.baud_rate,
    {
        self.baud_rate
    }

    /// The data bits.
    pub fn data_bits(&self) -> (data_bits: DataBits)
        ensures
            data_bits == self@.data_bits,
    {
        self.data_bits
    }

    /// The stop bits: always one.
    pub fn stop_bits(&self) -> (stop_bits: StopBits)
        ensures
            stop_bits == self@.stop_bits,
            stop_bits == StopBits::One,
    {
        StopBits::One
    }

    /// The deadline of one read or write on the device, in milliseconds.
    pub fn timeout_millis(&self) -> (millis: u64)
        ensures
            millis == self@.timeout_ms,
            millis == POLL_TIMEOUT_MS,
    {
        POLL_TIMEOUT_MS
    }

    /// The parity.
    pub fn parity(&self) -> (parity: Parity)
        ensures
            parity == self@.parity,
    {
        self.parity
    }

    /// The flow control.
    pub fn flow_control(&self) -> (flow_control: FlowControl)
        ensures
            flow_control == self@.flow_control,
    {
        self.flow_control
    }

    /// What a read on the device amounts to, given its raw outcome: the
    /// length read, zero where the deadline expired, and a device error for
    /// every other failure.
    pub fn read(&self, outcome: Result<usize, IoFailure>) -> (length: Result<usize, Error>)
        ensures
            length == timeout_as_empty(outcome, 0usize),
    {
        settle(outcome, 0)
    }

    /// What a write on the device amounts to, given its raw outcome: the
    /// length accepted, zero where the deadline expired, and a device error
    /// for every other failure.
    pub fn write(&self, outcome: Result<usize, IoFailure>) -> (length: Result<usize, Error>)
        ensures
            length == timeout_as_empty(outcome, 0usize),
    {
        settle(outcome, 0)
    }

    /// One round of writing all of `pending`: given the raw outcome of
    /// writing it to the device, drops what the device accepted. Where
    /// anything is left it is to be written again, also after an expired
    /// deadline; only a failure other than that ends the writing.
    pub fn write_all(&self, pending: &mut Vec<u8>, outcome: Result<usize, IoFailure>) -> (round:
        Result<(), Error>)
        ensures
            match timeout_as_empty(outcome, 0usize) {
                Ok(accepted) => round.is_ok() && final(pending)@ == rest_after(
                    old(pending)@,
                    accepted as nat,
                ),
                Err(error) => round == Err::<(), Error>(error) && final(pending)@ == old(
                    pending,
                )@,
            },
    {
        match self.write(outcome) {
            Ok(accepted) => {
                if accepted >= pending.len() {
                    pending.clear();
                } else {
                    let rest = pending.split_off(accepted);
                    *pending = rest;
                    assert(pending@ =~= old(pending)@.skip(accepted as int));
                }
                Ok(())
            },
            Err(error) => Err(error),
        }
    }
}

} // verus!
