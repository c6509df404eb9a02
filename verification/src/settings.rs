//! What can be set on a serial port.
use std::time::Duration;
use vstd::prelude::*;

verus! {

/// A number of bits per second.
///
/// The common rates have variants of their own; `BaudOther` is for the rates that have none.
#[derive(Clone, Copy, Debug, PartialEq, Eq, Structural)]
pub enum BaudRate {
    Baud110,
    Baud300,
    Baud600,
    Baud1200,
    Baud2400,
    Baud4800,
    Baud9600,
    Baud19200,
    Baud38400,
    Baud57600,
    Baud115200,
    BaudOther(u32),
}

impl BaudRate {
    /// The number of bits per second that the value stands for.
    pub open spec fn bits_per_second(self) -> u32 {
        match self {
            BaudRate::Baud110 => 110,
            BaudRate::Baud300 => 300,
            BaudRate::Baud600 => 600,
            BaudRate::Baud1200 => 1200,
            BaudRate::Baud2400 => 2400,
            BaudRate::Baud4800 => 4800,
            BaudRate::Baud9600 => 9600,
            BaudRate::Baud19200 => 19200,
            BaudRate::Baud38400 => 38400,
            BaudRate::Baud57600 => 57600,
            BaudRate::Baud115200 => 115200,
            BaudRate::BaudOther(rate) => rate,
        }
    }
}

/// The number of data bits in a character.
#[derive(Clone, Copy, Debug, PartialEq, Eq, Structural)]
pub enum DataBits {
    Five,
    Six,
    Seven,
    Eight,
}

/// How the two ends of the line pause each other.
#[derive(Clone, Copy, Debug, PartialEq, Eq, Structural)]
pub enum FlowControl {
    /// No flow control.
    NoFlowControl,
    /// XON and XOFF characters.
    Software,
    /// The RTS and CTS lines.
    Hardware,
}

/// The parity bit that follows the data bits.
#[derive(Clone, Copy, Debug, PartialEq, Eq, Structural)]
pub enum Parity {
    /// No parity bit.
    NoParity,
    /// The number of ones is odd.
    Odd,
    /// The number of ones is even.
    Even,
}

/// The number of stop bits that end a character.
#[derive(Clone, Copy, Debug, PartialEq, Eq, Structural)]
pub enum StopBits {
    One,
    Two,
}

/// All settings of a port.
#[derive(Clone, Copy, Debug, PartialEq, Eq)]
pub struct SerialPortSettings {
    pub baud_rate: BaudRate,
    pub data_bits: DataBits,
    pub flow_control: FlowControl,
    pub parity: Parity,
    pub stop_bits: StopBits,
    /// How long a read or a write waits for the device.
    pub timeout: Duration,
}

/// A port that is present on the system.
#[derive(Clone, Debug, PartialEq, Eq)]
pub struct SerialPortInfo {
    /// The path of the device node.
    pub port_name: String,
}

/// The length of a duration in nanoseconds, which `Duration::as_nanos` returns.
pub uninterp spec fn nanoseconds(duration: Duration) -> nat;

/// `Duration::from_millis` gives the duration of that many milliseconds.
pub assume_specification[ Duration::from_millis ](millis: u64) -> (duration: Duration)
    ensures
        nanoseconds(duration) == millis * 1_000_000,
;

impl Default for SerialPortSettings {
    /// 9600 baud, eight data bits, no flow control, no parity, one stop bit, and a timeout of one
    /// millisecond.
    fn default() -> (settings: Self)
        ensures
            settings.baud_rate == BaudRate::Baud9600,
            settings.data_bits == DataBits::Eight,
            settings.flow_control == FlowControl::NoFlowControl,
            settings.parity == Parity::NoParity,
            settings.stop_bits == StopBits::One,
            nanoseconds(settings.timeout) == 1_000_000,
    {
        SerialPortSettings {
            baud_rate: BaudRate::Baud9600,
            data_bits: DataBits::Eight,
            flow_control: FlowControl::NoFlowControl,
            parity: Parity::NoParity,
            stop_bits: StopBits::One,
            timeout: Duration::from_millis(1),
        }
    }
}

} // verus!
