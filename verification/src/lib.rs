//! Serial ports on top of Linux terminals.
//!
//! The library holds the rules of a serial port: which baud rates exist and how a terminal encodes
//! them, which mode bits stand for which line setting, in which order a device is opened and
//! configured, and what each reply of the operating system leads to. It performs no input or
//! output itself. It says what to do next as an [`Action`], and is told what came of it.
//!
//! The rates, the mode bits and the numbers of the system calls are those of Linux. The library is
//! built on the Linux types of the `termios` crate, which exist there alone, so it does not compile
//! for another system.

pub mod action;
pub mod attributes;
pub mod baud;
pub mod changes;
pub mod error;
pub mod listing;
pub mod modes;
pub mod opening;
pub mod pins;
pub mod port;
pub mod settings;

pub use action::{Action, Progress, Reply, WriteStep};
pub use baud::available_baud_rates;
pub use error::{Error, ErrorKind};
pub use listing::{available_ports, ParentDevice, TtyDevice};
pub use modes::Modes;
pub use opening::{OpenProgress, Opening};
pub use port::{SetAll, Setting, TTYPort};
pub use settings::{
    BaudRate, DataBits, FlowControl, Parity, SerialPortInfo, SerialPortSettings, StopBits,
};
