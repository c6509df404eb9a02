//! The modem lines of a port.
use crate::action::Action;
use crate::error;
use crate::error::Error;
use crate::port::TTYPort;
use vstd::prelude::*;

verus! {

/// Data terminal ready.
pub const TIOCM_DTR: i32 = 0x0002;

/// Request to send.
pub const TIOCM_RTS: i32 = 0x0004;

/// Clear to send.
pub const TIOCM_CTS: i32 = 0x0020;

/// Carrier detect.
pub const TIOCM_CD: i32 = 0x0040;

/// Ring indicator.
pub const TIOCM_RI: i32 = 0x0080;

/// Data set ready.
pub const TIOCM_DSR: i32 = 0x0100;

/// The level of a line, by the lines that were read.
pub open spec fn level_of(pin: i32, reply: Result<i32, Option<i32>>) -> Result<bool, Error> {
    match reply {
        Ok(pins) => Ok(pins & pin != 0),
        Err(errno) => Err(error::error_of(errno)),
    }
}

/// What an action on the lines gives, by what it came to.
pub open spec fn written_result(reply: Result<(), Option<i32>>) -> Result<(), Error> {
    match reply {
        Ok(()) => Ok(()),
        Err(errno) => Err(error::error_of(errno)),
    }
}

/// The lines after an action, by the lines before it: lines are raised, or lowered, and the others
/// stay as they are. Any other action leaves all of them.
pub open spec fn lines_after(action: Action, lines: i32) -> i32 {
    match action {
        Action::SetPins { pins, .. } => lines | pins,
        Action::ClearPins { pins, .. } => lines & !pins,
        _ => lines,
    }
}

/// What an action on the lines gives, by what it came to.
pub fn pins_written(reply: Result<(), Option<i32>>) -> (result: Result<(), Error>)
    ensures
        result == match reply {
            Ok(()) => Ok::<(), Error>(()),
            Err(errno) => Err::<(), Error>(error::error_of(errno)),
        },
        result == written_result(reply),
{
    match reply {
        Ok(()) => Ok(()),
        Err(errno) => Err(Error::from_io_error(errno)),
    }
}

impl TTYPort {
    /// The action that brings a line to a level.
    pub open spec fn pin_action(self, pin: i32, level: bool) -> Action {
        if level {
            Action::SetPins { fd: self.fd, pins: pin }
        } else {
            Action::ClearPins { fd: self.fd, pins: pin }
        }
    }

    /// Brings a line to a level. [`pins_written`] says what comes of it.
    pub fn set_pin(&mut self, pin: i32, level: bool) -> (action: Action)
        ensures
            action == old(self).pin_action(pin, level),
            level ==> action == (Action::SetPins { fd: old(self).fd, pins: pin }),
            !level ==> action == (Action::ClearPins { fd: old(self).fd, pins: pin }),
            *final(self) == *old(self),
    {
        if level {
            Action::SetPins { fd: self.fd, pins: pin }
        } else {
            Action::ClearPins { fd: self.fd, pins: pin }
        }
    }

    /// Reads the lines. What comes back is told to one of the reading functions.
    pub fn read_pins(&self) -> (action: Action)
        ensures
            action == (Action::GetPins { fd: self.fd }),
    {
        Action::GetPins { fd: self.fd }
    }

    /// The level of a line, by the lines that were read.
    pub fn read_pin(pin: i32, reply: Result<i32, Option<i32>>) -> (level: Result<bool, Error>)
        ensures
            level == level_of(pin, reply),
            reply matches Ok(pins) ==> level == Ok::<bool, Error>(pins & pin != 0),
    {
        match reply {
            Ok(pins) => Ok(pins & pin != 0),
            Err(errno) => Err(Error::from_io_error(errno)),
        }
    }

    /// Sets the level of the line "request to send".
    pub fn write_request_to_send(&mut self, level: bool) -> (action: Action)
        ensures
            action == old(self).pin_action(TIOCM_RTS, level),
            level ==> action == (Action::SetPins { fd: old(self).fd, pins: TIOCM_RTS }),
            !level ==> action == (Action::ClearPins { fd: old(self).fd, pins: TIOCM_RTS }),
            *final(self) == *old(self),
    {
        self.set_pin(TIOCM_RTS, level)
    }

    /// Sets the level of the line "data terminal ready".
    pub fn write_data_terminal_ready(&mut self, level: bool) -> (action: Action)
        ensures
            action == old(self).pin_action(TIOCM_DTR, level),
            level ==> action == (Action::SetPins { fd: old(self).fd, pins: TIOCM_DTR }),
            !level ==> action == (Action::ClearPins { fd: old(self).fd, pins: TIOCM_DTR }),
            *final(self) == *old(self),
    {
        self.set_pin(TIOCM_DTR, level)
    }

    /// The level of the line "clear to send".
    pub fn read_clear_to_send(reply: Result<i32, Option<i32>>) -> (level: Result<bool, Error>)
        ensures
            level == level_of(TIOCM_CTS, reply),
            reply matches Ok(pins) ==> level == Ok::<bool, Error>(pins & TIOCM_CTS != 0),
    {
        Self::read_pin(TIOCM_CTS, reply)
    }

    /// The level of the line "data set ready".
    pub fn read_data_set_ready(reply: Result<i32, Option<i32>>) -> (level: Result<bool, Error>)
        ensures
            level == level_of(TIOCM_DSR, reply),
            reply matches Ok(pins) ==> level == Ok::<bool, Error>(pins & TIOCM_DSR != 0),
    {
        Self::read_pin(TIOCM_DSR, reply)
    }

    /// The level of the line "ring indicator".
    pub fn read_ring_indicator(reply: Result<i32, Option<i32>>) -> (level: Result<bool, Error>)
        ensures
            level == level_of(TIOCM_RI, reply),
            reply matches Ok(pins) ==> level == Ok::<bool, Error>(pins & TIOCM_RI != 0),
    {
        Self::read_pin(TIOCM_RI, reply)
    }

    /// The level of the line "carrier detect".
    pub fn read_carrier_detect(reply: Result<i32, Option<i32>>) -> (level: Result<bool, Error>)
        ensures
            level == level_of(TIOCM_CD, reply),
            reply matches Ok(pins) ==> level == Ok::<bool, Error>(pins & TIOCM_CD != 0),
    {
        Self::read_pin(TIOCM_CD, reply)
    }
}

/// The four lines that are read are four different ones: raising or lowering any of the others
/// changes nothing about the level of a line, and raising or lowering the line itself sets it.
pub proof fn law_lines_are_apart(pins: i32, line: i32, other: i32)
    requires
        line == TIOCM_CTS || line == TIOCM_DSR || line == TIOCM_RI || line == TIOCM_CD,
        other == TIOCM_CTS || other == TIOCM_DSR || other == TIOCM_RI || other == TIOCM_CD,
    ensures
        other != line ==> level_of(line, Ok(pins | other)) == level_of(line, Ok(pins)),
        other != line ==> level_of(line, Ok(pins & !other)) == level_of(line, Ok(pins)),
        level_of(line, Ok(pins | line)) == Ok::<bool, Error>(true),
        level_of(line, Ok(pins & !line)) == Ok::<bool, Error>(false),
{
    assert(other != line ==> (pins | other) & line == pins & line && (pins & !other) & line == pins
        & line) by (bit_vector)
        requires
            line == TIOCM_CTS || line == TIOCM_DSR || line == TIOCM_RI || line == TIOCM_CD,
            other == TIOCM_CTS || other == TIOCM_DSR || other == TIOCM_RI || other == TIOCM_CD,
    ;
    assert((pins | line) & line != 0 && (pins & !line) & line == 0) by (bit_vector)
        requires
            line == TIOCM_CTS || line == TIOCM_DSR || line == TIOCM_RI || line == TIOCM_CD,
    ;
}

/// Lines that are brought to a level have that level afterwards, all of them, and every other line
/// has the level that it had. They are raised to be high and lowered to be low, on the descriptor of
/// the port. A line that was brought to a level is read at that level.
pub proof fn law_lines_take_the_level(port: TTYPort, pin: i32, level: bool, lines: i32)
    ensures
        level <==> port.pin_action(pin, level) == (Action::SetPins { fd: port.fd, pins: pin }),
        !level <==> port.pin_action(pin, level) == (Action::ClearPins { fd: port.fd, pins: pin }),
        level ==> lines_after(port.pin_action(pin, level), lines) & pin == pin,
        !level ==> lines_after(port.pin_action(pin, level), lines) & pin == 0,
        lines_after(port.pin_action(pin, level), lines) & !pin == lines & !pin,
        pin != 0 ==> level_of(pin, Ok(lines_after(port.pin_action(pin, level), lines))) == Ok::<
            bool,
            Error,
        >(level),
{
    assert((lines | pin) & pin == pin && (lines & !pin) & pin == 0 && (lines | pin) & !pin == lines
        & !pin && (lines & !pin) & !pin == lines & !pin) by (bit_vector);
}

/// A line is read as high exactly where its bit is on among the lines, whichever other bits are; a
/// failure to read the lines, or to bring them to a level, is the error with its number.
pub proof fn law_lines_are_read_by_their_bit(pin: i32, pins: i32, errno: i32)
    ensures
        level_of(pin, Ok(pins)) is Ok,
        level_of(pin, Ok(pins)) == Ok::<bool, Error>(true) <==> pins & pin != 0,
        level_of(pin, Err(Some(errno))) == Err::<bool, Error>(Error::Os(errno)),
        level_of(pin, Err(None)) == Err::<bool, Error>(Error::Io),
        written_result(Ok(())) is Ok,
        written_result(Err(Some(errno))) == Err::<(), Error>(Error::Os(errno)),
        written_result(Err(None)) == Err::<(), Error>(Error::Io),
{
}

} // verus!
