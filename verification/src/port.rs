//! An open serial port: its settings and how they change.
use crate::action::{Action, Progress, WriteStep, TCIOFLUSH, TCSANOW};
use crate::attributes::{read_modes, write_modes};
use crate::error::{Error, EINVAL};
use crate::modes::Modes;
use crate::settings::{
    BaudRate, DataBits, FlowControl, Parity, SerialPortSettings, StopBits,
};
use crate::{attributes, baud, error, modes, settings};
use std::time::Duration;
use termios::Termios;
use vstd::prelude::*;

verus! {

/// A TTY-based serial port.
///
/// The port is closed when the value is dropped, by the actions of [`TTYPort::release`].
///
/// The port holds the attributes that were last prepared for the device. A change of a setting
/// edits them and then writes them to the device, in the steps of [`WriteStep`].
#[derive(Debug)]
pub struct TTYPort {
    /// The file descriptor. It is -1 where the port has given it away.
    pub fd: i32,
    /// The attributes of the terminal.
    pub termios: Termios,
    /// How long a read or a write waits for the device.
    pub timeout: Duration,
}

/// The settings that are written to the device one after the other.
#[derive(Clone, Copy, Debug, PartialEq, Eq, Structural)]
pub enum Setting {
    BaudRate,
    DataBits,
    FlowControl,
    Parity,
    StopBits,
}

/// How far the task of setting all settings has come: which setting is on its way to the device,
/// and in which step.
#[derive(Clone, Copy, Debug, PartialEq, Eq, Structural)]
pub struct SetAll {
    pub setting: Setting,
    pub step: WriteStep,
}

impl Setting {
    /// The place of the setting in the order in which they are written.
    pub open spec fn place(self) -> int {
        match self {
            Setting::BaudRate => 0,
            Setting::DataBits => 1,
            Setting::FlowControl => 2,
            Setting::Parity => 3,
            Setting::StopBits => 4,
        }
    }

    /// The setting that follows. After the last one there is none, and this is not used.
    pub open spec fn next(self) -> Setting {
        match self {
            Setting::BaudRate => Setting::DataBits,
            Setting::DataBits => Setting::FlowControl,
            Setting::FlowControl => Setting::Parity,
            _ => Setting::StopBits,
        }
    }
}

impl SetAll {
    /// The number of replies that are still awaited, if none of them is a failure.
    pub open spec fn awaited(self) -> int {
        2 * (4 - self.setting.place()) + match self.step {
            WriteStep::Attributes => 2int,
            WriteStep::Flush => 1,
        }
    }
}

/// Whether a port can be set to this baud rate.
pub open spec fn rate_exists(baud_rate: BaudRate) -> bool {
    baud::code_of(baud_rate) is Some
}

/// The modes after one of the line settings was taken over.
pub open spec fn modes_with(modes: Modes, setting: Setting, settings: SerialPortSettings) -> Modes {
    match setting {
        Setting::BaudRate => modes,
        Setting::DataBits => modes.with_data_bits(settings.data_bits),
        Setting::FlowControl => modes.with_flow_control(settings.flow_control),
        Setting::Parity => modes.with_parity(settings.parity),
        Setting::StopBits => modes.with_stop_bits(settings.stop_bits),
    }
}

impl TTYPort {
    /// The mode words of the port.
    pub open spec fn modes(self) -> Modes {
        attributes::modes_of(self.termios)
    }

    /// The baud rate of the port.
    pub open spec fn spec_baud_rate(self) -> Option<BaudRate> {
        attributes::baud_rate_of(self.termios)
    }

    /// The action by which a step of writing the attributes is done.
    pub open spec fn write_action(self, step: WriteStep) -> Action {
        match step {
            WriteStep::Attributes => Action::SetAttributes {
                fd: self.fd,
                when: TCSANOW,
                attributes: self.termios,
            },
            WriteStep::Flush => Action::Flush { fd: self.fd, queue: TCIOFLUSH },
        }
    }

    /// The beginning of writing the attributes.
    pub open spec fn write_begins(self) -> Progress<WriteStep> {
        Progress::Next(WriteStep::Attributes, self.write_action(WriteStep::Attributes))
    }

    /// How writing the attributes goes on after a reply: after the attributes the queues are flushed.
    /// A failure ends it.
    pub open spec fn write_goes_on(
        self,
        step: WriteStep,
        reply: Result<(), Option<i32>>,
    ) -> Progress<WriteStep> {
        match (reply, step) {
            (Err(errno), _) => Progress::Failed(error::error_of(errno)),
            (Ok(()), WriteStep::Attributes) => Progress::Next(
                WriteStep::Flush,
                self.write_action(WriteStep::Flush),
            ),
            (Ok(()), WriteStep::Flush) => Progress::Finished,
        }
    }

    /// The error with which a change to this baud rate is refused. One that does not exist is an
    /// invalid argument. One that exists is refused where `cfsetspeed` fails.
    pub open spec fn rate_refusal(self, baud_rate: BaudRate) -> Option<Error> {
        match baud::code_of(baud_rate) {
            None => Some(Error::Os(EINVAL)),
            Some(code) => match attributes::speed_refusal(self.termios, code) {
                None => None,
                Some(errno) => Some(error::error_of(errno)),
            },
        }
    }

    /// What is to be done when the port is dropped.
    pub open spec fn release_actions(self) -> Seq<Action> {
        if self.fd >= 0 {
            seq![Action::ReleaseExclusive { fd: self.fd }, Action::Close { fd: self.fd }]
        } else {
            seq![]
        }
    }

    /// The port without its descriptor.
    pub open spec fn without_descriptor(self) -> TTYPort {
        TTYPort { fd: -1i32, ..self }
    }

    /// Whether the port is a new one of this descriptor and these attributes.
    pub open spec fn is_new_port(self, fd: i32, termios: Termios) -> bool {
        &&& self.fd == fd
        &&& self.termios == termios
        &&& settings::nanoseconds(self.timeout) == 100_000_000
    }

    /// Whether these are the settings that the port reads.
    pub open spec fn has_settings(self, settings: SerialPortSettings) -> bool {
        &&& self.spec_baud_rate() == Some(settings.baud_rate)
        &&& self.modes().spec_data_bits() == Some(settings.data_bits)
        &&& self.modes().spec_flow_control() == settings.flow_control
        &&& self.modes().spec_parity() == settings.parity
        &&& self.modes().spec_stop_bits() == settings.stop_bits
        &&& self.timeout == settings.timeout
    }

    /// Whether only the attributes of the port changed, and of them only the modes, to these.
    pub open spec fn only_modes_changed(self, after: TTYPort, modes: Modes) -> bool {
        &&& after.fd == self.fd
        &&& after.timeout == self.timeout
        &&& attributes::only_modes_changed(self.termios, after.termios, modes)
    }

    /// Whether nothing of the port changed but the speeds of its attributes.
    pub open spec fn only_speeds_differ(self, after: TTYPort) -> bool {
        &&& after.fd == self.fd
        &&& after.timeout == self.timeout
        &&& attributes::only_speeds_differ(self.termios, after.termios)
    }

    /// Whether only the attributes of the port changed, and of them only the speeds, to those of
    /// this baud rate.
    pub open spec fn only_rate_changed(self, after: TTYPort, baud_rate: BaudRate) -> bool {
        &&& after.fd == self.fd
        &&& after.timeout == self.timeout
        &&& baud::code_of(baud_rate) matches Some(code) && attributes::only_speed_changed(
            self.termios,
            after.termios,
            code,
        )
    }

    /// Whether the port reads back one of these settings. Stop bits are read back as the other
    /// number of stop bits.
    pub open spec fn reads(self, settings: SerialPortSettings, setting: Setting) -> bool {
        match setting {
            Setting::BaudRate => self.spec_baud_rate() == Some(settings.baud_rate),
            Setting::DataBits => self.modes().spec_data_bits() == Some(settings.data_bits),
            Setting::FlowControl => self.modes().spec_flow_control() == settings.flow_control,
            Setting::Parity => self.modes().spec_parity() == settings.parity,
            Setting::StopBits => self.modes().spec_stop_bits() == modes::other_stop_bits(
                settings.stop_bits,
            ),
        }
    }

    /// Whether the port reads back these settings, up to this one of them.
    pub open spec fn reads_back_up_to(self, settings: SerialPortSettings, last: Setting) -> bool {
        &&& self.reads(settings, Setting::BaudRate)
        &&& 1 <= last.place() ==> self.reads(settings, Setting::DataBits)
        &&& 2 <= last.place() ==> self.reads(settings, Setting::FlowControl)
        &&& 3 <= last.place() ==> self.reads(settings, Setting::Parity)
        &&& 4 <= last.place() ==> self.reads(settings, Setting::StopBits)
    }

    /// Whether every setting that comes after this one, and the timeout, is the same in both ports.
    pub open spec fn same_settings_after(self, after: TTYPort, last: Setting) -> bool {
        &&& last.place() < 1 ==> after.modes().spec_data_bits() == self.modes().spec_data_bits()
        &&& last.place() < 2 ==> after.modes().spec_flow_control()
            == self.modes().spec_flow_control()
        &&& last.place() < 3 ==> after.modes().spec_parity() == self.modes().spec_parity()
        &&& last.place() < 4 ==> after.modes().spec_stop_bits() == self.modes().spec_stop_bits()
        &&& after.timeout == self.timeout
    }

    /// Whether the port reads back all of these settings, with the other number of stop bits.
    pub open spec fn reads_back(self, settings: SerialPortSettings) -> bool {
        &&& self.reads_back_up_to(settings, Setting::StopBits)
        &&& self.timeout == settings.timeout
    }

    /// What setting all settings begins with: the port before and after it, and how far it came. It
    /// begins with the baud rate, and ends there where that is refused.
    pub open spec fn set_all_begins(
        self,
        settings: SerialPortSettings,
        after: TTYPort,
        progress: Progress<SetAll>,
    ) -> bool {
        &&& self.only_speeds_differ(after)
        &&& !rate_exists(settings.baud_rate) ==> after == self
        &&& match self.rate_refusal(settings.baud_rate) {
            None => {
                &&& self.only_rate_changed(after, settings.baud_rate)
                &&& after.spec_baud_rate() == Some(settings.baud_rate)
                &&& progress == Progress::Next(
                    SetAll { setting: Setting::BaudRate, step: WriteStep::Attributes },
                    after.write_action(WriteStep::Attributes),
                )
            },
            Some(e) => progress == Progress::<SetAll>::Failed(e),
        }
    }

    /// How setting all settings goes on after a reply: the port before and after it, and how far it
    /// came. A failure ends it and leaves the port as it is. After the attributes the queues are
    /// flushed. After that comes the next setting, and after the last one the timeout.
    pub open spec fn set_all_goes_on(
        self,
        settings: SerialPortSettings,
        state: SetAll,
        reply: Result<(), Option<i32>>,
        after: TTYPort,
        progress: Progress<SetAll>,
    ) -> bool {
        match (reply, state.step, state.setting) {
            (Err(errno), _, _) => {
                &&& after == self
                &&& progress == Progress::<SetAll>::Failed(error::error_of(errno))
            },
            (Ok(()), WriteStep::Attributes, setting) => {
                &&& after == self
                &&& progress == Progress::Next(
                    SetAll { setting, step: WriteStep::Flush },
                    self.write_action(WriteStep::Flush),
                )
            },
            (Ok(()), WriteStep::Flush, Setting::StopBits) => {
                &&& after == (TTYPort { timeout: settings.timeout, ..self })
                &&& progress == Progress::<SetAll>::Finished
            },
            (Ok(()), WriteStep::Flush, setting) => {
                &&& self.only_modes_changed(
                    after,
                    modes_with(self.modes(), setting.next(), settings),
                )
                &&& progress == Progress::Next(
                    SetAll { setting: setting.next(), step: WriteStep::Attributes },
                    after.write_action(WriteStep::Attributes),
                )
            },
        }
    }

    /// Makes a port of an open descriptor and the attributes of its device. The timeout is 100
    /// milliseconds.
    pub fn from_fd(fd: i32, termios: Termios) -> (port: TTYPort)
        ensures
            port.fd == fd,
            port.termios == termios,
            settings::nanoseconds(port.timeout) == 100_000_000,
            port.is_new_port(fd, termios),
    {
        TTYPort { fd, termios, timeout: Duration::from_millis(100) }
    }

    /// Returns the file descriptor.
    pub fn as_raw_fd(&self) -> (fd: i32)
        ensures
            fd == self.fd,
    {
        self.fd
    }

    /// Gives the file descriptor away. The port holds none afterwards, and has nothing to release.
    pub fn into_raw_fd(&mut self) -> (fd: i32)
        ensures
            fd == old(self).fd,
            *final(self) == old(self).without_descriptor(),
    {
        let fd = self.fd;
        self.fd = -1;
        fd
    }

    /// What is to be done when the port is dropped: a port that still owns a descriptor gives up
    /// exclusive access, whatever comes of it, and closes the descriptor.
    pub fn release(&self) -> (actions: Vec<Action>)
        ensures
            actions@ == self.release_actions(),
    {
        let mut actions: Vec<Action> = Vec::new();
        if self.fd >= 0 {
            actions.push(Action::ReleaseExclusive { fd: self.fd });
            actions.push(Action::Close { fd: self.fd });
        }
        actions
    }

    /// What a read or a write gives, by what the system call returned and the error number that it
    /// left.
    pub open spec fn transfer_result(len: isize, errno: i32) -> Result<usize, i32> {
        if len >= 0 {
            Ok(len as usize)
        } else {
            Err(errno)
        }
    }

    /// What a read or a write gives: the number of bytes that the system call returned, or the
    /// error number that it left where it returned a negative value.
    pub fn transferred(len: isize, errno: i32) -> (result: Result<usize, i32>)
        ensures
            len >= 0 ==> result == Ok::<usize, i32>(len as usize),
            len < 0 ==> result == Err::<usize, i32>(errno),
            result == Self::transfer_result(len, errno),
    {
        if len >= 0 {
            Ok(len as usize)
        } else {
            Err(errno)
        }
    }

    /// Returns a struct with all port settings.
    pub fn settings(&self) -> (settings: SerialPortSettings)
        requires
            self.spec_baud_rate() is Some,
        ensures
            self.spec_baud_rate() == Some(settings.baud_rate),
            self.modes().spec_data_bits() == Some(settings.data_bits),
            settings.flow_control == self.modes().spec_flow_control(),
            settings.parity == self.modes().spec_parity(),
            settings.stop_bits == self.modes().spec_stop_bits(),
            settings.timeout == self.timeout,
            self.has_settings(settings),
    {
        SerialPortSettings {
            baud_rate: self.baud_rate().unwrap(),
            data_bits: self.data_bits().unwrap(),
            flow_control: self.flow_control().unwrap(),
            parity: self.parity().unwrap(),
            stop_bits: self.stop_bits().unwrap(),
            timeout: self.timeout,
        }
    }

    /// Returns a struct with all port settings, or nothing where the device runs at speeds that are
    /// no baud rate.
    pub fn checked_settings(&self) -> (settings: Option<SerialPortSettings>)
        ensures
            settings is Some <==> self.spec_baud_rate() is Some,
            settings matches Some(s) ==> {
                &&& self.spec_baud_rate() == Some(s.baud_rate)
                &&& self.modes().spec_data_bits() == Some(s.data_bits)
                &&& s.flow_control == self.modes().spec_flow_control()
                &&& s.parity == self.modes().spec_parity()
                &&& s.stop_bits == self.modes().spec_stop_bits()
                &&& s.timeout == self.timeout
                &&& self.has_settings(s)
            },
    {
        if self.baud_rate().is_some() {
            Some(self.settings())
        } else {
            None
        }
    }

    /// Returns the baud rate. There is none where the output and the input speed differ, or are no
    /// code of a baud rate.
    pub fn baud_rate(&self) -> (baud_rate: Option<BaudRate>)
        ensures
            baud_rate == self.spec_baud_rate(),
    {
        let ospeed: u32 = termios::cfgetospeed(&self.termios);
        let ispeed: u32 = termios::cfgetispeed(&self.termios);
        baud::baud_rate_of_speeds(ospeed, ispeed)
    }

    /// Returns the number of data bits.
    pub fn data_bits(&self) -> (data_bits: Option<DataBits>)
        ensures
            data_bits == self.modes().spec_data_bits(),
            data_bits is Some,
    {
        read_modes(&self.termios).data_bits()
    }

    /// Returns the flow control.
    pub fn flow_control(&self) -> (flow_control: Option<FlowControl>)
        ensures
            flow_control == Some(self.modes().spec_flow_control()),
    {
        Some(read_modes(&self.termios).flow_control())
    }

    /// Returns the parity.
    pub fn parity(&self) -> (parity: Option<Parity>)
        ensures
            parity == Some(self.modes().spec_parity()),
    {
        Some(read_modes(&self.termios).parity())
    }

    /// Returns the number of stop bits.
    pub fn stop_bits(&self) -> (stop_bits: Option<StopBits>)
        ensures
            stop_bits == Some(self.modes().spec_stop_bits()),
    {
        Some(read_modes(&self.termios).stop_bits())
    }

    /// Returns the timeout.
    pub fn timeout(&self) -> (timeout: Duration)
        ensures
            timeout == self.timeout,
    {
        self.timeout
    }

    /// Begins to write the attributes to the device.
    pub fn write_settings(&self) -> (progress: Progress<WriteStep>)
        ensures
            progress == self.write_begins(),
    {
        Progress::Next(
            WriteStep::Attributes,
            Action::SetAttributes { fd: self.fd, when: TCSANOW, attributes: self.termios },
        )
    }

    /// Goes on with writing the attributes, once a step was done: after the attributes the queues
    /// are flushed. A failure ends it.
    pub fn write_settings_next(&self, step: WriteStep, reply: Result<(), Option<i32>>) -> (progress:
        Progress<WriteStep>)
        ensures
            progress == self.write_goes_on(step, reply),
    {
        match reply {
            Err(errno) => Progress::Failed(Error::from_io_error(errno)),
            Ok(()) => match step {
                WriteStep::Attributes => Progress::Next(
                    WriteStep::Flush,
                    Action::Flush { fd: self.fd, queue: TCIOFLUSH },
                ),
                WriteStep::Flush => Progress::Finished,
            },
        }
    }

    /// Goes on after the speeds of the attributes were to be changed: they are written to the
    /// device, unless the change was refused.
    pub fn speed_changed(&self, reply: Result<(), Option<i32>>) -> (progress: Progress<WriteStep>)
        ensures
            progress == match reply {
                Ok(()) => self.write_begins(),
                Err(errno) => Progress::Failed(error::error_of(errno)),
            },
    {
        match reply {
            Ok(()) => self.write_settings(),
            Err(errno) => Progress::Failed(Error::from_io_error(errno)),
        }
    }

    /// Sets the baud rate. One that does not exist is an invalid argument, and changes nothing. One
    /// that exists is written to the device, unless the C library refuses it; the speeds are then
    /// as the C library leaves them. Nothing but the speeds changes in any case.
    pub fn set_baud_rate(&mut self, baud_rate: BaudRate) -> (progress: Progress<WriteStep>)
        ensures
            progress == match old(self).rate_refusal(baud_rate) {
                None => final(self).write_begins(),
                Some(e) => Progress::<WriteStep>::Failed(e),
            },
            old(self).rate_refusal(baud_rate) is None ==> old(self).only_rate_changed(
                *final(self),
                baud_rate,
            ) && final(self).spec_baud_rate() == Some(baud_rate),
            !rate_exists(baud_rate) ==> *final(self) == *old(self),
            old(self).only_speeds_differ(*final(self)),
    {
        let code: u32 = match baud::speed_code(baud_rate) {
            Some(code) => code,
            None => return Progress::Failed(Error::from_raw_os_error(EINVAL)),
        };
        let reply: Result<(), Option<i32>> = match termios::cfsetspeed(&mut self.termios, code) {
            Ok(()) => Ok(()),
            Err(e) => Err(e.raw_os_error()),
        };
        proof {
            baud::law_code_is_read_back(baud_rate, code, code);
        }
        self.speed_changed(reply)
    }

    /// Sets the number of data bits.
    pub fn set_data_bits(&mut self, data_bits: DataBits) -> (progress: Progress<WriteStep>)
        ensures
            old(self).only_modes_changed(
                *final(self),
                old(self).modes().with_data_bits(data_bits),
            ),
            progress == final(self).write_begins(),
    {
        let mut modes = read_modes(&self.termios);
        modes.set_data_bits(data_bits);
        proof {
            attributes::lemma_settings_keep_speed_bits(self.modes());
        }
        write_modes(&mut self.termios, modes);
        self.write_settings()
    }

    /// Sets the flow control.
    pub fn set_flow_control(&mut self, flow_control: FlowControl) -> (progress: Progress<WriteStep>)
        ensures
            old(self).only_modes_changed(
                *final(self),
                old(self).modes().with_flow_control(flow_control),
            ),
            progress == final(self).write_begins(),
    {
        let mut modes = read_modes(&self.termios);
        modes.set_flow_control(flow_control);
        proof {
            attributes::lemma_settings_keep_speed_bits(self.modes());
        }
        write_modes(&mut self.termios, modes);
        self.write_settings()
    }

    /// Sets the parity.
    pub fn set_parity(&mut self, parity: Parity) -> (progress: Progress<WriteStep>)
        ensures
            old(self).only_modes_changed(*final(self), old(self).modes().with_parity(parity)),
            progress == final(self).write_begins(),
    {
        let mut modes = read_modes(&self.termios);
        modes.set_parity(parity);
        proof {
            attributes::lemma_settings_keep_speed_bits(self.modes());
        }
        write_modes(&mut self.termios, modes);
        self.write_settings()
    }

    /// Sets the stop bits, as [`Modes::set_stop_bits`] writes them.
    pub fn set_stop_bits(&mut self, stop_bits: StopBits) -> (progress: Progress<WriteStep>)
        ensures
            old(self).only_modes_changed(
                *final(self),
                old(self).modes().with_stop_bits(stop_bits),
            ),
            progress == final(self).write_begins(),
    {
        let mut modes = read_modes(&self.termios);
        modes.set_stop_bits(stop_bits);
        proof {
            attributes::lemma_settings_keep_speed_bits(self.modes());
        }
        write_modes(&mut self.termios, modes);
        self.write_settings()
    }

    /// Sets the timeout. Nothing is written to the device.
    pub fn set_timeout(&mut self, timeout: Duration) -> (result: Result<(), Error>)
        ensures
            result == Ok::<(), Error>(()),
            final(self).timeout == timeout,
            final(self).fd == old(self).fd,
            final(self).termios == old(self).termios,
    {
        self.timeout = timeout;
        Ok(())
    }

    /// Begins to set all settings, with the baud rate. The other settings follow in the order of
    /// [`Setting`], each once the one before it has reached the device, and the timeout comes last.
    pub fn set_all(&mut self, settings: &SerialPortSettings) -> (progress: Progress<SetAll>)
        ensures
            old(self).set_all_begins(*settings, *final(self), progress),
    {
        match self.set_baud_rate(settings.baud_rate) {
            Progress::Next(step, action) => {
                Progress::Next(SetAll { setting: Setting::BaudRate, step }, action)
            },
            Progress::Finished => Progress::Finished,
            Progress::Failed(e) => Progress::Failed(e),
        }
    }

    /// Goes on with setting all settings, once a step was done. A failure ends it: the settings
    /// that follow, and the timeout, stay as they are.
    pub fn set_all_next(
        &mut self,
        settings: &SerialPortSettings,
        state: SetAll,
        reply: Result<(), Option<i32>>,
    ) -> (progress: Progress<SetAll>)
        ensures
            old(self).set_all_goes_on(*settings, state, reply, *final(self), progress),
    {
        match self.write_settings_next(state.step, reply) {
            Progress::Failed(e) => Progress::Failed(e),
            Progress::Next(step, action) => Progress::Next(
                SetAll { setting: state.setting, step },
                action,
            ),
            Progress::Finished => {
                let (setting, written): (Setting, Progress<WriteStep>) = match state.setting {
                    Setting::BaudRate => (
                        Setting::DataBits,
                        self.set_data_bits(settings.data_bits),
                    ),
                    Setting::DataBits => (
                        Setting::FlowControl,
                        self.set_flow_control(settings.flow_control),
                    ),
                    Setting::FlowControl => (Setting::Parity, self.set_parity(settings.parity)),
                    Setting::Parity => (Setting::StopBits, self.set_stop_bits(settings.stop_bits)),
                    Setting::StopBits => {
                        return match self.set_timeout(settings.timeout) {
                            Ok(()) => Progress::Finished,
                            Err(e) => Progress::Failed(e),
                        };
                    },
                };
                match written {
                    Progress::Next(step, action) => Progress::Next(
                        SetAll { setting, step },
                        action,
                    ),
                    Progress::Finished => Progress::Finished,
                    Progress::Failed(e) => Progress::Failed(e),
                }
            },
        }
    }
}

/// A port closes its own descriptor and no other one, and only after exclusive access was given up;
/// nothing else is done. One that owns no descriptor, or has given it away, has nothing to release.
pub proof fn law_descriptor_is_closed_by_its_owner(port: TTYPort, fd: i32)
    ensures
        port.release_actions().contains(Action::Close { fd }) <==> fd == port.fd && fd >= 0,
        port.release_actions().contains(Action::Close { fd }) ==> port.release_actions()[0] == (
        Action::ReleaseExclusive { fd }) && port.release_actions()[1] == (Action::Close { fd }),
        port.without_descriptor().release_actions().len() == 0,
        port.fd >= 0 ==> port.release_actions().len() == 2,
        port.fd < 0 ==> port.release_actions().len() == 0,
        port.without_descriptor().fd == -1,
        port.without_descriptor().termios == port.termios,
        port.without_descriptor().timeout == port.timeout,
{
    if fd == port.fd && fd >= 0 {
        assert(port.release_actions()[1] == (Action::Close { fd }));
    }
}

/// A read or a write gives just the number of bytes that the system call returned, whatever error
/// number is left from before, and fails with the error number exactly where it returned a negative
/// value.
pub proof fn law_transfers_give_what_was_returned(len: isize, errno: i32)
    ensures
        len >= 0 ==> (TTYPort::transfer_result(len, errno) matches Ok(count) && count as int
            == len as int),
        len < 0 ==> TTYPort::transfer_result(len, errno) == Err::<usize, i32>(errno),
{
}

/// A new port has the descriptor and the attributes that it was made of, and waits for the device
/// for a tenth of a second.
pub proof fn law_new_port_waits_for_a_tenth_of_a_second(port: TTYPort, fd: i32, termios: Termios)
    requires
        port.is_new_port(fd, termios),
    ensures
        port.fd == fd,
        port.termios == termios,
        settings::nanoseconds(port.timeout) * 10 == 1_000_000_000,
{
}

/// A port reads the mode words of its attributes as they stand, and as its baud rate the one whose
/// code both speeds of its attributes are; where they differ, or are no code, it reads none.
pub proof fn law_port_reads_its_attributes(port: TTYPort, baud_rate: BaudRate)
    ensures
        port.modes().c_iflag == attributes::input_modes(port.termios),
        port.modes().c_oflag == attributes::output_modes(port.termios),
        port.modes().c_cflag == attributes::control_modes(port.termios),
        port.modes().c_lflag == attributes::local_modes(port.termios),
        port.spec_baud_rate() == Some(baud_rate) <==> attributes::output_speed(port.termios)
            == attributes::input_speed(port.termios) && baud::code_of(baud_rate) == Some(
            attributes::output_speed(port.termios),
        ),
{
    attributes::law_baud_rate_is_that_of_the_speeds(port.termios, baud_rate);
}

/// The settings that a port reads are those of its speeds, of the bits of its modes, and of its
/// timeout. There are no two of them, and they exist exactly where the port has a baud rate.
pub proof fn law_settings_are_read_from_the_port(
    port: TTYPort,
    settings: SerialPortSettings,
    others: SerialPortSettings,
)
    ensures
        port.has_settings(settings) && port.has_settings(others) ==> settings == others,
        port.has_settings(settings) ==> {
            &&& baud::code_of(settings.baud_rate) == Some(attributes::output_speed(port.termios))
            &&& baud::code_of(settings.baud_rate) == Some(attributes::input_speed(port.termios))
            &&& settings.data_bits == DataBits::Five <==> port.modes().c_cflag & modes::CSIZE
                == modes::CS5
            &&& settings.data_bits == DataBits::Six <==> port.modes().c_cflag & modes::CSIZE
                == modes::CS6
            &&& settings.data_bits == DataBits::Seven <==> port.modes().c_cflag & modes::CSIZE
                == modes::CS7
            &&& settings.data_bits == DataBits::Eight <==> port.modes().c_cflag & modes::CSIZE
                == modes::CS8
            &&& settings.flow_control == FlowControl::Hardware <==> port.modes().c_cflag
                & modes::CRTSCTS != 0
            &&& settings.flow_control == FlowControl::NoFlowControl <==> port.modes().c_cflag
                & modes::CRTSCTS == 0 && port.modes().c_iflag & (modes::IXON | modes::IXOFF) == 0
            &&& settings.parity == Parity::NoParity <==> port.modes().c_cflag & modes::PARENB == 0
            &&& settings.parity == Parity::Odd <==> port.modes().c_cflag & modes::PARENB != 0
                && port.modes().c_cflag & modes::PARODD != 0
            &&& settings.stop_bits == StopBits::Two <==> port.modes().c_cflag & modes::CSTOPB != 0
            &&& settings.timeout == port.timeout
        },
        port.spec_baud_rate() is Some <==> exists|s: SerialPortSettings| port.has_settings(s),
{
    modes::law_data_bits_are_the_character_size(port.modes(), settings.data_bits);
    modes::law_flow_control_is_of_one_kind(port.modes(), settings.flow_control);
    modes::law_parity_is_checked_where_there_is_one(port.modes(), settings.parity);
    modes::law_stop_bits_are_one_bit(port.modes(), settings.stop_bits);
    law_port_reads_its_attributes(port, settings.baud_rate);
    if let Some(baud_rate) = port.spec_baud_rate() {
        let read = SerialPortSettings {
            baud_rate,
            data_bits: port.modes().spec_data_bits()->0,
            flow_control: port.modes().spec_flow_control(),
            parity: port.modes().spec_parity(),
            stop_bits: port.modes().spec_stop_bits(),
            timeout: port.timeout,
        };
        assert(port.has_settings(read));
    }
}

/// Writing the attributes of a port begins with the attributes, which take effect at once, and goes
/// on with both queues, which are flushed; both are those of the port and its descriptor. It ends
/// with the first failure, which keeps its error number.
pub proof fn law_attributes_are_written_before_the_queues_are_flushed(
    port: TTYPort,
    step: WriteStep,
    errno: i32,
)
    ensures
        port.write_begins() == Progress::Next(
            WriteStep::Attributes,
            Action::SetAttributes { fd: port.fd, when: TCSANOW, attributes: port.termios },
        ),
        port.write_goes_on(WriteStep::Attributes, Ok(())) == Progress::Next(
            WriteStep::Flush,
            Action::Flush { fd: port.fd, queue: TCIOFLUSH },
        ),
        port.write_goes_on(WriteStep::Flush, Ok(())) == Progress::<WriteStep>::Finished,
        port.write_goes_on(step, Err(Some(errno))) == Progress::<WriteStep>::Failed(
            Error::Os(errno),
        ),
        port.write_goes_on(step, Err(None)) == Progress::<WriteStep>::Failed(Error::Io),
{
}

/// A baud rate is refused as an invalid argument where it has no code, whatever the port. One that
/// has a code is refused exactly where `cfsetspeed` fails, with the error number of that failure.
pub proof fn law_rates_are_refused_for_one_of_two_reasons(port: TTYPort, baud_rate: BaudRate)
    ensures
        baud::code_of(baud_rate) is None ==> port.rate_refusal(baud_rate) == Some(
            Error::Os(EINVAL),
        ),
        baud::code_of(baud_rate) matches Some(code) ==> (port.rate_refusal(baud_rate) is None
            <==> attributes::speed_refusal(port.termios, code) is None),
        baud::code_of(baud_rate) matches Some(code) ==> (attributes::speed_refusal(
            port.termios,
            code,
        ) matches Some(Some(errno)) ==> port.rate_refusal(baud_rate) == Some(Error::Os(errno))),
        baud::code_of(baud_rate) matches Some(code) ==> (attributes::speed_refusal(
            port.termios,
            code,
        ) == Some(None::<i32>) ==> port.rate_refusal(baud_rate) == Some(Error::Io)),
{
}

/// A rate is turned away as one that does not exist exactly where it is not listed among the
/// available ones; the port does not matter for that. One that is listed, written in the canonical
/// way, fails only where `cfsetspeed` does, and with the error of that.
pub proof fn law_available_rates_are_not_turned_away(port: TTYPort, rate: u32)
    ensures
        baud::rates().contains(rate) <==> rate_exists(baud::canonical(rate)),
        !baud::rates().contains(rate) ==> port.rate_refusal(baud::canonical(rate)) == Some(
            Error::Os(EINVAL),
        ),
        baud::code_of(baud::canonical(rate)) matches Some(code) ==> match attributes::speed_refusal(
            port.termios,
            code,
        ) {
            None => port.rate_refusal(baud::canonical(rate)) is None,
            Some(errno) => port.rate_refusal(baud::canonical(rate)) == Some(
                error::error_of(errno),
            ),
        },
{
    baud::law_available_rates_are_settable(rate);
}

/// The baud rate that a port reads is written in the canonical way and is available. It is not
/// turned away as one that does not exist, whatever port it is set on, and selects the speed that
/// the port has.
pub proof fn law_rate_that_is_read_exists(port: TTYPort, baud_rate: BaudRate)
    requires
        port.spec_baud_rate() == Some(baud_rate),
    ensures
        baud::is_canonical(baud_rate),
        baud::rates().contains(baud_rate.bits_per_second()),
        rate_exists(baud_rate),
        baud::code_of(baud_rate) == Some(attributes::output_speed(port.termios)),
        baud::code_of(baud_rate) == Some(attributes::input_speed(port.termios)),
{
    let output = attributes::output_speed(port.termios);
    let input = attributes::input_speed(port.termios);
    baud::law_code_is_read_back(baud_rate, output, input);
    baud::law_only_canonical_rates_are_settable(baud_rate);
}

/// A change of the baud rate, also one that is refused, keeps the descriptor, the timeout, every
/// line setting and binary access.
pub proof fn law_baud_rate_keeps_the_rest(before: TTYPort, after: TTYPort)
    requires
        before.only_speeds_differ(after),
    ensures
        before.same_settings_after(after, Setting::BaudRate),
        after.fd == before.fd,
        attributes::is_raw(after.termios) == attributes::is_raw(before.termios),
{
    attributes::law_speed_keeps_settings(before.termios, after.termios);
}

/// The beginning of setting all settings sets the baud rate, or fails. It keeps the settings that
/// follow, the descriptor and binary access.
pub proof fn law_set_all_begins_with_the_baud_rate(
    before: TTYPort,
    settings: SerialPortSettings,
    after: TTYPort,
    progress: Progress<SetAll>,
)
    requires
        before.set_all_begins(settings, after, progress),
    ensures
        match progress {
            Progress::Next(state, action) => {
                &&& after.reads_back_up_to(settings, state.setting)
                &&& state.setting == Setting::BaudRate
                &&& state.awaited() == 10
                &&& action == after.write_action(WriteStep::Attributes)
            },
            Progress::Finished => false,
            Progress::Failed(e) => before.rate_refusal(settings.baud_rate) == Some(e),
        },
        before.same_settings_after(after, Setting::BaudRate),
        after.fd == before.fd,
        after.timeout == before.timeout,
        attributes::is_raw(after.termios) == attributes::is_raw(before.termios),
        baud::code_of(settings.baud_rate) is None ==> after == before && progress == Progress::<
            SetAll,
        >::Failed(Error::Os(EINVAL)),
        baud::code_of(settings.baud_rate) matches Some(code) ==> (progress is Next
            <==> attributes::speed_refusal(before.termios, code) is None),
        progress is Next ==> baud::code_of(settings.baud_rate) == Some(
            attributes::output_speed(after.termios),
        ) && baud::code_of(settings.baud_rate) == Some(attributes::input_speed(after.termios)),
{
    law_baud_rate_keeps_the_rest(before, after);
}

/// While all settings are set, every setting that was taken over is read back from then on, with
/// the other number of stop bits; the settings that follow, and the timeout, are still those of the
/// port on which it began; the descriptor and binary access are kept; and each success brings the
/// end nearer by one reply.
pub proof fn law_set_all_keeps_what_was_set(
    first: TTYPort,
    before: TTYPort,
    settings: SerialPortSettings,
    state: SetAll,
    reply: Result<(), Option<i32>>,
    after: TTYPort,
    progress: Progress<SetAll>,
)
    requires
        before.set_all_goes_on(settings, state, reply, after, progress),
        before.reads_back_up_to(settings, state.setting),
        first.same_settings_after(before, state.setting),
    ensures
        match progress {
            Progress::Next(s, _) => {
                &&& after.reads_back_up_to(settings, s.setting)
                &&& first.same_settings_after(after, s.setting)
                &&& s.awaited() == state.awaited() - 1
                &&& reply is Ok
            },
            Progress::Finished => {
                &&& after.reads_back(settings)
                &&& state.awaited() == 1
                &&& reply is Ok
            },
            Progress::Failed(e) => {
                &&& after == before
                &&& reply matches Err(errno) && e == error::error_of(errno)
            },
        },
        attributes::is_raw(after.termios) == attributes::is_raw(before.termios),
        after.fd == before.fd,
{
    modes::law_data_bits_read_back(before.modes(), settings.data_bits);
    modes::law_flow_control_read_back(before.modes(), settings.flow_control);
    modes::law_parity_read_back(before.modes(), settings.parity);
    modes::law_stop_bits_read_back_as_the_other(before.modes(), settings.stop_bits);
}

} // verus!
