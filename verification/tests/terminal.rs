//! Ports on the terminal side of a pseudo terminal.
use serialport::attributes::{set_raw, VMIN, VTIME};
use serialport::{
    Action, BaudRate, DataBits, Error, ErrorKind, FlowControl, OpenProgress, Opening, Parity, Progress, Reply,
    SerialPortSettings, SetAll, Setting, StopBits, TTYPort, WriteStep,
};
use std::time::Duration;
use termios::os::linux::CBAUD;
use termios::Termios;

/// The descriptor of a new terminal.
fn terminal() -> i32 {
    nix::pty::openpty(None, None).unwrap().slave
}

fn port() -> TTYPort {
    let fd = terminal();
    TTYPort::from_fd(fd, Termios::from_fd(fd).unwrap())
}

/// Settings that a pseudo terminal takes over.
fn settings() -> SerialPortSettings {
    SerialPortSettings {
        baud_rate: BaudRate::BaudOther(921600),
        data_bits: DataBits::Eight,
        flow_control: FlowControl::Software,
        parity: Parity::NoParity,
        stop_bits: StopBits::Two,
        timeout: Duration::from_millis(2500),
    }
}

fn done(result: std::io::Result<()>) -> Reply {
    match result {
        Ok(()) => Reply::Done,
        Err(e) => Reply::Failed(e.raw_os_error()),
    }
}

/// Does an action on a terminal that is open already.
fn perform(action: &Action, terminal: i32) -> Reply {
    match action {
        Action::Open { path, flags } => {
            assert_eq!(path, b"/dev/ttyS0");
            assert_eq!(*flags, libc::O_RDWR | libc::O_NOCTTY | libc::O_NONBLOCK);
            Reply::Returned { value: terminal, errno: 0 }
        }
        Action::GetAttributes { fd } => Reply::Attributes(Termios::from_fd(*fd).unwrap()),
        Action::GetAttributesOver { fd, attributes } => {
            let mut read = *attributes;
            termios::tcgetattr(*fd, &mut read).unwrap();
            Reply::Attributes(read)
        }
        Action::SetAttributes { fd, when, attributes } => {
            done(termios::tcsetattr(*fd, *when, attributes))
        }
        Action::Flush { fd, queue } => done(termios::tcflush(*fd, *queue)),
        Action::AcquireExclusive { fd } => done(ioctl_rs::tiocexcl(*fd)),
        Action::SetStatusFlags { fd, flags } => {
            assert_eq!((*fd, *flags), (terminal, 0));
            Reply::Returned { value: 0, errno: 0 }
        }
        other => panic!("{:?}", other),
    }
}

/// The attributes that the last of these actions which writes attributes wrote.
fn last_written(actions: &[Action]) -> Option<Termios> {
    let mut written = None;
    for action in actions {
        if let Action::SetAttributes { attributes, .. } = action {
            written = Some(*attributes);
        }
    }
    written
}

/// The states of an opening up to the one that awaits the given number of replies before it.
fn opening_after(replies: usize, fd: i32) -> Opening {
    let mut progress = TTYPort::open(b"/dev/ttyS0", &settings());
    for _ in 0..replies {
        progress = match progress {
            OpenProgress::Next(opening, action) => opening.open_next(perform(&action, fd)),
            other => panic!("{:?}", other),
        };
    }
    match progress {
        OpenProgress::Next(opening, _) => opening,
        other => panic!("{:?}", other),
    }
}

#[test]
fn new_port_waits_for_a_tenth_of_a_second() {
    let port = port();
    assert_eq!(port.timeout(), Duration::from_nanos(100_000_000));
    assert_eq!(port.as_raw_fd(), port.fd);
}

#[test]
fn baud_rate_reads_back_and_changes_nothing_else() {
    let mut port = port();
    port.set_data_bits(DataBits::Six);
    port.set_parity(Parity::Even);
    let before = TTYPort::from_fd(port.fd, port.termios);
    for rate in [
        BaudRate::Baud110,
        BaudRate::Baud9600,
        BaudRate::Baud115200,
        BaudRate::BaudOther(50),
        BaudRate::BaudOther(4000000),
    ] {
        match port.set_baud_rate(rate) {
            Progress::Next(WriteStep::Attributes, Action::SetAttributes { attributes, .. }) => {
                assert_eq!(attributes, port.termios);
            }
            other => panic!("{:?}", other),
        }
        assert_eq!(port.baud_rate(), Some(rate));
        assert_eq!(port.data_bits(), Some(DataBits::Six));
        assert_eq!(port.parity(), Some(Parity::Even));
        assert_eq!(port.flow_control(), before.flow_control());
        assert_eq!(port.stop_bits(), before.stop_bits());
        assert_eq!(port.timeout(), before.timeout());
        assert_eq!(port.termios.c_cflag & !CBAUD, before.termios.c_cflag & !CBAUD);
        assert_eq!(port.termios.c_iflag, before.termios.c_iflag);
        assert_eq!(port.termios.c_oflag, before.termios.c_oflag);
        assert_eq!(port.termios.c_lflag, before.termios.c_lflag);
        assert_eq!(port.termios.c_cc, before.termios.c_cc);
    }
}

#[test]
fn every_available_rate_can_be_set() {
    let named = [
        (110, BaudRate::Baud110),
        (300, BaudRate::Baud300),
        (600, BaudRate::Baud600),
        (1200, BaudRate::Baud1200),
        (2400, BaudRate::Baud2400),
        (4800, BaudRate::Baud4800),
        (9600, BaudRate::Baud9600),
        (19200, BaudRate::Baud19200),
        (38400, BaudRate::Baud38400),
        (57600, BaudRate::Baud57600),
        (115200, BaudRate::Baud115200),
    ];
    let mut port = port();
    for rate in serialport::available_baud_rates() {
        let canonical = match named.iter().find(|(number, _)| *number == rate) {
            Some((_, name)) => {
                assert_eq!(
                    port.set_baud_rate(BaudRate::BaudOther(rate)),
                    Progress::Failed(Error::Os(libc::EINVAL))
                );
                *name
            }
            None => BaudRate::BaudOther(rate),
        };
        assert_eq!(port.set_baud_rate(canonical), port.write_settings());
        assert_eq!(port.baud_rate(), Some(canonical));
        let before = port.termios;
        assert_eq!(port.set_baud_rate(port.baud_rate().unwrap()), port.write_settings());
        assert_eq!(port.termios, before);
    }
}

#[test]
fn rates_that_do_not_exist_are_refused() {
    let mut port = port();
    port.set_baud_rate(BaudRate::Baud300);
    let before = port.termios;
    for rate in [0, 9600, 7200, 123] {
        assert_eq!(
            port.set_baud_rate(BaudRate::BaudOther(rate)),
            Progress::Failed(Error::Os(libc::EINVAL))
        );
        assert_eq!(port.termios, before);
        assert_eq!(port.baud_rate(), Some(BaudRate::Baud300));
    }
}

#[test]
fn refused_speed_change_ends_with_its_error() {
    let port = port();
    assert_eq!(port.speed_changed(Ok(())), port.write_settings());
    assert_eq!(port.speed_changed(Err(Some(22))), Progress::Failed(Error::Os(22)));
    assert_eq!(port.speed_changed(Err(None)), Progress::Failed(Error::Io));
}

#[test]
fn line_settings_keep_the_baud_rate() {
    let mut port = port();
    port.set_baud_rate(BaudRate::Baud57600);
    port.set_data_bits(DataBits::Five);
    assert_eq!(port.baud_rate(), Some(BaudRate::Baud57600));
    port.set_flow_control(FlowControl::Hardware);
    assert_eq!(port.baud_rate(), Some(BaudRate::Baud57600));
    port.set_parity(Parity::NoParity);
    assert_eq!(port.baud_rate(), Some(BaudRate::Baud57600));
    port.set_stop_bits(StopBits::One);
    assert_eq!(port.baud_rate(), Some(BaudRate::Baud57600));
    set_raw(&mut port.termios);
    assert_eq!(port.baud_rate(), Some(BaudRate::Baud57600));
    assert_eq!(port.data_bits(), Some(DataBits::Five));
    assert_eq!(port.flow_control(), Some(FlowControl::Hardware));
    assert_eq!(port.parity(), Some(Parity::NoParity));
    assert_eq!(port.stop_bits(), Some(StopBits::Two));
}

#[test]
fn settings_are_read_back_together() {
    let mut port = port();
    port.set_baud_rate(BaudRate::Baud1200);
    port.set_data_bits(DataBits::Seven);
    port.set_flow_control(FlowControl::Hardware);
    port.set_parity(Parity::Even);
    port.set_stop_bits(StopBits::Two);
    assert_eq!(port.set_timeout(Duration::from_secs(3)), Ok(()));
    let expected = SerialPortSettings {
        baud_rate: BaudRate::Baud1200,
        data_bits: DataBits::Seven,
        flow_control: FlowControl::Hardware,
        parity: Parity::Even,
        stop_bits: StopBits::One,
        timeout: Duration::from_secs(3),
    };
    assert_eq!(port.checked_settings(), Some(expected));
    assert_eq!(port.settings(), expected);
}

#[test]
fn a_line_that_is_hung_up_has_no_baud_rate() {
    let mut port = port();
    termios::cfsetospeed(&mut port.termios, termios::B0).unwrap();
    assert_eq!(port.baud_rate(), None);
    assert_eq!(port.checked_settings(), None);
}

#[test]
fn binary_access_processes_nothing_and_waits_for_nothing() {
    let mut attributes = Termios::from_fd(terminal()).unwrap();
    attributes.c_cc[VMIN] = 7;
    attributes.c_cc[VTIME] = 9;
    let before = attributes;
    set_raw(&mut attributes);
    assert_eq!(attributes.c_cc[VMIN], 0);
    assert_eq!(attributes.c_cc[VTIME], 0);
    for place in 0..32 {
        if place != VMIN && place != VTIME {
            assert_eq!(attributes.c_cc[place], before.c_cc[place]);
        }
    }
    assert_eq!(attributes.c_cflag, before.c_cflag | termios::CREAD | termios::CLOCAL);
    assert_eq!(attributes.c_oflag, before.c_oflag & !termios::OPOST);
    assert_eq!(attributes.c_lflag & (termios::ICANON | termios::ECHO | termios::ISIG), 0);
    assert_eq!(attributes.c_iflag & termios::ICRNL, 0);
}

#[test]
fn attributes_are_written_and_then_flushed() {
    let port = port();
    let fd = port.fd;
    assert_eq!(
        port.write_settings(),
        Progress::Next(
            WriteStep::Attributes,
            Action::SetAttributes { fd, when: termios::TCSANOW, attributes: port.termios },
        )
    );
    assert_eq!(
        port.write_settings_next(WriteStep::Attributes, Ok(())),
        Progress::Next(WriteStep::Flush, Action::Flush { fd, queue: termios::TCIOFLUSH })
    );
    assert_eq!(port.write_settings_next(WriteStep::Flush, Ok(())), Progress::Finished);
    for step in [WriteStep::Attributes, WriteStep::Flush] {
        assert_eq!(
            port.write_settings_next(step, Err(Some(5))),
            Progress::Failed(Error::Os(5))
        );
        assert_eq!(port.write_settings_next(step, Err(None)), Progress::Failed(Error::Io));
    }
}

#[test]
fn all_settings_are_set_after_ten_replies() {
    let mut port = port();
    let fd = port.fd;
    let mut replies = 0;
    let mut actions = Vec::new();
    let mut progress = port.set_all(&settings());
    while let Progress::Next(state, action) = progress {
        assert_eq!(perform(&action, fd), Reply::Done);
        actions.push(action);
        replies += 1;
        progress = port.set_all_next(&settings(), state, Ok(()));
    }
    assert_eq!(progress, Progress::Finished);
    assert_eq!(replies, 10);
    assert_eq!(last_written(&actions), Some(port.termios));
    let read = port.settings();
    assert_eq!(read, SerialPortSettings { stop_bits: StopBits::One, ..settings() });
}

#[test]
fn all_settings_are_read_back_from_the_port() {
    let mut port = port();
    let wanted = SerialPortSettings {
        baud_rate: BaudRate::Baud19200,
        data_bits: DataBits::Seven,
        flow_control: FlowControl::Hardware,
        parity: Parity::Odd,
        stop_bits: StopBits::One,
        timeout: Duration::from_millis(40),
    };
    let mut progress = port.set_all(&wanted);
    while let Progress::Next(state, _) = progress {
        progress = port.set_all_next(&wanted, state, Ok(()));
    }
    assert_eq!(progress, Progress::Finished);
    assert_eq!(port.settings(), SerialPortSettings { stop_bits: StopBits::Two, ..wanted });
}

#[test]
fn settings_after_a_failure_are_not_set() {
    let mut port = port();
    port.set_data_bits(DataBits::Five);
    port.set_parity(Parity::Even);
    port.set_all(&settings());
    let state = SetAll { setting: Setting::BaudRate, step: WriteStep::Flush };
    match port.set_all_next(&settings(), state, Ok(())) {
        Progress::Next(s, _) => assert_eq!(
            s,
            SetAll { setting: Setting::DataBits, step: WriteStep::Attributes }
        ),
        other => panic!("{:?}", other),
    }
    let before = port.termios;
    let state = SetAll { setting: Setting::DataBits, step: WriteStep::Flush };
    assert_eq!(
        port.set_all_next(&settings(), state, Err(Some(5))),
        Progress::Failed(Error::Os(5))
    );
    assert_eq!(port.termios, before);
    assert_eq!(port.baud_rate(), Some(BaudRate::BaudOther(921600)));
    assert_eq!(port.data_bits(), Some(DataBits::Eight));
    assert_eq!(port.parity(), Some(Parity::Even));
    assert_eq!(port.timeout(), Duration::from_millis(100));
}

#[test]
fn setting_all_with_an_unknown_rate_changes_nothing() {
    let mut port = port();
    let before = port.termios;
    let wrong = SerialPortSettings { baud_rate: BaudRate::BaudOther(1), ..settings() };
    assert_eq!(port.set_all(&wrong), Progress::Failed(Error::Os(libc::EINVAL)));
    assert_eq!(port.termios, before);
    assert_eq!(port.timeout(), Duration::from_millis(100));
}

#[test]
fn descriptor_is_given_away_once() {
    let mut port = port();
    let fd = port.fd;
    assert_eq!(
        port.release(),
        vec![Action::ReleaseExclusive { fd }, Action::Close { fd }]
    );
    assert_eq!(port.into_raw_fd(), fd);
    assert_eq!(port.as_raw_fd(), -1);
    assert_eq!(port.release(), vec![]);
    port.fd = 0;
    assert_eq!(
        port.release(),
        vec![Action::ReleaseExclusive { fd: 0 }, Action::Close { fd: 0 }]
    );
}

#[test]
fn line_settings_are_set_in_any_order() {
    let fd = terminal();
    let attributes = Termios::from_fd(fd).unwrap();
    let mut first = TTYPort::from_fd(fd, attributes);
    first.set_data_bits(DataBits::Six);
    first.set_flow_control(FlowControl::Hardware);
    first.set_parity(Parity::Even);
    first.set_stop_bits(StopBits::One);
    let mut second = TTYPort::from_fd(fd, attributes);
    second.set_parity(Parity::Even);
    second.set_stop_bits(StopBits::One);
    second.set_flow_control(FlowControl::Hardware);
    second.set_parity(Parity::Even);
    second.set_data_bits(DataBits::Six);
    assert_eq!(first.termios, second.termios);
    assert!(first.termios != attributes);
}

#[test]
fn earlier_flow_control_leaves_no_trace() {
    let fd = terminal();
    let attributes = Termios::from_fd(fd).unwrap();
    let all = [FlowControl::NoFlowControl, FlowControl::Software, FlowControl::Hardware];
    for earlier in all {
        for later in all {
            let mut port = TTYPort::from_fd(fd, attributes);
            port.set_flow_control(earlier);
            port.set_flow_control(later);
            let mut directly = TTYPort::from_fd(fd, attributes);
            directly.set_flow_control(later);
            assert_eq!(port.termios, directly.termios);
            assert_eq!(port.flow_control(), Some(later));
        }
    }
}

#[test]
fn line_setting_that_is_set_back_leaves_no_trace() {
    let mut port = port();
    let before = port.termios;
    let data_bits = port.data_bits().unwrap();
    port.set_data_bits(DataBits::Five);
    assert!(port.termios != before);
    port.set_data_bits(data_bits);
    assert_eq!(port.termios, before);
}

#[test]
fn modem_lines_are_raised_and_lowered() {
    let mut port = port();
    let fd = port.fd;
    assert_eq!(
        port.write_request_to_send(true),
        Action::SetPins { fd, pins: ioctl_rs::TIOCM_RTS }
    );
    assert_eq!(
        port.write_request_to_send(false),
        Action::ClearPins { fd, pins: ioctl_rs::TIOCM_RTS }
    );
    assert_eq!(
        port.write_data_terminal_ready(true),
        Action::SetPins { fd, pins: ioctl_rs::TIOCM_DTR }
    );
    assert_eq!(port.set_pin(64, false), Action::ClearPins { fd, pins: 64 });
    assert_eq!(port.read_pins(), Action::GetPins { fd });
}

#[test]
fn path_with_a_nul_byte_is_refused() {
    match TTYPort::open(b"/dev/tty\0S0", &settings()) {
        OpenProgress::Failed { error, port } => {
            assert_eq!(error, Error::Os(libc::EINVAL));
            assert!(port.is_none());
        }
        other => panic!("{:?}", other),
    }
}

#[test]
fn terminal_is_opened_after_seventeen_replies() {
    let fd = terminal();
    let mut replies = 0;
    let mut actions = Vec::new();
    let mut progress = TTYPort::open(b"/dev/ttyS0", &settings());
    while let OpenProgress::Next(opening, action) = progress {
        let reply = perform(&action, fd);
        assert!(opening.accepts(&reply));
        actions.push(action);
        replies += 1;
        progress = opening.open_next(reply);
    }
    assert_eq!(replies, 17);
    match progress {
        OpenProgress::Opened(port) => {
            assert_eq!(port.as_raw_fd(), fd);
            assert_eq!(
                port.settings(),
                SerialPortSettings { stop_bits: StopBits::One, ..settings() }
            );
            assert_eq!(port.termios.c_lflag & termios::ICANON, 0);
            assert_eq!(port.termios.c_cc[VMIN], 0);
            assert!(port.termios.c_cflag & termios::CREAD != 0);
            assert_eq!(last_written(&actions), Some(port.termios));
        }
        other => panic!("{:?}", other),
    }
    assert_eq!(actions[1], Action::GetAttributes { fd });
    match (&actions[2], &actions[3]) {
        (
            Action::SetAttributes { attributes: written, .. },
            Action::GetAttributesOver { attributes: over, .. },
        ) => assert_eq!(written, over),
        other => panic!("{:?}", other),
    }
    assert_eq!(actions[4], Action::Flush { fd, queue: termios::TCIOFLUSH });
    assert_eq!(actions[5], Action::AcquireExclusive { fd });
    assert_eq!(actions[6], Action::SetStatusFlags { fd, flags: 0 });
}

#[test]
fn path_of_the_device_is_handed_on() {
    match TTYPort::open(b"/dev/tty\xff7", &settings()) {
        OpenProgress::Next(_, Action::Open { path, .. }) => assert_eq!(path, b"/dev/tty\xff7"),
        other => panic!("{:?}", other),
    }
}

#[test]
fn device_that_cannot_be_opened_is_an_error() {
    match opening_after(0, 0).open_next(Reply::Returned { value: -1, errno: libc::ENOENT }) {
        OpenProgress::Failed { error, port } => {
            assert_eq!(error, Error::Os(libc::ENOENT));
            assert!(port.is_none());
        }
        other => panic!("{:?}", other),
    }
}

#[test]
fn failures_before_the_port_is_made_leave_no_port() {
    let fd = terminal();
    for replies in 1..5 {
        match opening_after(replies, fd).open_next(Reply::Failed(Some(libc::EIO))) {
            OpenProgress::Failed { error, port } => {
                assert_eq!(error, Error::Os(libc::EIO));
                assert!(port.is_none());
            }
            other => panic!("{:?}", other),
        }
    }
}

#[test]
fn failures_after_the_port_is_made_hand_it_back() {
    let fd = terminal();
    for replies in [5, 7, 8, 16] {
        match opening_after(replies, fd).open_next(Reply::Failed(None)) {
            OpenProgress::Failed { error, port } => {
                assert_eq!(error, Error::Io);
                assert_eq!(port.unwrap().fd, fd);
            }
            other => panic!("{:?}", other),
        }
    }
    let blocking = opening_after(6, fd);
    match blocking.open_next(Reply::Returned { value: -1, errno: libc::EBADF }) {
        OpenProgress::Failed { error, port } => {
            assert_eq!(error, Error::Os(libc::EBADF));
            assert_eq!(port.unwrap().fd, fd);
        }
        other => panic!("{:?}", other),
    }
}

#[test]
fn attributes_that_were_not_taken_over_are_an_error() {
    let fd = terminal();
    let mut actual = Termios::from_fd(fd).unwrap();
    actual.c_cc[VMIN] = 1;
    match opening_after(3, fd).open_next(Reply::Attributes(actual)) {
        OpenProgress::Failed { error, port } => {
            assert_eq!(error, Error::NotApplied);
            assert_eq!(error.kind(), ErrorKind::Io);
            assert!(port.is_none());
        }
        other => panic!("{:?}", other),
    }
}

#[test]
fn opening_with_an_unknown_rate_fails_once_the_port_is_made() {
    let fd = terminal();
    let wrong = SerialPortSettings { baud_rate: BaudRate::BaudOther(9600), ..settings() };
    let mut progress = TTYPort::open(b"/dev/ttyS0", &wrong);
    let mut replies = 0;
    while let OpenProgress::Next(opening, action) = progress {
        progress = opening.open_next(perform(&action, fd));
        replies += 1;
    }
    assert_eq!(replies, 7);
    match progress {
        OpenProgress::Failed { error, port } => {
            assert_eq!(error, Error::Os(libc::EINVAL));
            assert_eq!(port.unwrap().fd, fd);
        }
        other => panic!("{:?}", other),
    }
}

#[test]
fn replies_of_another_kind_are_not_awaited() {
    let fd = terminal();
    let attributes = Reply::Attributes(Termios::from_fd(fd).unwrap());
    let returned = Reply::Returned { value: 0, errno: 0 };
    let expected = [
        (0, false, false, true),
        (1, false, true, false),
        (2, true, false, false),
        (3, false, true, false),
        (4, true, false, false),
        (5, true, false, false),
        (6, false, false, true),
        (7, true, false, false),
    ];
    for (replies, on_done, on_attributes, on_returned) in expected {
        let opening = opening_after(replies, fd);
        assert_eq!(opening.accepts(&Reply::Done), on_done);
        assert_eq!(opening.accepts(&attributes), on_attributes);
        assert_eq!(opening.accepts(&returned), on_returned);
    }
}
