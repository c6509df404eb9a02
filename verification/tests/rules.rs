use serialport::baud::{baud_rate_of_speeds, speed_code, B110, B115200, B4000000, B50, B9600};
use serialport::pins::{pins_written, TIOCM_CD, TIOCM_CTS, TIOCM_DSR, TIOCM_RI};
use serialport::{
    available_baud_rates, available_ports, BaudRate, DataBits, Error, ErrorKind, FlowControl, Modes,
    Parity, ParentDevice, SerialPortSettings, StopBits, TTYPort, TtyDevice,
};
use std::time::Duration;

fn modes() -> Modes {
    Modes { c_iflag: 0o052525, c_oflag: 0o25, c_cflag: 0o04000002277, c_lflag: 0o105073 }
}

#[test]
fn available_baud_rates_are_listed_in_order() {
    let rates = available_baud_rates();
    assert_eq!(
        rates,
        vec![
            50, 75, 110, 134, 150, 200, 300, 600, 1200, 1800, 2400, 4800, 9600, 19200, 38400, 57600,
            115200, 230400, 460800, 500000, 576000, 921600, 1000000, 1152000, 1500000, 2000000,
            2500000, 3000000, 3500000, 4000000,
        ]
    );
}

#[test]
fn canonical_rates_have_codes_that_read_back() {
    assert_eq!(speed_code(BaudRate::BaudOther(50)), Some(B50));
    assert_eq!(speed_code(BaudRate::Baud110), Some(B110));
    assert_eq!(speed_code(BaudRate::Baud9600), Some(B9600));
    assert_eq!(speed_code(BaudRate::Baud115200), Some(B115200));
    assert_eq!(speed_code(BaudRate::BaudOther(4000000)), Some(B4000000));
    for rate in [
        BaudRate::Baud110,
        BaudRate::Baud300,
        BaudRate::Baud600,
        BaudRate::Baud1200,
        BaudRate::Baud2400,
        BaudRate::Baud4800,
        BaudRate::Baud9600,
        BaudRate::Baud19200,
        BaudRate::Baud38400,
        BaudRate::Baud57600,
        BaudRate::Baud115200,
        BaudRate::BaudOther(134),
        BaudRate::BaudOther(230400),
        BaudRate::BaudOther(3500000),
    ] {
        let code = speed_code(rate).unwrap();
        assert_eq!(baud_rate_of_speeds(code, code), Some(rate));
    }
}

#[test]
fn available_rates_can_be_set_in_one_way() {
    let mut codes = Vec::new();
    for rate in available_baud_rates() {
        let named = [
            BaudRate::Baud110,
            BaudRate::Baud300,
            BaudRate::Baud600,
            BaudRate::Baud1200,
            BaudRate::Baud2400,
            BaudRate::Baud4800,
            BaudRate::Baud9600,
            BaudRate::Baud19200,
            BaudRate::Baud38400,
            BaudRate::Baud57600,
            BaudRate::Baud115200,
        ];
        let numbers = [110, 300, 600, 1200, 2400, 4800, 9600, 19200, 38400, 57600, 115200];
        match numbers.iter().position(|n| *n == rate) {
            Some(i) => {
                assert_eq!(speed_code(BaudRate::BaudOther(rate)), None);
                codes.push(speed_code(named[i]).unwrap());
            }
            None => codes.push(speed_code(BaudRate::BaudOther(rate)).unwrap()),
        }
    }
    let mut sorted = codes.clone();
    sorted.sort();
    sorted.dedup();
    assert_eq!(sorted, codes);
    assert_eq!(codes.len(), 30);
}

#[test]
fn other_rates_have_no_code() {
    assert_eq!(speed_code(BaudRate::BaudOther(0)), None);
    assert_eq!(speed_code(BaudRate::BaudOther(9600)), None);
    assert_eq!(speed_code(BaudRate::BaudOther(7200)), None);
    assert_eq!(speed_code(BaudRate::BaudOther(12345)), None);
}

#[test]
fn speeds_that_differ_or_are_unknown_are_no_rate() {
    assert_eq!(baud_rate_of_speeds(B9600, B110), None);
    assert_eq!(baud_rate_of_speeds(0, 0), None);
    assert_eq!(baud_rate_of_speeds(16, 16), None);
    assert_eq!(baud_rate_of_speeds(0o010000, 0o010000), None);
    assert_eq!(baud_rate_of_speeds(0o010020, 0o010020), None);
}

#[test]
fn data_bits_read_back_and_change_nothing_else() {
    for d in [DataBits::Five, DataBits::Six, DataBits::Seven, DataBits::Eight] {
        let mut m = modes();
        m.set_data_bits(d);
        assert_eq!(m.data_bits(), Some(d));
        assert_eq!(m.flow_control(), modes().flow_control());
        assert_eq!(m.parity(), modes().parity());
        assert_eq!(m.stop_bits(), modes().stop_bits());
        assert_eq!(m.c_cflag & !0o60, modes().c_cflag & !0o60);
        assert_eq!((m.c_iflag, m.c_oflag, m.c_lflag), (
            modes().c_iflag,
            modes().c_oflag,
            modes().c_lflag
        ));
    }
    let mut m = Modes { c_iflag: 0, c_oflag: 0, c_cflag: 0o060, c_lflag: 0 };
    m.set_data_bits(DataBits::Six);
    assert_eq!(m.c_cflag, 0o020);
}

#[test]
fn flow_control_reads_back_and_changes_nothing_else() {
    for f in [FlowControl::NoFlowControl, FlowControl::Software, FlowControl::Hardware] {
        let mut m = modes();
        m.set_flow_control(f);
        assert_eq!(m.flow_control(), f);
        assert_eq!(m.data_bits(), modes().data_bits());
        assert_eq!(m.parity(), modes().parity());
        assert_eq!(m.stop_bits(), modes().stop_bits());
        assert_eq!(m.c_iflag & !0o012000, modes().c_iflag & !0o012000);
        assert_eq!(m.c_cflag & !0o20000000000, modes().c_cflag & !0o20000000000);
    }
    let mut m = Modes { c_iflag: 0, c_oflag: 0, c_cflag: 0, c_lflag: 0 };
    m.set_flow_control(FlowControl::Software);
    assert_eq!(m.c_iflag, 0o012000);
    m.set_flow_control(FlowControl::Hardware);
    assert_eq!((m.c_iflag, m.c_cflag), (0, 0o20000000000));
    let both = Modes { c_iflag: 0o012000, ..m };
    assert_eq!(both.flow_control(), FlowControl::Hardware);
    let half = Modes { c_iflag: 0o002000, c_oflag: 0, c_cflag: 0, c_lflag: 0 };
    assert_eq!(half.flow_control(), FlowControl::Software);
}

#[test]
fn parity_reads_back_and_changes_nothing_else() {
    for p in [Parity::NoParity, Parity::Odd, Parity::Even] {
        let mut m = modes();
        m.set_parity(p);
        assert_eq!(m.parity(), p);
        assert_eq!(m.data_bits(), modes().data_bits());
        assert_eq!(m.flow_control(), modes().flow_control());
        assert_eq!(m.stop_bits(), modes().stop_bits());
        assert_eq!(m.c_iflag & !0o24, modes().c_iflag & !0o24);
        assert_eq!(m.c_cflag & !0o1400, modes().c_cflag & !0o1400);
    }
    let mut m = Modes { c_iflag: 0, c_oflag: 0, c_cflag: 0, c_lflag: 0 };
    m.set_parity(Parity::Odd);
    assert_eq!((m.c_iflag, m.c_cflag), (0o20, 0o1400));
    m.set_parity(Parity::Even);
    assert_eq!((m.c_iflag, m.c_cflag), (0o20, 0o400));
    m.set_parity(Parity::NoParity);
    assert_eq!((m.c_iflag, m.c_cflag), (0o4, 0));
}

#[test]
fn stop_bits_read_back_as_the_other_number() {
    let mut m = modes();
    m.set_stop_bits(StopBits::One);
    assert_eq!(m.stop_bits(), StopBits::Two);
    assert_eq!(m.c_cflag, modes().c_cflag | 0o100);
    m.set_stop_bits(StopBits::Two);
    assert_eq!(m.stop_bits(), StopBits::One);
    assert_eq!(m.c_cflag, modes().c_cflag & !0o100);
}

#[test]
fn binary_access_keeps_the_settings() {
    let mut m = modes();
    m.set_raw();
    assert_eq!(m.c_cflag, modes().c_cflag | 0o4200);
    assert_eq!(m.c_lflag, modes().c_lflag & !0o100173);
    assert_eq!(m.c_oflag, modes().c_oflag & !0o1);
    assert_eq!(m.c_iflag, modes().c_iflag & !0o701);
    assert_eq!(m.data_bits(), modes().data_bits());
    assert_eq!(m.flow_control(), modes().flow_control());
    assert_eq!(m.parity(), modes().parity());
    assert_eq!(m.stop_bits(), modes().stop_bits());
}

#[test]
fn settings_are_independent_and_the_last_one_counts() {
    let mut first = modes();
    first.set_parity(Parity::Even);
    first.set_data_bits(DataBits::Five);
    first.set_stop_bits(StopBits::One);
    first.set_flow_control(FlowControl::Software);
    let mut second = modes();
    second.set_flow_control(FlowControl::Hardware);
    second.set_flow_control(FlowControl::Software);
    second.set_stop_bits(StopBits::Two);
    second.set_stop_bits(StopBits::One);
    second.set_data_bits(DataBits::Eight);
    second.set_data_bits(DataBits::Five);
    second.set_parity(Parity::Odd);
    second.set_parity(Parity::Even);
    assert_eq!(first, second);
}

#[test]
fn default_settings() {
    let settings = SerialPortSettings::default();
    assert_eq!(settings.baud_rate, BaudRate::Baud9600);
    assert_eq!(settings.data_bits, DataBits::Eight);
    assert_eq!(settings.flow_control, FlowControl::NoFlowControl);
    assert_eq!(settings.parity, Parity::NoParity);
    assert_eq!(settings.stop_bits, StopBits::One);
    assert_eq!(settings.timeout, Duration::from_nanos(1_000_000));
}

#[test]
fn error_kinds() {
    assert_eq!(Error::from_raw_os_error(libc::EBUSY).kind(), ErrorKind::NoDevice);
    assert_eq!(Error::from_raw_os_error(libc::ENOENT).kind(), ErrorKind::NoDevice);
    assert_eq!(Error::from_raw_os_error(libc::EACCES).kind(), ErrorKind::NoDevice);
    assert_eq!(Error::from_raw_os_error(libc::EINVAL).kind(), ErrorKind::InvalidInput);
    assert_eq!(Error::from_raw_os_error(libc::ENAMETOOLONG).kind(), ErrorKind::InvalidInput);
    assert_eq!(Error::from_raw_os_error(libc::EIO).kind(), ErrorKind::Io);
    assert_eq!(Error::from_io_error(Some(libc::ENOTTY)), Error::Os(libc::ENOTTY));
    assert_eq!(Error::from_io_error(None).kind(), ErrorKind::Io);
    assert_eq!(Error::NotApplied.kind(), ErrorKind::Io);
    assert_eq!(Error::NotApplied.description(), Some("Settings did not apply correctly"));
    assert_eq!(Error::Io.description(), None);
    assert_eq!(Error::Os(2).description(), None);
}

#[test]
fn modem_lines_are_read_apart() {
    let bits = TIOCM_CTS | TIOCM_RI;
    assert_eq!(TTYPort::read_clear_to_send(Ok(bits)), Ok(true));
    assert_eq!(TTYPort::read_data_set_ready(Ok(bits)), Ok(false));
    assert_eq!(TTYPort::read_ring_indicator(Ok(bits)), Ok(true));
    assert_eq!(TTYPort::read_carrier_detect(Ok(bits)), Ok(false));
    let others = TIOCM_DSR | TIOCM_CD;
    assert_eq!(TTYPort::read_clear_to_send(Ok(others)), Ok(false));
    assert_eq!(TTYPort::read_data_set_ready(Ok(others)), Ok(true));
    assert_eq!(TTYPort::read_ring_indicator(Ok(others)), Ok(false));
    assert_eq!(TTYPort::read_carrier_detect(Ok(others)), Ok(true));
    assert_eq!(TTYPort::read_clear_to_send(Err(Some(5))), Err(Error::Os(5)));
    assert_eq!(TTYPort::read_pin(4, Ok(-1)), Ok(true));
    assert_eq!(pins_written(Ok(())), Ok(()));
    assert_eq!(pins_written(Err(Some(25))), Err(Error::Os(25)));
    assert_eq!(pins_written(Err(None)), Err(Error::Io));
}

#[test]
fn transfers_give_the_length_or_the_error_number() {
    assert_eq!(TTYPort::transferred(0, 11), Ok(0));
    assert_eq!(TTYPort::transferred(17, 11), Ok(17));
    assert_eq!(TTYPort::transferred(-1, 11), Err(11));
}

fn device(driver: Option<Option<&str>>, node: Option<&str>, opens: bool) -> TtyDevice {
    TtyDevice {
        parent: driver.map(|d| ParentDevice { driver: d.map(String::from) }),
        devnode: node.map(String::from),
        opens,
    }
}

#[test]
fn ports_are_devices_with_a_parent_and_a_node() {
    let devices = vec![
        device(None, Some("/dev/tty1"), true),
        device(Some(Some("serial8250")), Some("/dev/ttyS0"), true),
        device(Some(Some("serial8250")), Some("/dev/ttyS1"), false),
        device(Some(Some("ftdi_sio")), Some("/dev/ttyUSB0"), false),
        device(Some(None), Some("/dev/ttyACM0"), false),
        device(Some(Some("ftdi_sio")), None, true),
    ];
    let probed: Vec<bool> = devices.iter().map(|d| d.needs_probe()).collect();
    assert_eq!(probed, vec![false, true, true, false, false, false]);
    let ports = available_ports(Some(Ok(devices))).unwrap();
    let names: Vec<&str> = ports.iter().map(|p| p.port_name.as_str()).collect();
    assert_eq!(names, vec!["/dev/ttyS0", "/dev/ttyUSB0", "/dev/ttyACM0"]);
}

#[test]
fn no_scan_gives_no_ports_and_a_failed_one_an_error() {
    assert_eq!(available_ports(None), Ok(Vec::new()));
    assert_eq!(available_ports(Some(Ok(Vec::new()))), Ok(Vec::new()));
    assert_eq!(available_ports(Some(Err(Some(12)))), Err(Error::Os(12)));
    assert_eq!(available_ports(Some(Err(None))), Err(Error::Io));
}
