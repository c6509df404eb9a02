use serialport::{action, attributes, baud, error, modes, pins};
use termios::os::linux as os;

#[test]
fn speed_codes_are_those_of_the_platform() {
    let pairs = [
        (baud::B50, os::B50),
        (baud::B75, os::B75),
        (baud::B110, os::B110),
        (baud::B134, os::B134),
        (baud::B150, os::B150),
        (baud::B200, os::B200),
        (baud::B300, os::B300),
        (baud::B600, os::B600),
        (baud::B1200, os::B1200),
        (baud::B1800, os::B1800),
        (baud::B2400, os::B2400),
        (baud::B4800, os::B4800),
        (baud::B9600, os::B9600),
        (baud::B19200, os::B19200),
        (baud::B38400, os::B38400),
        (baud::B57600, os::B57600),
        (baud::B115200, os::B115200),
        (baud::B230400, os::B230400),
        (baud::B460800, os::B460800),
        (baud::B500000, os::B500000),
        (baud::B576000, os::B576000),
        (baud::B921600, os::B921600),
        (baud::B1000000, os::B1000000),
        (baud::B1152000, os::B1152000),
        (baud::B1500000, os::B1500000),
        (baud::B2000000, os::B2000000),
        (baud::B2500000, os::B2500000),
        (baud::B3000000, os::B3000000),
        (baud::B3500000, os::B3500000),
        (baud::B4000000, os::B4000000),
    ];
    for (ours, theirs) in pairs {
        assert_eq!(ours, theirs);
    }
}

#[test]
fn mode_bits_are_those_of_the_platform() {
    let pairs = [
        (modes::IGNBRK, os::IGNBRK),
        (modes::IGNPAR, os::IGNPAR),
        (modes::INPCK, os::INPCK),
        (modes::INLCR, os::INLCR),
        (modes::IGNCR, os::IGNCR),
        (modes::ICRNL, os::ICRNL),
        (modes::IXON, os::IXON),
        (modes::IXOFF, os::IXOFF),
        (modes::OPOST, os::OPOST),
        (modes::CSIZE, os::CSIZE),
        (modes::CS5, os::CS5),
        (modes::CS6, os::CS6),
        (modes::CS7, os::CS7),
        (modes::CS8, os::CS8),
        (modes::CSTOPB, os::CSTOPB),
        (modes::CREAD, os::CREAD),
        (modes::PARENB, os::PARENB),
        (modes::PARODD, os::PARODD),
        (modes::CLOCAL, os::CLOCAL),
        (modes::CRTSCTS, os::CRTSCTS),
        (modes::ISIG, os::ISIG),
        (modes::ICANON, os::ICANON),
        (modes::ECHO, os::ECHO),
        (modes::ECHOE, os::ECHOE),
        (modes::ECHOK, os::ECHOK),
        (modes::ECHONL, os::ECHONL),
        (modes::IEXTEN, os::IEXTEN),
        (attributes::CBAUD, os::CBAUD),
        (attributes::CIBAUD, os::CIBAUD),
    ];
    for (ours, theirs) in pairs {
        assert_eq!(ours, theirs);
    }
    let input_modes = os::IGNBRK
        | os::BRKINT
        | os::IGNPAR
        | os::PARMRK
        | os::INPCK
        | os::ISTRIP
        | os::INLCR
        | os::IGNCR
        | os::ICRNL
        | os::IUCLC
        | os::IXON
        | os::IXANY
        | os::IXOFF
        | os::IMAXBEL
        | os::IUTF8;
    assert_eq!(attributes::INPUT_MODES, input_modes);
    assert_eq!(attributes::NCCS, os::NCCS);
    assert_eq!(attributes::VMIN, os::VMIN);
    assert_eq!(attributes::VTIME, os::VTIME);
}

#[test]
fn call_arguments_are_those_of_the_platform() {
    assert_eq!(action::TCSANOW, termios::TCSANOW);
    assert_eq!(action::TCIOFLUSH, termios::TCIOFLUSH);
    assert_eq!(action::O_RDWR, libc::O_RDWR);
    assert_eq!(action::O_NOCTTY, libc::O_NOCTTY);
    assert_eq!(action::O_NONBLOCK, libc::O_NONBLOCK);
}

#[test]
fn modem_lines_are_those_of_the_platform() {
    assert_eq!(pins::TIOCM_RTS, ioctl_rs::TIOCM_RTS);
    assert_eq!(pins::TIOCM_DTR, ioctl_rs::TIOCM_DTR);
    assert_eq!(pins::TIOCM_CTS, ioctl_rs::TIOCM_CTS);
    assert_eq!(pins::TIOCM_DSR, ioctl_rs::TIOCM_DSR);
    assert_eq!(pins::TIOCM_RI, ioctl_rs::TIOCM_RI);
    assert_eq!(pins::TIOCM_CD, ioctl_rs::TIOCM_CD);
}

#[test]
fn error_numbers_are_those_of_the_platform() {
    assert_eq!(error::ENOENT, libc::ENOENT);
    assert_eq!(error::ENXIO, libc::ENXIO);
    assert_eq!(error::EACCES, libc::EACCES);
    assert_eq!(error::EBUSY, libc::EBUSY);
    assert_eq!(error::ENODEV, libc::ENODEV);
    assert_eq!(error::ENOTDIR, libc::ENOTDIR);
    assert_eq!(error::EISDIR, libc::EISDIR);
    assert_eq!(error::EINVAL, libc::EINVAL);
    assert_eq!(error::ENAMETOOLONG, libc::ENAMETOOLONG);
    assert_eq!(error::ELOOP, libc::ELOOP);
}
