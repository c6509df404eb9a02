//! The mode words of a Linux terminal and the line settings that their bits stand for.
use crate::settings::{DataBits, FlowControl, Parity, StopBits};
use termios::os::linux::tcflag_t;
use vstd::prelude::*;

verus! {

// Bits of `c_iflag`.
pub const IGNBRK: u32 = 0o000001;

pub const IGNPAR: u32 = 0o000004;

pub const INPCK: u32 = 0o000020;

pub const INLCR: u32 = 0o000100;

pub const IGNCR: u32 = 0o000200;

pub const ICRNL: u32 = 0o000400;

pub const IXON: u32 = 0o002000;

pub const IXOFF: u32 = 0o010000;

// Bits of `c_oflag`.
pub const OPOST: u32 = 0o000001;

// Bits of `c_cflag`.
pub const CSIZE: u32 = 0o000060;

pub const CS5: u32 = 0o000000;

pub const CS6: u32 = 0o000020;

pub const CS7: u32 = 0o000040;

pub const CS8: u32 = 0o000060;

pub const CSTOPB: u32 = 0o000100;

pub const CREAD: u32 = 0o000200;

pub const PARENB: u32 = 0o000400;

pub const PARODD: u32 = 0o001000;

pub const CLOCAL: u32 = 0o004000;

pub const CRTSCTS: u32 = 0o20000000000;

// Bits of `c_lflag`.
pub const ISIG: u32 = 0o000001;

pub const ICANON: u32 = 0o000002;

pub const ECHO: u32 = 0o000010;

pub const ECHOE: u32 = 0o000020;

pub const ECHOK: u32 = 0o000040;

pub const ECHONL: u32 = 0o000100;

pub const IEXTEN: u32 = 0o100000;

/// The four mode words of a terminal, of the type that they have on Linux.
#[derive(Clone, Copy, Debug, PartialEq, Eq, Structural)]
pub struct Modes {
    /// Input modes.
    pub c_iflag: tcflag_t,
    /// Output modes.
    pub c_oflag: tcflag_t,
    /// Control modes.
    pub c_cflag: tcflag_t,
    /// Local modes.
    pub c_lflag: tcflag_t,
}

/// `word` with `bits` in the place of its bits under `mask`.
pub open spec fn with_bits(word: u32, mask: u32, bits: u32) -> u32 {
    (word & !mask) | bits
}

/// The character size that stands for a number of data bits.
pub open spec fn size_bits(data_bits: DataBits) -> u32 {
    match data_bits {
        DataBits::Five => CS5,
        DataBits::Six => CS6,
        DataBits::Seven => CS7,
        DataBits::Eight => CS8,
    }
}

/// The input mode bits, under `IXON | IXOFF`, that stand for a flow control.
pub open spec fn xon_bits(flow_control: FlowControl) -> u32 {
    match flow_control {
        FlowControl::Software => IXON | IXOFF,
        _ => 0,
    }
}

/// The control mode bit, under `CRTSCTS`, that stands for a flow control.
pub open spec fn rts_bits(flow_control: FlowControl) -> u32 {
    match flow_control {
        FlowControl::Hardware => CRTSCTS,
        _ => 0,
    }
}

/// The control mode bits, under `PARENB | PARODD`, that stand for a parity.
pub open spec fn parity_bits(parity: Parity) -> u32 {
    match parity {
        Parity::NoParity => 0,
        Parity::Odd => PARENB | PARODD,
        Parity::Even => PARENB,
    }
}

/// The input mode bits, under `INPCK | IGNPAR`, that go with a parity: with a parity bit it is
/// checked, without one parity errors are ignored.
pub open spec fn check_bits(parity: Parity) -> u32 {
    match parity {
        Parity::NoParity => IGNPAR,
        _ => INPCK,
    }
}

/// The control mode bit, under `CSTOPB`, that [`Modes::set_stop_bits`] writes.
pub open spec fn stop_bits_written(stop_bits: StopBits) -> u32 {
    match stop_bits {
        StopBits::One => CSTOPB,
        StopBits::Two => 0,
    }
}

/// The other number of stop bits.
pub open spec fn other_stop_bits(stop_bits: StopBits) -> StopBits {
    match stop_bits {
        StopBits::One => StopBits::Two,
        StopBits::Two => StopBits::One,
    }
}

impl Modes {
    /// The data bits that the modes stand for.
    pub open spec fn spec_data_bits(self) -> Option<DataBits> {
        let size = self.c_cflag & CSIZE;
        if size == CS8 {
            Some(DataBits::Eight)
        } else if size == CS7 {
            Some(DataBits::Seven)
        } else if size == CS6 {
            Some(DataBits::Six)
        } else if size == CS5 {
            Some(DataBits::Five)
        } else {
            None
        }
    }

    /// The flow control that the modes stand for. Hardware flow control goes before software flow
    /// control where both are on.
    pub open spec fn spec_flow_control(self) -> FlowControl {
        if self.c_cflag & CRTSCTS != 0 {
            FlowControl::Hardware
        } else if self.c_iflag & (IXON | IXOFF) != 0 {
            FlowControl::Software
        } else {
            FlowControl::NoFlowControl
        }
    }

    /// The parity that the modes stand for.
    pub open spec fn spec_parity(self) -> Parity {
        if self.c_cflag & PARENB == 0 {
            Parity::NoParity
        } else if self.c_cflag & PARODD != 0 {
            Parity::Odd
        } else {
            Parity::Even
        }
    }

    /// The stop bits that the modes stand for.
    pub open spec fn spec_stop_bits(self) -> StopBits {
        if self.c_cflag & CSTOPB != 0 {
            StopBits::Two
        } else {
            StopBits::One
        }
    }

    /// The modes with another number of data bits.
    pub open spec fn with_data_bits(self, data_bits: DataBits) -> Modes {
        Modes { c_cflag: with_bits(self.c_cflag, CSIZE, size_bits(data_bits)), ..self }
    }

    /// The modes with another flow control.
    pub open spec fn with_flow_control(self, flow_control: FlowControl) -> Modes {
        Modes {
            c_iflag: with_bits(self.c_iflag, IXON | IXOFF, xon_bits(flow_control)),
            c_cflag: with_bits(self.c_cflag, CRTSCTS, rts_bits(flow_control)),
            ..self
        }
    }

    /// The modes with another parity.
    pub open spec fn with_parity(self, parity: Parity) -> Modes {
        Modes {
            c_iflag: with_bits(self.c_iflag, INPCK | IGNPAR, check_bits(parity)),
            c_cflag: with_bits(self.c_cflag, PARENB | PARODD, parity_bits(parity)),
            ..self
        }
    }

    /// The modes after a change of the stop bits.
    pub open spec fn with_stop_bits(self, stop_bits: StopBits) -> Modes {
        Modes { c_cflag: with_bits(self.c_cflag, CSTOPB, stop_bits_written(stop_bits)), ..self }
    }

    /// The modes set up for binary access: the receiver is on, modem lines are ignored, and
    /// neither input nor output is processed.
    pub open spec fn raw(self) -> Modes {
        Modes {
            c_iflag: with_bits(self.c_iflag, INLCR | IGNCR | ICRNL | IGNBRK, 0),
            c_oflag: with_bits(self.c_oflag, OPOST, 0),
            c_cflag: with_bits(self.c_cflag, CREAD | CLOCAL, CREAD | CLOCAL),
            c_lflag: with_bits(
                self.c_lflag,
                ICANON | ECHO | ECHOE | ECHOK | ECHONL | ISIG | IEXTEN,
                0,
            ),
        }
    }

    /// Whether the modes are those of binary access.
    pub open spec fn is_raw(self) -> bool {
        &&& self.c_iflag & (INLCR | IGNCR | ICRNL | IGNBRK) == 0
        &&& self.c_oflag & OPOST == 0
        &&& self.c_cflag & CREAD != 0
        &&& self.c_cflag & CLOCAL != 0
        &&& self.c_lflag & (ICANON | ECHO | ECHOE | ECHOK | ECHONL | ISIG | IEXTEN) == 0
    }

    /// Returns the number of data bits.
    pub fn data_bits(&self) -> (data_bits: Option<DataBits>)
        ensures
            data_bits == self.spec_data_bits(),
            data_bits is Some,
            data_bits == Some(DataBits::Five) <==> self.c_cflag & CSIZE == CS5,
            data_bits == Some(DataBits::Six) <==> self.c_cflag & CSIZE == CS6,
            data_bits == Some(DataBits::Seven) <==> self.c_cflag & CSIZE == CS7,
            data_bits == Some(DataBits::Eight) <==> self.c_cflag & CSIZE == CS8,
    {
        let word = self.c_cflag;
        assert(word & CSIZE == CS8 || word & CSIZE == CS7 || word & CSIZE == CS6 || word & CSIZE
            == CS5) by (bit_vector);
        match self.c_cflag & CSIZE {
            CS8 => Some(DataBits::Eight),
            CS7 => Some(DataBits::Seven),
            CS6 => Some(DataBits::Six),
            CS5 => Some(DataBits::Five),
            _ => None,
        }
    }

    /// Returns the flow control.
    pub fn flow_control(&self) -> (flow_control: FlowControl)
        ensures
            flow_control == self.spec_flow_control(),
            flow_control == FlowControl::Hardware <==> self.c_cflag & CRTSCTS != 0,
            flow_control == FlowControl::NoFlowControl <==> self.c_cflag & CRTSCTS == 0
                && self.c_iflag & (IXON | IXOFF) == 0,
    {
        if self.c_cflag & CRTSCTS != 0 {
            FlowControl::Hardware
        } else if self.c_iflag & (IXON | IXOFF) != 0 {
            FlowControl::Software
        } else {
            FlowControl::NoFlowControl
        }
    }

    /// Returns the parity.
    pub fn parity(&self) -> (parity: Parity)
        ensures
            parity == self.spec_parity(),
            parity == Parity::NoParity <==> self.c_cflag & PARENB == 0,
            parity == Parity::Odd <==> self.c_cflag & PARENB != 0 && self.c_cflag & PARODD != 0,
    {
        if self.c_cflag & PARENB != 0 {
            if self.c_cflag & PARODD != 0 {
                Parity::Odd
            } else {
                Parity::Even
            }
        } else {
            Parity::NoParity
        }
    }

    /// Returns the number of stop bits.
    pub fn stop_bits(&self) -> (stop_bits: StopBits)
        ensures
            stop_bits == self.spec_stop_bits(),
            stop_bits == StopBits::Two <==> self.c_cflag & CSTOPB != 0,
    {
        if self.c_cflag & CSTOPB != 0 {
            StopBits::Two
        } else {
            StopBits::One
        }
    }

    /// Sets the number of data bits.
    pub fn set_data_bits(&mut self, data_bits: DataBits)
        ensures
            *final(self) == old(self).with_data_bits(data_bits),
            final(self).c_cflag & CSIZE == match data_bits {
                DataBits::Five => CS5,
                DataBits::Six => CS6,
                DataBits::Seven => CS7,
                DataBits::Eight => CS8,
            },
            final(self).c_cflag & !CSIZE == old(self).c_cflag & !CSIZE,
    {
        proof {
            law_data_bits_are_the_character_size(*self, data_bits);
        }
        let size: u32 = match data_bits {
            DataBits::Five => CS5,
            DataBits::Six => CS6,
            DataBits::Seven => CS7,
            DataBits::Eight => CS8,
        };
        self.c_cflag &= !CSIZE;
        self.c_cflag |= size;
    }

    /// Sets the flow control.
    pub fn set_flow_control(&mut self, flow_control: FlowControl)
        ensures
            *final(self) == old(self).with_flow_control(flow_control),
            final(self).c_iflag & (IXON | IXOFF) == match flow_control {
                FlowControl::Software => IXON | IXOFF,
                FlowControl::NoFlowControl | FlowControl::Hardware => 0,
            },
            final(self).c_cflag & CRTSCTS != 0 <==> flow_control == FlowControl::Hardware,
    {
        proof {
            law_flow_control_is_of_one_kind(*self, flow_control);
            lemma_clear_and_set();
        }
        match flow_control {
            FlowControl::NoFlowControl => {
                self.c_iflag &= !(IXON | IXOFF);
                self.c_cflag &= !CRTSCTS;
            },
            FlowControl::Software => {
                self.c_iflag |= IXON | IXOFF;
                self.c_cflag &= !CRTSCTS;
            },
            FlowControl::Hardware => {
                self.c_iflag &= !(IXON | IXOFF);
                self.c_cflag |= CRTSCTS;
            },
        }
    }

    /// Sets the parity, and with it whether parity errors are checked or ignored.
    pub fn set_parity(&mut self, parity: Parity)
        ensures
            *final(self) == old(self).with_parity(parity),
            final(self).c_cflag & (PARENB | PARODD) == match parity {
                Parity::NoParity => 0,
                Parity::Odd => PARENB | PARODD,
                Parity::Even => PARENB,
            },
            final(self).c_iflag & (INPCK | IGNPAR) == match parity {
                Parity::NoParity => IGNPAR,
                Parity::Odd | Parity::Even => INPCK,
            },
    {
        proof {
            law_parity_is_checked_where_there_is_one(*self, parity);
            lemma_clear_and_set();
            let iflag = self.c_iflag;
            let cflag = self.c_cflag;
            assert((iflag & !INPCK) | IGNPAR == (iflag & !(INPCK | IGNPAR)) | IGNPAR)
                by (bit_vector);
            assert((iflag | INPCK) & !IGNPAR == (iflag & !(INPCK | IGNPAR)) | INPCK)
                by (bit_vector);
            assert((cflag & !PARODD) | PARENB == (cflag & !(PARENB | PARODD)) | PARENB)
                by (bit_vector);
        }
        match parity {
            Parity::NoParity => {
                self.c_cflag &= !(PARENB | PARODD);
                self.c_iflag &= !INPCK;
                self.c_iflag |= IGNPAR;
            },
            Parity::Odd => {
                self.c_cflag |= PARENB | PARODD;
                self.c_iflag |= INPCK;
                self.c_iflag &= !IGNPAR;
            },
            Parity::Even => {
                self.c_cflag &= !PARODD;
                self.c_cflag |= PARENB;
                self.c_iflag |= INPCK;
                self.c_iflag &= !IGNPAR;
            },
        }
    }

    /// Writes the stop bits: `Two` clears `CSTOPB`, `One` sets it.
    pub fn set_stop_bits(&mut self, stop_bits: StopBits)
        ensures
            *final(self) == old(self).with_stop_bits(stop_bits),
            final(self).c_cflag & CSTOPB != 0 <==> stop_bits == StopBits::One,
            final(self).c_cflag & !CSTOPB == old(self).c_cflag & !CSTOPB,
    {
        proof {
            law_stop_bits_are_one_bit(*self, stop_bits);
            lemma_clear_and_set();
        }
        match stop_bits {
            StopBits::Two => self.c_cflag &= !CSTOPB,
            StopBits::One => self.c_cflag |= CSTOPB,
        }
    }

    /// Sets the modes up for binary access.
    pub fn set_raw(&mut self)
        ensures
            *final(self) == old(self).raw(),
            final(self).c_iflag & !old(self).c_iflag == 0,
            final(self).c_iflag & !(INLCR | IGNCR | ICRNL | IGNBRK) == old(self).c_iflag & !(INLCR
                | IGNCR | ICRNL | IGNBRK),
    {
        proof {
            law_binary_access_touches_only_its_bits(*self);
            lemma_clear_and_set();
        }
        self.c_cflag |= CREAD | CLOCAL;
        self.c_lflag &= !(ICANON | ECHO | ECHOE | ECHOK | ECHONL | ISIG | IEXTEN);
        self.c_oflag &= !OPOST;
        self.c_iflag &= !(INLCR | IGNCR | ICRNL | IGNBRK);
    }
}

/// To clear bits, or to set them, is to replace them by none or by all of them.
proof fn lemma_clear_and_set()
    ensures
        forall|word: u32, mask: u32| #[trigger] with_bits(word, mask, 0) == word & !mask,
        forall|word: u32, mask: u32| #[trigger] with_bits(word, mask, mask) == word | mask,
{
    assert forall|word: u32, mask: u32| #[trigger]
        with_bits(word, mask, 0) == word & !mask by {
        assert((word & !mask) | 0 == word & !mask) by (bit_vector);
    }
    assert forall|word: u32, mask: u32| #[trigger]
        with_bits(word, mask, mask) == word | mask by {
        assert((word & !mask) | mask == word | mask) by (bit_vector);
    }
}

/// Bits that replace others leave those outside their mask as they were.
pub(crate) proof fn lemma_rest_is_kept(word: u32, mask: u32, bits: u32)
    requires
        bits & !mask == 0,
    ensures
        with_bits(word, mask, bits) & !mask == word & !mask,
{
    assert(((word & !mask) | bits) & !mask == word & !mask) by (bit_vector)
        requires
            bits & !mask == 0,
    ;
}

/// Bits that replace others are read back under their mask, and bits under a mask apart from it
/// are kept.
pub(crate) proof fn lemma_with_bits(word: u32, mask: u32, bits: u32)
    requires
        bits & !mask == 0,
    ensures
        with_bits(word, mask, bits) & mask == bits,
        forall|apart: u32|
            apart & mask == 0 ==> #[trigger] (with_bits(word, mask, bits) & apart) == word & apart,
{
    assert(((word & !mask) | bits) & mask == bits) by (bit_vector)
        requires
            bits & !mask == 0,
    ;
    assert forall|apart: u32| apart & mask == 0 implies #[trigger] (with_bits(word, mask, bits)
        & apart) == word & apart by {
        assert(((word & !mask) | bits) & apart == word & apart) by (bit_vector)
            requires
                bits & !mask == 0,
                apart & mask == 0,
        ;
    }
}

/// Replacing bits twice under one mask is replacing them once, and under two masks apart from each
/// other the order does not matter.
proof fn lemma_with_bits_twice(word: u32, mask: u32, bits: u32, second: u32, others: u32)
    requires
        bits & !mask == 0,
        others & !second == 0,
    ensures
        mask == second ==> with_bits(with_bits(word, mask, bits), second, others) == with_bits(
            word,
            second,
            others,
        ),
        mask & second == 0 ==> with_bits(with_bits(word, mask, bits), second, others) == with_bits(
            with_bits(word, second, others),
            mask,
            bits,
        ),
{
    if mask == second {
        assert((((word & !mask) | bits) & !mask) | others == (word & !mask) | others)
            by (bit_vector)
            requires
                bits & !mask == 0,
        ;
    }
    if mask & second == 0 {
        assert((((word & !mask) | bits) & !second) | others == (((word & !second) | others) & !mask)
            | bits) by (bit_vector)
            requires
                bits & !mask == 0,
                others & !second == 0,
                mask & second == 0,
        ;
    }
}

/// The bits of a setting lie under its mask.
pub(crate) proof fn lemma_bits_under_masks()
    ensures
        forall|d: DataBits| #[trigger] size_bits(d) & !CSIZE == 0,
        forall|f: FlowControl| #[trigger] xon_bits(f) & !(IXON | IXOFF) == 0,
        forall|f: FlowControl| #[trigger] rts_bits(f) & !CRTSCTS == 0,
        forall|p: Parity| #[trigger] parity_bits(p) & !(PARENB | PARODD) == 0,
        forall|p: Parity| #[trigger] check_bits(p) & !(INPCK | IGNPAR) == 0,
        forall|s: StopBits| #[trigger] stop_bits_written(s) & !CSTOPB == 0,
{
    assert(CS5 & !CSIZE == 0 && CS6 & !CSIZE == 0 && CS7 & !CSIZE == 0 && CS8 & !CSIZE == 0 && (IXON
        | IXOFF) & !(IXON | IXOFF) == 0 && 0u32 & !(IXON | IXOFF) == 0 && CRTSCTS & !CRTSCTS == 0
        && 0u32 & !CRTSCTS == 0 && (PARENB | PARODD) & !(PARENB | PARODD) == 0 && PARENB & !(PARENB
        | PARODD) == 0 && 0u32 & !(PARENB | PARODD) == 0 && IGNPAR & !(INPCK | IGNPAR) == 0 && INPCK
        & !(INPCK | IGNPAR) == 0 && CSTOPB & !CSTOPB == 0 && 0u32 & !CSTOPB == 0) by (bit_vector);
}

/// A number of data bits that was set is read back. Nothing else that the modes stand for changes.
pub proof fn law_data_bits_read_back(modes: Modes, data_bits: DataBits)
    ensures
        modes.with_data_bits(data_bits).spec_data_bits() == Some(data_bits),
        modes.with_data_bits(data_bits).spec_flow_control() == modes.spec_flow_control(),
        modes.with_data_bits(data_bits).spec_parity() == modes.spec_parity(),
        modes.with_data_bits(data_bits).spec_stop_bits() == modes.spec_stop_bits(),
        modes.with_data_bits(data_bits).is_raw() == modes.is_raw(),
{
    lemma_bits_under_masks();
    lemma_with_bits(modes.c_cflag, CSIZE, size_bits(data_bits));
    assert(CRTSCTS & CSIZE == 0 && PARENB & CSIZE == 0 && PARODD & CSIZE == 0 && CSTOPB & CSIZE == 0
        && CREAD & CSIZE == 0 && CLOCAL & CSIZE == 0) by (bit_vector);
}

/// A flow control that was set is read back. Nothing else that the modes stand for changes.
pub proof fn law_flow_control_read_back(modes: Modes, flow_control: FlowControl)
    ensures
        modes.with_flow_control(flow_control).spec_flow_control() == flow_control,
        modes.with_flow_control(flow_control).spec_data_bits() == modes.spec_data_bits(),
        modes.with_flow_control(flow_control).spec_parity() == modes.spec_parity(),
        modes.with_flow_control(flow_control).spec_stop_bits() == modes.spec_stop_bits(),
        modes.with_flow_control(flow_control).is_raw() == modes.is_raw(),
{
    lemma_bits_under_masks();
    lemma_with_bits(modes.c_cflag, CRTSCTS, rts_bits(flow_control));
    lemma_with_bits(modes.c_iflag, IXON | IXOFF, xon_bits(flow_control));
    assert(CSIZE & CRTSCTS == 0 && PARENB & CRTSCTS == 0 && PARODD & CRTSCTS == 0 && CSTOPB
        & CRTSCTS == 0 && CREAD & CRTSCTS == 0 && CLOCAL & CRTSCTS == 0 && (INLCR | IGNCR | ICRNL
        | IGNBRK) & (IXON | IXOFF) == 0 && IXON | IXOFF != 0) by (bit_vector);
}

/// A parity that was set is read back. Nothing else that the modes stand for changes.
pub proof fn law_parity_read_back(modes: Modes, parity: Parity)
    ensures
        modes.with_parity(parity).spec_parity() == parity,
        modes.with_parity(parity).spec_data_bits() == modes.spec_data_bits(),
        modes.with_parity(parity).spec_flow_control() == modes.spec_flow_control(),
        modes.with_parity(parity).spec_stop_bits() == modes.spec_stop_bits(),
        modes.with_parity(parity).is_raw() == modes.is_raw(),
{
    let cflag = modes.c_cflag;
    lemma_bits_under_masks();
    lemma_with_bits(cflag, PARENB | PARODD, parity_bits(parity));
    lemma_with_bits(modes.c_iflag, INPCK | IGNPAR, check_bits(parity));
    assert(CSIZE & (PARENB | PARODD) == 0 && CRTSCTS & (PARENB | PARODD) == 0 && CSTOPB & (PARENB
        | PARODD) == 0 && CREAD & (PARENB | PARODD) == 0 && CLOCAL & (PARENB | PARODD) == 0 && (IXON
        | IXOFF) & (INPCK | IGNPAR) == 0 && (INLCR | IGNCR | ICRNL | IGNBRK) & (INPCK | IGNPAR)
        == 0) by (bit_vector);
    assert(with_bits(cflag, PARENB | PARODD, 0) & PARENB == 0 && with_bits(
        cflag,
        PARENB | PARODD,
        PARENB | PARODD,
    ) & PARENB != 0 && with_bits(cflag, PARENB | PARODD, PARENB | PARODD) & PARODD != 0
        && with_bits(cflag, PARENB | PARODD, PARENB) & PARENB != 0 && with_bits(
        cflag,
        PARENB | PARODD,
        PARENB,
    ) & PARODD == 0) by (bit_vector);
}

/// Stop bits that were set are read back as the other number of stop bits. Nothing else that the
/// modes stand for changes.
pub proof fn law_stop_bits_read_back_as_the_other(modes: Modes, stop_bits: StopBits)
    ensures
        modes.with_stop_bits(stop_bits).spec_stop_bits() == other_stop_bits(stop_bits),
        modes.with_stop_bits(stop_bits).spec_data_bits() == modes.spec_data_bits(),
        modes.with_stop_bits(stop_bits).spec_flow_control() == modes.spec_flow_control(),
        modes.with_stop_bits(stop_bits).spec_parity() == modes.spec_parity(),
        modes.with_stop_bits(stop_bits).is_raw() == modes.is_raw(),
{
    lemma_bits_under_masks();
    lemma_with_bits(modes.c_cflag, CSTOPB, stop_bits_written(stop_bits));
    assert(CSIZE & CSTOPB == 0 && CRTSCTS & CSTOPB == 0 && PARENB & CSTOPB == 0 && PARODD & CSTOPB
        == 0 && CREAD & CSTOPB == 0 && CLOCAL & CSTOPB == 0) by (bit_vector);
}

/// The set-up for binary access gives modes of binary access and keeps every line setting.
pub proof fn law_raw_keeps_settings(modes: Modes)
    ensures
        modes.raw().is_raw(),
        modes.raw().spec_data_bits() == modes.spec_data_bits(),
        modes.raw().spec_flow_control() == modes.spec_flow_control(),
        modes.raw().spec_parity() == modes.spec_parity(),
        modes.raw().spec_stop_bits() == modes.spec_stop_bits(),
{
    let cflag = modes.c_cflag;
    let iflag = modes.c_iflag;
    let oflag = modes.c_oflag;
    let lflag = modes.c_lflag;
    assert((CREAD | CLOCAL) & !(CREAD | CLOCAL) == 0 && CSIZE & (CREAD | CLOCAL) == 0 && CRTSCTS & (
    CREAD | CLOCAL) == 0 && PARENB & (CREAD | CLOCAL) == 0 && PARODD & (CREAD | CLOCAL) == 0
        && CSTOPB & (CREAD | CLOCAL) == 0 && (IXON | IXOFF) & (INLCR | IGNCR | ICRNL | IGNBRK)
        == 0) by (bit_vector);
    assert(forall|mask: u32| 0u32 & #[trigger] !mask == 0) by (bit_vector);
    lemma_with_bits(cflag, CREAD | CLOCAL, CREAD | CLOCAL);
    lemma_with_bits(iflag, INLCR | IGNCR | ICRNL | IGNBRK, 0);
    lemma_with_bits(oflag, OPOST, 0);
    lemma_with_bits(lflag, ICANON | ECHO | ECHOE | ECHOK | ECHONL | ISIG | IEXTEN, 0);
    assert(with_bits(cflag, CREAD | CLOCAL, CREAD | CLOCAL) & CREAD != 0 && with_bits(
        cflag,
        CREAD | CLOCAL,
        CREAD | CLOCAL,
    ) & CLOCAL != 0) by (bit_vector);
}

/// Any modes stand for some number of data bits.
pub proof fn law_data_bits_are_known(modes: Modes)
    ensures
        modes.spec_data_bits() is Some,
{
    let word = modes.c_cflag;
    assert(word & CSIZE == CS8 || word & CSIZE == CS7 || word & CSIZE == CS6 || word & CSIZE == CS5)
        by (bit_vector);
}

/// Of two values that are set one after the other, only the second counts.
pub proof fn law_last_setting_counts(
    modes: Modes,
    data_bits: (DataBits, DataBits),
    flow_control: (FlowControl, FlowControl),
    parity: (Parity, Parity),
    stop_bits: (StopBits, StopBits),
)
    ensures
        modes.with_data_bits(data_bits.0).with_data_bits(data_bits.1) == modes.with_data_bits(
            data_bits.1,
        ),
        modes.with_flow_control(flow_control.0).with_flow_control(flow_control.1)
            == modes.with_flow_control(flow_control.1),
        modes.with_parity(parity.0).with_parity(parity.1) == modes.with_parity(parity.1),
        modes.with_stop_bits(stop_bits.0).with_stop_bits(stop_bits.1) == modes.with_stop_bits(
            stop_bits.1,
        ),
{
    let cflag = modes.c_cflag;
    let iflag = modes.c_iflag;
    lemma_bits_under_masks();
    lemma_with_bits_twice(cflag, CSIZE, size_bits(data_bits.0), CSIZE, size_bits(data_bits.1));
    lemma_with_bits_twice(
        cflag,
        CRTSCTS,
        rts_bits(flow_control.0),
        CRTSCTS,
        rts_bits(flow_control.1),
    );
    lemma_with_bits_twice(
        iflag,
        IXON | IXOFF,
        xon_bits(flow_control.0),
        IXON | IXOFF,
        xon_bits(flow_control.1),
    );
    lemma_with_bits_twice(
        cflag,
        PARENB | PARODD,
        parity_bits(parity.0),
        PARENB | PARODD,
        parity_bits(parity.1),
    );
    lemma_with_bits_twice(
        iflag,
        INPCK | IGNPAR,
        check_bits(parity.0),
        INPCK | IGNPAR,
        check_bits(parity.1),
    );
    lemma_with_bits_twice(
        cflag,
        CSTOPB,
        stop_bits_written(stop_bits.0),
        CSTOPB,
        stop_bits_written(stop_bits.1),
    );
}

/// Different settings can be set in any order.
pub proof fn law_settings_commute(
    modes: Modes,
    data_bits: DataBits,
    flow_control: FlowControl,
    parity: Parity,
    stop_bits: StopBits,
)
    ensures
        modes.with_data_bits(data_bits).with_flow_control(flow_control) == modes.with_flow_control(
            flow_control,
        ).with_data_bits(data_bits),
        modes.with_data_bits(data_bits).with_parity(parity) == modes.with_parity(
            parity,
        ).with_data_bits(data_bits),
        modes.with_data_bits(data_bits).with_stop_bits(stop_bits) == modes.with_stop_bits(
            stop_bits,
        ).with_data_bits(data_bits),
        modes.with_flow_control(flow_control).with_parity(parity) == modes.with_parity(
            parity,
        ).with_flow_control(flow_control),
        modes.with_flow_control(flow_control).with_stop_bits(stop_bits) == modes.with_stop_bits(
            stop_bits,
        ).with_flow_control(flow_control),
        modes.with_parity(parity).with_stop_bits(stop_bits) == modes.with_stop_bits(
            stop_bits,
        ).with_parity(parity),
{
    let cflag = modes.c_cflag;
    let iflag = modes.c_iflag;
    let size = size_bits(data_bits);
    let rts = rts_bits(flow_control);
    let par = parity_bits(parity);
    let stop = stop_bits_written(stop_bits);
    lemma_bits_under_masks();
    assert(CSIZE & CRTSCTS == 0 && CSIZE & (PARENB | PARODD) == 0 && CSIZE & CSTOPB == 0 && CRTSCTS
        & (PARENB | PARODD) == 0 && CRTSCTS & CSTOPB == 0 && (PARENB | PARODD) & CSTOPB == 0 && (
    IXON | IXOFF) & (INPCK | IGNPAR) == 0) by (bit_vector);
    lemma_with_bits_twice(cflag, CSIZE, size, CRTSCTS, rts);
    lemma_with_bits_twice(cflag, CSIZE, size, PARENB | PARODD, par);
    lemma_with_bits_twice(cflag, CSIZE, size, CSTOPB, stop);
    lemma_with_bits_twice(cflag, CRTSCTS, rts, PARENB | PARODD, par);
    lemma_with_bits_twice(cflag, CRTSCTS, rts, CSTOPB, stop);
    lemma_with_bits_twice(cflag, PARENB | PARODD, par, CSTOPB, stop);
    lemma_with_bits_twice(
        iflag,
        IXON | IXOFF,
        xon_bits(flow_control),
        INPCK | IGNPAR,
        check_bits(parity),
    );
}

/// The set-up for binary access clears what processes input, output and lines, turns the receiver
/// on, and leaves modem lines alone; every bit besides those is as it was. No input mode is turned
/// on by it, so that all bits of a received byte are kept where they were before. Done twice it is
/// what it is done once.
pub proof fn law_binary_access_touches_only_its_bits(modes: Modes)
    ensures
        modes.raw().c_iflag & (INLCR | IGNCR | ICRNL | IGNBRK) == 0,
        modes.raw().c_iflag & !(INLCR | IGNCR | ICRNL | IGNBRK) == modes.c_iflag & !(INLCR | IGNCR
            | ICRNL | IGNBRK),
        modes.raw().c_iflag & !modes.c_iflag == 0,
        modes.raw().c_oflag & OPOST == 0,
        modes.raw().c_oflag & !OPOST == modes.c_oflag & !OPOST,
        modes.raw().c_cflag & (CREAD | CLOCAL) == CREAD | CLOCAL,
        modes.raw().c_cflag & !(CREAD | CLOCAL) == modes.c_cflag & !(CREAD | CLOCAL),
        modes.raw().c_lflag & (ICANON | ECHO | ECHOE | ECHOK | ECHONL | ISIG | IEXTEN) == 0,
        modes.raw().c_lflag & !(ICANON | ECHO | ECHOE | ECHOK | ECHONL | ISIG | IEXTEN)
            == modes.c_lflag & !(ICANON | ECHO | ECHOE | ECHOK | ECHONL | ISIG | IEXTEN),
        modes.raw().raw() == modes.raw(),
{
    let input = INLCR | IGNCR | ICRNL | IGNBRK;
    let local = ICANON | ECHO | ECHOE | ECHOK | ECHONL | ISIG | IEXTEN;
    let on = CREAD | CLOCAL;
    let iflag = modes.c_iflag;
    assert(forall|mask: u32| 0u32 & #[trigger] !mask == 0) by (bit_vector);
    assert(on & !on == 0 && ((iflag & !input) | 0) & !iflag == 0) by (bit_vector);
    lemma_with_bits(modes.c_iflag, input, 0);
    lemma_rest_is_kept(modes.c_iflag, input, 0);
    lemma_with_bits(modes.c_oflag, OPOST, 0);
    lemma_rest_is_kept(modes.c_oflag, OPOST, 0);
    lemma_with_bits(modes.c_cflag, on, on);
    lemma_rest_is_kept(modes.c_cflag, on, on);
    lemma_with_bits(modes.c_lflag, local, 0);
    lemma_rest_is_kept(modes.c_lflag, local, 0);
    lemma_with_bits_twice(modes.c_iflag, input, 0, input, 0);
    lemma_with_bits_twice(modes.c_oflag, OPOST, 0, OPOST, 0);
    lemma_with_bits_twice(modes.c_cflag, on, on, on, on);
    lemma_with_bits_twice(modes.c_lflag, local, 0, local, 0);
}

/// A number of data bits is the character size of that many bits, both where it is set and where it
/// is read. No other bit of the modes changes.
pub proof fn law_data_bits_are_the_character_size(modes: Modes, data_bits: DataBits)
    ensures
        data_bits == DataBits::Five ==> modes.with_data_bits(data_bits).c_cflag & CSIZE == CS5,
        data_bits == DataBits::Six ==> modes.with_data_bits(data_bits).c_cflag & CSIZE == CS6,
        data_bits == DataBits::Seven ==> modes.with_data_bits(data_bits).c_cflag & CSIZE == CS7,
        data_bits == DataBits::Eight ==> modes.with_data_bits(data_bits).c_cflag & CSIZE == CS8,
        modes.with_data_bits(data_bits).c_cflag & !CSIZE == modes.c_cflag & !CSIZE,
        modes.with_data_bits(data_bits).c_iflag == modes.c_iflag,
        modes.with_data_bits(data_bits).c_oflag == modes.c_oflag,
        modes.with_data_bits(data_bits).c_lflag == modes.c_lflag,
        modes.spec_data_bits() == Some(DataBits::Five) <==> modes.c_cflag & CSIZE == CS5,
        modes.spec_data_bits() == Some(DataBits::Six) <==> modes.c_cflag & CSIZE == CS6,
        modes.spec_data_bits() == Some(DataBits::Seven) <==> modes.c_cflag & CSIZE == CS7,
        modes.spec_data_bits() == Some(DataBits::Eight) <==> modes.c_cflag & CSIZE == CS8,
        modes.spec_data_bits() is Some,
{
    lemma_bits_under_masks();
    lemma_with_bits(modes.c_cflag, CSIZE, size_bits(data_bits));
    lemma_rest_is_kept(modes.c_cflag, CSIZE, size_bits(data_bits));
    law_data_bits_are_known(modes);
}

/// At most one kind of flow control is on after it was set: XON and XOFF together for software, RTS
/// and CTS for hardware, and neither for none. Hardware flow control is read where RTS and CTS are
/// on, whatever else is; software flow control where they are not, but XON or XOFF is. No other bit
/// of the modes changes.
pub proof fn law_flow_control_is_of_one_kind(modes: Modes, flow_control: FlowControl)
    ensures
        flow_control == FlowControl::Software ==> modes.with_flow_control(flow_control).c_iflag & (
        IXON | IXOFF) == IXON | IXOFF,
        flow_control != FlowControl::Software ==> modes.with_flow_control(flow_control).c_iflag & (
        IXON | IXOFF) == 0,
        modes.with_flow_control(flow_control).c_cflag & CRTSCTS != 0 <==> flow_control
            == FlowControl::Hardware,
        modes.with_flow_control(flow_control).c_iflag & !(IXON | IXOFF) == modes.c_iflag & !(IXON
            | IXOFF),
        modes.with_flow_control(flow_control).c_cflag & !CRTSCTS == modes.c_cflag & !CRTSCTS,
        modes.with_flow_control(flow_control).c_oflag == modes.c_oflag,
        modes.with_flow_control(flow_control).c_lflag == modes.c_lflag,
        modes.spec_flow_control() == FlowControl::Hardware <==> modes.c_cflag & CRTSCTS != 0,
        modes.spec_flow_control() == FlowControl::Software <==> modes.c_cflag & CRTSCTS == 0
            && modes.c_iflag & (IXON | IXOFF) != 0,
        modes.spec_flow_control() == FlowControl::NoFlowControl <==> modes.c_cflag & CRTSCTS == 0
            && modes.c_iflag & (IXON | IXOFF) == 0,
{
    lemma_bits_under_masks();
    lemma_with_bits(modes.c_cflag, CRTSCTS, rts_bits(flow_control));
    lemma_rest_is_kept(modes.c_cflag, CRTSCTS, rts_bits(flow_control));
    lemma_with_bits(modes.c_iflag, IXON | IXOFF, xon_bits(flow_control));
    lemma_rest_is_kept(modes.c_iflag, IXON | IXOFF, xon_bits(flow_control));
}

/// With a parity, parity is generated, odd or even, and checked on input; without one, it is not
/// generated, and parity errors are ignored. A parity is read by the same two bits. No other bit of
/// the modes changes.
pub proof fn law_parity_is_checked_where_there_is_one(modes: Modes, parity: Parity)
    ensures
        parity == Parity::NoParity ==> modes.with_parity(parity).c_cflag & (PARENB | PARODD) == 0,
        parity == Parity::Odd ==> modes.with_parity(parity).c_cflag & (PARENB | PARODD) == PARENB
            | PARODD,
        parity == Parity::Even ==> modes.with_parity(parity).c_cflag & (PARENB | PARODD) == PARENB,
        parity == Parity::NoParity ==> modes.with_parity(parity).c_iflag & (INPCK | IGNPAR)
            == IGNPAR,
        parity != Parity::NoParity ==> modes.with_parity(parity).c_iflag & (INPCK | IGNPAR)
            == INPCK,
        modes.with_parity(parity).c_cflag & !(PARENB | PARODD) == modes.c_cflag & !(PARENB
            | PARODD),
        modes.with_parity(parity).c_iflag & !(INPCK | IGNPAR) == modes.c_iflag & !(INPCK | IGNPAR),
        modes.with_parity(parity).c_oflag == modes.c_oflag,
        modes.with_parity(parity).c_lflag == modes.c_lflag,
        modes.spec_parity() == Parity::NoParity <==> modes.c_cflag & PARENB == 0,
        modes.spec_parity() == Parity::Odd <==> modes.c_cflag & PARENB != 0 && modes.c_cflag
            & PARODD != 0,
        modes.spec_parity() == Parity::Even <==> modes.c_cflag & PARENB != 0 && modes.c_cflag
            & PARODD == 0,
{
    lemma_bits_under_masks();
    lemma_with_bits(modes.c_cflag, PARENB | PARODD, parity_bits(parity));
    lemma_rest_is_kept(modes.c_cflag, PARENB | PARODD, parity_bits(parity));
    lemma_with_bits(modes.c_iflag, INPCK | IGNPAR, check_bits(parity));
    lemma_rest_is_kept(modes.c_iflag, INPCK | IGNPAR, check_bits(parity));
}

/// Stop bits are one bit of the modes: it is on after `One` was set and off after `Two`, and is read
/// as `Two` where it is on. No other bit of the modes changes.
pub proof fn law_stop_bits_are_one_bit(modes: Modes, stop_bits: StopBits)
    ensures
        modes.with_stop_bits(stop_bits).c_cflag & CSTOPB != 0 <==> stop_bits == StopBits::One,
        modes.with_stop_bits(stop_bits).c_cflag & !CSTOPB == modes.c_cflag & !CSTOPB,
        modes.with_stop_bits(stop_bits).c_iflag == modes.c_iflag,
        modes.with_stop_bits(stop_bits).c_oflag == modes.c_oflag,
        modes.with_stop_bits(stop_bits).c_lflag == modes.c_lflag,
        modes.spec_stop_bits() == StopBits::Two <==> modes.c_cflag & CSTOPB != 0,
        modes.spec_stop_bits() == StopBits::One <==> modes.c_cflag & CSTOPB == 0,
{
    lemma_bits_under_masks();
    lemma_with_bits(modes.c_cflag, CSTOPB, stop_bits_written(stop_bits));
    lemma_rest_is_kept(modes.c_cflag, CSTOPB, stop_bits_written(stop_bits));
}

} // verus!
