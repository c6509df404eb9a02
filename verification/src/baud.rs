//! Baud rates and the speed codes by which a terminal stores them.
use crate::settings::BaudRate;
use vstd::prelude::*;

verus! {

pub const B50: u32 = 0o000001;

pub const B75: u32 = 0o000002;

pub const B110: u32 = 0o000003;

pub const B134: u32 = 0o000004;

pub const B150: u32 = 0o000005;

pub const B200: u32 = 0o000006;

pub const B300: u32 = 0o000007;

pub const B600: u32 = 0o000010;

pub const B1200: u32 = 0o000011;

pub const B1800: u32 = 0o000012;

pub const B2400: u32 = 0o000013;

pub const B4800: u32 = 0o000014;

pub const B9600: u32 = 0o000015;

pub const B19200: u32 = 0o000016;

pub const B38400: u32 = 0o000017;

pub const B57600: u32 = 0o010001;

pub const B115200: u32 = 0o010002;

pub const B230400: u32 = 0o010003;

pub const B460800: u32 = 0o010004;

pub const B500000: u32 = 0o010005;

pub const B576000: u32 = 0o010006;

pub const B921600: u32 = 0o010007;

pub const B1000000: u32 = 0o010010;

pub const B1152000: u32 = 0o010011;

pub const B1500000: u32 = 0o010012;

pub const B2000000: u32 = 0o010013;

pub const B2500000: u32 = 0o010014;

pub const B3000000: u32 = 0o010015;

pub const B3500000: u32 = 0o010016;

pub const B4000000: u32 = 0o010017;

/// The rates that a port can have, in bits per second, from the slowest to the fastest.
pub open spec fn rates() -> Seq<u32> {
    seq![
        50,
        75,
        110,
        134,
        150,
        200,
        300,
        600,
        1200,
        1800,
        2400,
        4800,
        9600,
        19200,
        38400,
        57600,
        115200,
        230400,
        460800,
        500000,
        576000,
        921600,
        1000000,
        1152000,
        1500000,
        2000000,
        2500000,
        3000000,
        3500000,
        4000000,
    ]
}

/// The codes of the rates.
pub open spec fn is_speed(code: u32) -> bool {
    B50 <= code <= B38400 || B57600 <= code <= B4000000
}

/// The place in [`rates`] of the rate that has this code: the first fifteen rates are numbered from
/// [`B50`] on, the others from [`B57600`] on.
pub open spec fn place_of(code: u32) -> int {
    if code <= B38400 {
        code - B50
    } else {
        code - B57600 + 15
    }
}

/// The canonical way to write a rate.
pub open spec fn canonical(rate: u32) -> BaudRate {
    if rate == 110 {
        BaudRate::Baud110
    } else if rate == 300 {
        BaudRate::Baud300
    } else if rate == 600 {
        BaudRate::Baud600
    } else if rate == 1200 {
        BaudRate::Baud1200
    } else if rate == 2400 {
        BaudRate::Baud2400
    } else if rate == 4800 {
        BaudRate::Baud4800
    } else if rate == 9600 {
        BaudRate::Baud9600
    } else if rate == 19200 {
        BaudRate::Baud19200
    } else if rate == 38400 {
        BaudRate::Baud38400
    } else if rate == 57600 {
        BaudRate::Baud57600
    } else if rate == 115200 {
        BaudRate::Baud115200
    } else {
        BaudRate::BaudOther(rate)
    }
}

/// A baud rate is canonical where it is written in the canonical way: `Baud9600` is,
/// `BaudOther(9600)` is not.
pub open spec fn is_canonical(baud_rate: BaudRate) -> bool {
    baud_rate == canonical(baud_rate.bits_per_second())
}

/// The code of a rate.
pub open spec fn code_of_rate(rate: u32) -> Option<u32> {
    if rate == 50 {
        Some(B50)
    } else if rate == 75 {
        Some(B75)
    } else if rate == 110 {
        Some(B110)
    } else if rate == 134 {
        Some(B134)
    } else if rate == 150 {
        Some(B150)
    } else if rate == 200 {
        Some(B200)
    } else if rate == 300 {
        Some(B300)
    } else if rate == 600 {
        Some(B600)
    } else if rate == 1200 {
        Some(B1200)
    } else if rate == 1800 {
        Some(B1800)
    } else if rate == 2400 {
        Some(B2400)
    } else if rate == 4800 {
        Some(B4800)
    } else if rate == 9600 {
        Some(B9600)
    } else if rate == 19200 {
        Some(B19200)
    } else if rate == 38400 {
        Some(B38400)
    } else if rate == 57600 {
        Some(B57600)
    } else if rate == 115200 {
        Some(B115200)
    } else if rate == 230400 {
        Some(B230400)
    } else if rate == 460800 {
        Some(B460800)
    } else if rate == 500000 {
        Some(B500000)
    } else if rate == 576000 {
        Some(B576000)
    } else if rate == 921600 {
        Some(B921600)
    } else if rate == 1000000 {
        Some(B1000000)
    } else if rate == 1152000 {
        Some(B1152000)
    } else if rate == 1500000 {
        Some(B1500000)
    } else if rate == 2000000 {
        Some(B2000000)
    } else if rate == 2500000 {
        Some(B2500000)
    } else if rate == 3000000 {
        Some(B3000000)
    } else if rate == 3500000 {
        Some(B3500000)
    } else if rate == 4000000 {
        Some(B4000000)
    } else {
        None
    }
}

/// The code under which a terminal stores a baud rate. There is none where the rate does not exist,
/// or is not written in the canonical way.
pub open spec fn code_of(baud_rate: BaudRate) -> Option<u32> {
    if is_canonical(baud_rate) {
        code_of_rate(baud_rate.bits_per_second())
    } else {
        None
    }
}

/// The baud rate that a terminal with these two speeds runs at. There is none where the two differ,
/// or are no code of a baud rate.
pub open spec fn rate_of_speeds(output: u32, input: u32) -> Option<BaudRate> {
    if output == input && is_speed(output) {
        Some(canonical(rates()[place_of(output)]))
    } else {
        None
    }
}

/// The code under which a terminal stores a baud rate. There is none where the rate does not
/// exist, or is not written in the canonical way.
pub fn speed_code(baud_rate: BaudRate) -> (code: Option<u32>)
    ensures
        code == code_of(baud_rate),
{
    match baud_rate {
        BaudRate::BaudOther(50) => Some(B50),
        BaudRate::BaudOther(75) => Some(B75),
        BaudRate::Baud110 => Some(B110),
        BaudRate::BaudOther(134) => Some(B134),
        BaudRate::BaudOther(150) => Some(B150),
        BaudRate::BaudOther(200) => Some(B200),
        BaudRate::Baud300 => Some(B300),
        BaudRate::Baud600 => Some(B600),
        BaudRate::Baud1200 => Some(B1200),
        BaudRate::BaudOther(1800) => Some(B1800),
        BaudRate::Baud2400 => Some(B2400),
        BaudRate::Baud4800 => Some(B4800),
        BaudRate::Baud9600 => Some(B9600),
        BaudRate::Baud19200 => Some(B19200),
        BaudRate::Baud38400 => Some(B38400),
        BaudRate::Baud57600 => Some(B57600),
        BaudRate::Baud115200 => Some(B115200),
        BaudRate::BaudOther(230400) => Some(B230400),
        BaudRate::BaudOther(460800) => Some(B460800),
        BaudRate::BaudOther(500000) => Some(B500000),
        BaudRate::BaudOther(576000) => Some(B576000),
        BaudRate::BaudOther(921600) => Some(B921600),
        BaudRate::BaudOther(1000000) => Some(B1000000),
        BaudRate::BaudOther(1152000) => Some(B1152000),
        BaudRate::BaudOther(1500000) => Some(B1500000),
        BaudRate::BaudOther(2000000) => Some(B2000000),
        BaudRate::BaudOther(2500000) => Some(B2500000),
        BaudRate::BaudOther(3000000) => Some(B3000000),
        BaudRate::BaudOther(3500000) => Some(B3500000),
        BaudRate::BaudOther(4000000) => Some(B4000000),
        BaudRate::BaudOther(_) => None,
    }
}

/// The baud rate of a terminal with these output and input speeds. There is none where the two
/// differ, or are no code of a baud rate.
pub fn baud_rate_of_speeds(output: u32, input: u32) -> (baud_rate: Option<BaudRate>)
    ensures
        baud_rate == rate_of_speeds(output, input),
{
    if output != input {
        return None;
    }
    match output {
        B50 => Some(BaudRate::BaudOther(50)),
        B75 => Some(BaudRate::BaudOther(75)),
        B110 => Some(BaudRate::Baud110),
        B134 => Some(BaudRate::BaudOther(134)),
        B150 => Some(BaudRate::BaudOther(150)),
        B200 => Some(BaudRate::BaudOther(200)),
        B300 => Some(BaudRate::Baud300),
        B600 => Some(BaudRate::Baud600),
        B1200 => Some(BaudRate::Baud1200),
        B1800 => Some(BaudRate::BaudOther(1800)),
        B2400 => Some(BaudRate::Baud2400),
        B4800 => Some(BaudRate::Baud4800),
        B9600 => Some(BaudRate::Baud9600),
        B19200 => Some(BaudRate::Baud19200),
        B38400 => Some(BaudRate::Baud38400),
        B57600 => Some(BaudRate::Baud57600),
        B115200 => Some(BaudRate::Baud115200),
        B230400 => Some(BaudRate::BaudOther(230400)),
        B460800 => Some(BaudRate::BaudOther(460800)),
        B500000 => Some(BaudRate::BaudOther(500000)),
        B576000 => Some(BaudRate::BaudOther(576000)),
        B921600 => Some(BaudRate::BaudOther(921600)),
        B1000000 => Some(BaudRate::BaudOther(1000000)),
        B1152000 => Some(BaudRate::BaudOther(1152000)),
        B1500000 => Some(BaudRate::BaudOther(1500000)),
        B2000000 => Some(BaudRate::BaudOther(2000000)),
        B2500000 => Some(BaudRate::BaudOther(2500000)),
        B3000000 => Some(BaudRate::BaudOther(3000000)),
        B3500000 => Some(BaudRate::BaudOther(3500000)),
        B4000000 => Some(BaudRate::BaudOther(4000000)),
        _ => None,
    }
}

/// The rates that a port can be set to, from the slowest to the fastest.
pub fn available_baud_rates() -> (list: Vec<u32>)
    ensures
        list@ == rates(),
{
    vec![
        50, 75, 110, 134, 150, 200, 300, 600, 1200, 1800, 2400, 4800,
        9600, 19200, 38400, 57600, 115200, 230400, 460800, 500000, 576000,
        921600, 1000000, 1152000, 1500000, 2000000, 2500000, 3000000, 3500000, 4000000,
    ]
}

/// A terminal runs at a baud rate exactly where both of its speeds are the code of that baud rate.
pub proof fn law_code_is_read_back(baud_rate: BaudRate, output: u32, input: u32)
    ensures
        rate_of_speeds(output, input) == Some(baud_rate) <==> output == input && code_of(baud_rate)
            == Some(output),
{
}

/// The available rates are exactly those that can be set, each written in the canonical way. They
/// are listed in ascending order, none of them twice.
pub proof fn law_available_rates_are_settable(rate: u32)
    ensures
        rates().contains(rate) <==> code_of(canonical(rate)) is Some,
        canonical(rate).bits_per_second() == rate,
        forall|i: int, j: int| 0 <= i < j < rates().len() ==> rates()[i] < rates()[j],
{
    if let Some(code) = code_of_rate(rate) {
        assert(rates()[place_of(code)] == rate);
    }
}

/// A baud rate that is not written in the canonical way cannot be set.
pub proof fn law_only_canonical_rates_are_settable(baud_rate: BaudRate)
    requires
        code_of(baud_rate) is Some,
    ensures
        baud_rate == canonical(baud_rate.bits_per_second()),
        rates().contains(baud_rate.bits_per_second()),
{
    law_available_rates_are_settable(baud_rate.bits_per_second());
}

/// A baud rate is stored under the code that is named after it, and only under that. The common
/// rates are written by their own variants, and no other way.
pub proof fn law_rates_have_the_codes_of_their_name(baud_rate: BaudRate, code: u32)
    ensures
        code_of(baud_rate) == Some(code) <==> {
            ||| baud_rate == BaudRate::BaudOther(50) && code == B50
            ||| baud_rate == BaudRate::BaudOther(75) && code == B75
            ||| baud_rate == BaudRate::Baud110 && code == B110
            ||| baud_rate == BaudRate::BaudOther(134) && code == B134
            ||| baud_rate == BaudRate::BaudOther(150) && code == B150
            ||| baud_rate == BaudRate::BaudOther(200) && code == B200
            ||| baud_rate == BaudRate::Baud300 && code == B300
            ||| baud_rate == BaudRate::Baud600 && code == B600
            ||| baud_rate == BaudRate::Baud1200 && code == B1200
            ||| baud_rate == BaudRate::BaudOther(1800) && code == B1800
            ||| baud_rate == BaudRate::Baud2400 && code == B2400
            ||| baud_rate == BaudRate::Baud4800 && code == B4800
            ||| baud_rate == BaudRate::Baud9600 && code == B9600
            ||| baud_rate == BaudRate::Baud19200 && code == B19200
            ||| baud_rate == BaudRate::Baud38400 && code == B38400
            ||| baud_rate == BaudRate::Baud57600 && code == B57600
            ||| baud_rate == BaudRate::Baud115200 && code == B115200
            ||| baud_rate == BaudRate::BaudOther(230400) && code == B230400
            ||| baud_rate == BaudRate::BaudOther(460800) && code == B460800
            ||| baud_rate == BaudRate::BaudOther(500000) && code == B500000
            ||| baud_rate == BaudRate::BaudOther(576000) && code == B576000
            ||| baud_rate == BaudRate::BaudOther(921600) && code == B921600
            ||| baud_rate == BaudRate::BaudOther(1000000) && code == B1000000
            ||| baud_rate == BaudRate::BaudOther(1152000) && code == B1152000
            ||| baud_rate == BaudRate::BaudOther(1500000) && code == B1500000
            ||| baud_rate == BaudRate::BaudOther(2000000) && code == B2000000
            ||| baud_rate == BaudRate::BaudOther(2500000) && code == B2500000
            ||| baud_rate == BaudRate::BaudOther(3000000) && code == B3000000
            ||| baud_rate == BaudRate::BaudOther(3500000) && code == B3500000
            ||| baud_rate == BaudRate::BaudOther(4000000) && code == B4000000
        },
{
}

/// A terminal with these speeds runs at the rate whose code both of them are, where they are equal
/// and such a rate exists, and at no rate otherwise.
pub proof fn law_rate_is_that_of_both_speeds(output: u32, input: u32)
    ensures
        rate_of_speeds(output, input) matches Some(b) ==> output == input && code_of(b) == Some(
            output,
        ),
        output != input ==> rate_of_speeds(output, input) is None,
        rate_of_speeds(output, input) is None ==> output != input || forall|b: BaudRate|
            code_of(b) != Some(output),
{
    if let Some(b) = rate_of_speeds(output, input) {
        law_code_is_read_back(b, output, input);
    } else if output == input {
        assert forall|b: BaudRate| code_of(b) != Some(output) by {
            law_code_is_read_back(b, output, input);
        }
    }
}

/// Faster rates have greater codes.
pub proof fn law_codes_grow_with_the_rate(slower: BaudRate, faster: BaudRate)
    requires
        code_of(slower) is Some,
        code_of(faster) is Some,
    ensures
        slower.bits_per_second() < faster.bits_per_second() <==> code_of(slower)->0 < code_of(
            faster,
        )->0,
{
}

/// These are the available rates.
pub proof fn law_available_rates_are_these(rate: u32)
    ensures
        rates().len() == 30,
        rates().contains(rate) <==> {
            ||| rate == 50
            ||| rate == 75
            ||| rate == 110
            ||| rate == 134
            ||| rate == 150
            ||| rate == 200
            ||| rate == 300
            ||| rate == 600
            ||| rate == 1200
            ||| rate == 1800
            ||| rate == 2400
            ||| rate == 4800
            ||| rate == 9600
            ||| rate == 19200
            ||| rate == 38400
            ||| rate == 57600
            ||| rate == 115200
            ||| rate == 230400
            ||| rate == 460800
            ||| rate == 500000
            ||| rate == 576000
            ||| rate == 921600
            ||| rate == 1000000
            ||| rate == 1152000
            ||| rate == 1500000
            ||| rate == 2000000
            ||| rate == 2500000
            ||| rate == 3000000
            ||| rate == 3500000
            ||| rate == 4000000
        },
{
    law_available_rates_are_settable(rate);
}

} // verus!
