//! The attributes of a terminal, as the `termios` crate holds them.
use crate::modes::{
    Modes, CLOCAL, CREAD, CRTSCTS, CSIZE, CSTOPB, ECHO, ECHOE, ECHOK, ECHONL, ICANON, ICRNL, IEXTEN,
    IGNBRK, IGNCR, IGNPAR, INLCR, INPCK, ISIG, IXOFF, IXON, OPOST, PARENB, PARODD,
};
use crate::settings::{BaudRate, DataBits, FlowControl, Parity, StopBits};
use crate::{baud, modes};
use termios::Termios;
use vstd::prelude::*;

verus! {

/// The number of control characters of a terminal.
pub const NCCS: usize = 32;

/// The place of the control character that says for how long a read waits.
pub const VTIME: usize = 5;

/// The place of the control character that says how many bytes a read waits for.
pub const VMIN: usize = 6;

/// The bits of `c_cflag` that hold the output speed.
pub const CBAUD: u32 = 0o010017;

/// The bits of `c_cflag` that hold an input speed of its own.
pub const CIBAUD: u32 = 0o02003600000;

/// The bits of `c_iflag` that are input modes.
pub const INPUT_MODES: u32 = 0o077777;

/// The attributes of a terminal: `Termios` of the `termios` crate.
#[verifier::external_type_specification]
#[verifier::external_body]
pub struct ExTermios(termios::Termios);

/// The error of a failed system call: `Error` of `std::io`.
#[verifier::external_type_specification]
#[verifier::external_body]
pub struct ExIoError(std::io::Error);

/// What the field `c_iflag` holds.
pub uninterp spec fn input_modes(attributes: Termios) -> u32;

/// What the field `c_oflag` holds.
pub uninterp spec fn output_modes(attributes: Termios) -> u32;

/// What the field `c_cflag` holds.
pub uninterp spec fn control_modes(attributes: Termios) -> u32;

/// What the field `c_lflag` holds.
pub uninterp spec fn local_modes(attributes: Termios) -> u32;

/// What the field `c_cc` holds.
pub uninterp spec fn control_characters(attributes: Termios) -> Seq<u8>;

/// What the field `c_line` holds.
pub uninterp spec fn line_discipline(attributes: Termios) -> u8;

/// What the fields `c_ispeed` and `c_ospeed` hold.
pub uninterp spec fn stored_speeds(attributes: Termios) -> (u32, u32);

/// What `cfgetospeed` returns.
pub uninterp spec fn output_speed(attributes: Termios) -> u32;

/// What `cfgetispeed` returns.
pub uninterp spec fn input_speed(attributes: Termios) -> u32;

/// The failure that `cfsetspeed` returns for these attributes and this speed, by the error number
/// that it carries, if any. There is none where the call succeeds.
pub uninterp spec fn speed_refusal(attributes: Termios, code: u32) -> Option<Option<i32>>;

/// What `raw_os_error` returns.
pub uninterp spec fn error_number(failure: std::io::Error) -> Option<i32>;

/// The four mode words of the attributes.
pub open spec fn modes_of(attributes: Termios) -> Modes {
    Modes {
        c_iflag: input_modes(attributes),
        c_oflag: output_modes(attributes),
        c_cflag: control_modes(attributes),
        c_lflag: local_modes(attributes),
    }
}

/// The baud rate of the attributes.
pub open spec fn baud_rate_of(attributes: Termios) -> Option<BaudRate> {
    baud::rate_of_speeds(output_speed(attributes), input_speed(attributes))
}

/// Whether two modes agree in the bits that do not belong to the speeds.
pub open spec fn same_but_speed(before: Modes, after: Modes) -> bool {
    &&& after.c_iflag & INPUT_MODES == before.c_iflag & INPUT_MODES
    &&& after.c_oflag == before.c_oflag
    &&& after.c_cflag & !(CBAUD | CIBAUD) == before.c_cflag & !(CBAUD | CIBAUD)
    &&& after.c_lflag == before.c_lflag
}

/// Whether two modes agree in the bits in which a terminal may keep its speeds.
pub open spec fn same_speed_bits(before: Modes, after: Modes) -> bool {
    &&& after.c_iflag & !INPUT_MODES == before.c_iflag & !INPUT_MODES
    &&& after.c_cflag & (CBAUD | CIBAUD) == before.c_cflag & (CBAUD | CIBAUD)
}

/// Whether two attributes hold the same in every field.
pub open spec fn same_fields(first: Termios, second: Termios) -> bool {
    &&& modes_of(first) == modes_of(second)
    &&& control_characters(first) == control_characters(second)
    &&& line_discipline(first) == line_discipline(second)
    &&& stored_speeds(first) == stored_speeds(second)
}

/// Whether the attributes are made of their fields and of nothing else: no others hold the same in
/// every field.
pub open spec fn made_of_fields(attributes: Termios) -> bool {
    forall|other: Termios| #[trigger] same_fields(attributes, other) ==> other == attributes
}

/// Whether the attributes got these modes, and nothing else of them changed.
pub open spec fn only_modes_changed(before: Termios, after: Termios, modes: Modes) -> bool {
    &&& modes_of(after) == modes
    &&& control_characters(after) == control_characters(before)
    &&& line_discipline(after) == line_discipline(before)
    &&& stored_speeds(after) == stored_speeds(before)
    &&& output_speed(after) == output_speed(before)
    &&& input_speed(after) == input_speed(before)
    &&& made_of_fields(after)
}

/// Whether nothing of the attributes changed but what belongs to the speeds.
pub open spec fn only_speeds_differ(before: Termios, after: Termios) -> bool {
    &&& same_but_speed(modes_of(before), modes_of(after))
    &&& control_characters(after) == control_characters(before)
    &&& line_discipline(after) == line_discipline(before)
}

/// Whether the attributes run at this speed in both directions, and nothing else of them changed.
pub open spec fn only_speed_changed(before: Termios, after: Termios, code: u32) -> bool {
    &&& output_speed(after) == code
    &&& input_speed(after) == code
    &&& only_speeds_differ(before, after)
}

/// `cfgetospeed` of the `termios` crate reads the output speed of the attributes, and nothing but
/// the attributes.
pub assume_specification[ termios::cfgetospeed ](termios: &termios::Termios) -> (speed:
    termios::speed_t)
    ensures
        speed == output_speed(*termios),
;

/// `cfgetispeed` of the `termios` crate reads the input speed of the attributes, and nothing but
/// the attributes.
pub assume_specification[ termios::cfgetispeed ](termios: &termios::Termios) -> (speed:
    termios::speed_t)
    ensures
        speed == input_speed(*termios),
;

/// `cfsetspeed` of the `termios` crate, called with one of the speed constants. It is given the
/// attributes and the speed and no descriptor, so whether it fails, and with which error number,
/// depends on these two alone. Where it succeeds, both speeds read back as the constant. It writes
/// only what is needed for that: whatever it returns, all but what belongs to the speeds stays as
/// it is. It is not said for which attributes it fails, nor what the speeds are then: that is up to
/// the C library.
pub assume_specification[ termios::cfsetspeed ](
    termios: &mut termios::Termios,
    speed: termios::speed_t,
) -> (result: std::io::Result<()>)
    requires
        baud::is_speed(speed),
    ensures
        result is Ok <==> speed_refusal(*old(termios), speed) is None,
        result matches Err(e) ==> speed_refusal(*old(termios), speed) == Some(error_number(e)),
        result is Ok ==> output_speed(*final(termios)) == speed && input_speed(*final(termios))
            == speed,
        only_speeds_differ(*old(termios), *final(termios)),
;

/// `raw_os_error` of `std::io::Error` gives the error number of the operating system that the error
/// was made from, if it was made from one.
pub assume_specification[ std::io::Error::raw_os_error ](failure: &std::io::Error) -> (errno:
    Option<i32>)
    ensures
        errno == error_number(*failure),
;

/// Reads the fields `c_iflag`, `c_oflag`, `c_cflag` and `c_lflag` of `Termios`, through its `Deref`.
#[verifier::external_body]
pub(crate) fn read_modes(attributes: &Termios) -> (modes: Modes)
    ensures
        modes.c_iflag == input_modes(*attributes),
        modes.c_oflag == output_modes(*attributes),
        modes.c_cflag == control_modes(*attributes),
        modes.c_lflag == local_modes(*attributes),
{
    Modes {
        c_iflag: attributes.c_iflag,
        c_oflag: attributes.c_oflag,
        c_cflag: attributes.c_cflag,
        c_lflag: attributes.c_lflag,
    }
}

/// Writes the fields `c_iflag`, `c_oflag`, `c_cflag` and `c_lflag` of `Termios`, through its
/// `DerefMut`. The other fields, `c_line`, `c_cc`, `c_ispeed` and `c_ospeed`, stay as they are, and
/// there are no more than these eight. `cfgetospeed` and `cfgetispeed` read as before where the bits
/// in which Linux keeps speeds do: the speed bits, which the `termios` crate lists among those of
/// `c_cflag`, and the bits of `c_iflag` that are no input modes. Nothing is said of the speeds where
/// those bits change.
#[verifier::external_body]
pub(crate) fn write_modes(attributes: &mut Termios, modes: Modes)
    ensures
        modes_of(*final(attributes)) == modes,
        control_characters(*final(attributes)) == control_characters(*old(attributes)),
        line_discipline(*final(attributes)) == line_discipline(*old(attributes)),
        stored_speeds(*final(attributes)) == stored_speeds(*old(attributes)),
        made_of_fields(*final(attributes)),
        same_speed_bits(modes_of(*old(attributes)), modes) ==> output_speed(*final(attributes))
            == output_speed(*old(attributes)) && input_speed(*final(attributes)) == input_speed(
            *old(attributes),
        ),
{
    attributes.c_iflag = modes.c_iflag;
    attributes.c_oflag = modes.c_oflag;
    attributes.c_cflag = modes.c_cflag;
    attributes.c_lflag = modes.c_lflag;
}

/// Writes one place of the array field `c_cc` of `Termios`, which has [`NCCS`] places, through its
/// `DerefMut`. The other places and the other seven fields, and so the modes and the speeds, stay as
/// they are.
#[verifier::external_body]
pub(crate) fn write_control_character(attributes: &mut Termios, place: usize, character: u8)
    requires
        place < NCCS,
    ensures
        control_characters(*final(attributes)).len() == NCCS,
        control_characters(*final(attributes))[place as int] == character,
        forall|other: int|
            0 <= other < NCCS && other != place ==> control_characters(*final(attributes))[other]
                == control_characters(*old(attributes))[other],
        modes_of(*final(attributes)) == modes_of(*old(attributes)),
        line_discipline(*final(attributes)) == line_discipline(*old(attributes)),
        stored_speeds(*final(attributes)) == stored_speeds(*old(attributes)),
        made_of_fields(*final(attributes)),
        output_speed(*final(attributes)) == output_speed(*old(attributes)),
        input_speed(*final(attributes)) == input_speed(*old(attributes)),
{
    attributes.c_cc[place] = character;
}

/// The `==` of `Termios`, which the `termios` crate derives: it compares every field.
#[verifier::external_body]
pub(crate) fn same_attributes(first: &Termios, second: &Termios) -> (same: bool)
    ensures
        same == (*first == *second),
{
    first == second
}

/// Whether the attributes are those of binary access: nothing is processed, and a read waits for
/// nothing.
pub open spec fn is_raw(attributes: Termios) -> bool {
    &&& modes_of(attributes).is_raw()
    &&& control_characters(attributes).len() == NCCS
    &&& control_characters(attributes)[VMIN as int] == 0
    &&& control_characters(attributes)[VTIME as int] == 0
}

/// Whether the attributes were set up for binary access, and nothing else of them changed.
pub open spec fn made_raw(before: Termios, after: Termios) -> bool {
    &&& is_raw(after)
    &&& modes_of(after) == modes_of(before).raw()
    &&& forall|other: int|
        0 <= other < NCCS && other != VMIN && other != VTIME ==> control_characters(after)[other]
            == control_characters(before)[other]
    &&& line_discipline(after) == line_discipline(before)
    &&& stored_speeds(after) == stored_speeds(before)
    &&& output_speed(after) == output_speed(before)
    &&& input_speed(after) == input_speed(before)
    &&& made_of_fields(after)
}

/// Sets the attributes of a terminal up for binary access.
pub fn set_raw(attributes: &mut Termios)
    ensures
        made_raw(*old(attributes), *final(attributes)),
{
    let mut modes = read_modes(attributes);
    modes.set_raw();
    proof {
        lemma_settings_keep_speed_bits(modes_of(*attributes));
        modes::law_raw_keeps_settings(modes_of(*attributes));
    }
    write_modes(attributes, modes);
    write_control_character(attributes, VMIN, 0);
    write_control_character(attributes, VTIME, 0);
}

/// No line setting, and no set-up for binary access, touches the bits in which a terminal may keep
/// its speeds.
pub(crate) proof fn lemma_settings_keep_speed_bits(modes: Modes)
    ensures
        same_speed_bits(modes, modes.raw()),
        forall|d: DataBits| same_speed_bits(modes, #[trigger] modes.with_data_bits(d)),
        forall|f: FlowControl| same_speed_bits(modes, #[trigger] modes.with_flow_control(f)),
        forall|p: Parity| same_speed_bits(modes, #[trigger] modes.with_parity(p)),
        forall|s: StopBits| same_speed_bits(modes, #[trigger] modes.with_stop_bits(s)),
{
    let cflag = modes.c_cflag;
    let iflag = modes.c_iflag;
    let speed = CBAUD | CIBAUD;
    let rest = !INPUT_MODES;
    assert(speed & (CREAD | CLOCAL) == 0 && speed & CSIZE == 0 && speed & CRTSCTS == 0 && speed & (
    PARENB | PARODD) == 0 && speed & CSTOPB == 0 && (CREAD | CLOCAL) & !(CREAD | CLOCAL) == 0)
        by (bit_vector)
        requires
            speed == CBAUD | CIBAUD,
    ;
    assert(rest & (INLCR | IGNCR | ICRNL | IGNBRK) == 0 && rest & (IXON | IXOFF) == 0 && rest & (
    INPCK | IGNPAR) == 0 && 0u32 & !(INLCR | IGNCR | ICRNL | IGNBRK) == 0) by (bit_vector)
        requires
            rest == !INPUT_MODES,
    ;
    modes::lemma_bits_under_masks();
    modes::lemma_with_bits(cflag, CREAD | CLOCAL, CREAD | CLOCAL);
    modes::lemma_with_bits(iflag, INLCR | IGNCR | ICRNL | IGNBRK, 0);
    assert forall|d: DataBits| same_speed_bits(modes, #[trigger] modes.with_data_bits(d)) by {
        modes::lemma_with_bits(cflag, CSIZE, modes::size_bits(d));
    }
    assert forall|f: FlowControl| same_speed_bits(modes, #[trigger] modes.with_flow_control(f)) by {
        modes::lemma_with_bits(cflag, CRTSCTS, modes::rts_bits(f));
        modes::lemma_with_bits(iflag, IXON | IXOFF, modes::xon_bits(f));
    }
    assert forall|p: Parity| same_speed_bits(modes, #[trigger] modes.with_parity(p)) by {
        modes::lemma_with_bits(cflag, PARENB | PARODD, modes::parity_bits(p));
        modes::lemma_with_bits(iflag, INPCK | IGNPAR, modes::check_bits(p));
    }
    assert forall|s: StopBits| same_speed_bits(modes, #[trigger] modes.with_stop_bits(s)) by {
        modes::lemma_with_bits(cflag, CSTOPB, modes::stop_bits_written(s));
    }
}

/// A change of the speeds keeps every line setting, and binary access.
pub proof fn law_speed_keeps_settings(before: Termios, after: Termios)
    requires
        only_speeds_differ(before, after),
    ensures
        modes_of(after).spec_data_bits() == modes_of(before).spec_data_bits(),
        modes_of(after).spec_flow_control() == modes_of(before).spec_flow_control(),
        modes_of(after).spec_parity() == modes_of(before).spec_parity(),
        modes_of(after).spec_stop_bits() == modes_of(before).spec_stop_bits(),
        is_raw(after) == is_raw(before),
{
    let old_cflag = control_modes(before);
    let new_cflag = control_modes(after);
    let old_iflag = input_modes(before);
    let new_iflag = input_modes(after);
    assert(new_cflag & CSIZE == old_cflag & CSIZE && new_cflag & CRTSCTS == old_cflag & CRTSCTS
        && new_cflag & PARENB == old_cflag & PARENB && new_cflag & PARODD == old_cflag & PARODD
        && new_cflag & CSTOPB == old_cflag & CSTOPB && new_cflag & CREAD == old_cflag & CREAD
        && new_cflag & CLOCAL == old_cflag & CLOCAL) by (bit_vector)
        requires
            new_cflag & !(CBAUD | CIBAUD) == old_cflag & !(CBAUD | CIBAUD),
    ;
    assert(new_iflag & (IXON | IXOFF) == old_iflag & (IXON | IXOFF) && new_iflag & (INLCR | IGNCR
        | ICRNL | IGNBRK) == old_iflag & (INLCR | IGNCR | ICRNL | IGNBRK)) by (bit_vector)
        requires
            new_iflag & INPUT_MODES == old_iflag & INPUT_MODES,
    ;
}

/// The set-up of attributes for binary access: a read waits for no byte and for no time, input and
/// output are not processed, the receiver is on and modem lines are ignored. Every other bit, every
/// other control character, the line discipline and the speeds are as they were.
pub proof fn law_binary_access_keeps_all_else(before: Termios, after: Termios)
    requires
        made_raw(before, after),
    ensures
        control_characters(after)[VMIN as int] == 0,
        control_characters(after)[VTIME as int] == 0,
        forall|place: int|
            0 <= place < 32 && place != VMIN && place != VTIME ==> (#[trigger] control_characters(
                after,
            )[place]) == control_characters(before)[place],
        input_modes(after) & (INLCR | IGNCR | ICRNL | IGNBRK) == 0,
        input_modes(after) & !(INLCR | IGNCR | ICRNL | IGNBRK) == input_modes(before) & !(INLCR
            | IGNCR | ICRNL | IGNBRK),
        input_modes(after) & !input_modes(before) == 0,
        output_modes(after) & OPOST == 0,
        output_modes(after) & !OPOST == output_modes(before) & !OPOST,
        control_modes(after) & (CREAD | CLOCAL) == CREAD | CLOCAL,
        control_modes(after) & !(CREAD | CLOCAL) == control_modes(before) & !(CREAD | CLOCAL),
        local_modes(after) & (ICANON | ECHO | ECHOE | ECHOK | ECHONL | ISIG | IEXTEN) == 0,
        local_modes(after) & !(ICANON | ECHO | ECHOE | ECHOK | ECHONL | ISIG | IEXTEN)
            == local_modes(before) & !(ICANON | ECHO | ECHOE | ECHOK | ECHONL | ISIG | IEXTEN),
        line_discipline(after) == line_discipline(before),
        output_speed(after) == output_speed(before),
        input_speed(after) == input_speed(before),
{
    modes::law_binary_access_touches_only_its_bits(modes_of(before));
}

/// A change of the modes changes nothing else: neither the control characters, nor the line
/// discipline, nor the speeds.
pub proof fn law_modes_change_alone(before: Termios, after: Termios, modes: Modes)
    requires
        only_modes_changed(before, after, modes),
    ensures
        input_modes(after) == modes.c_iflag,
        output_modes(after) == modes.c_oflag,
        control_modes(after) == modes.c_cflag,
        local_modes(after) == modes.c_lflag,
        control_characters(after) == control_characters(before),
        line_discipline(after) == line_discipline(before),
        output_speed(after) == output_speed(before),
        input_speed(after) == input_speed(before),
        baud_rate_of(after) == baud_rate_of(before),
{
}

/// A change of the speeds changes no bit of the modes but those that hold speeds, and neither the
/// control characters nor the line discipline.
pub proof fn law_speeds_change_alone(before: Termios, after: Termios)
    requires
        only_speeds_differ(before, after),
    ensures
        input_modes(after) & 0o077777 == input_modes(before) & 0o077777,
        output_modes(after) == output_modes(before),
        control_modes(after) & !(CBAUD | CIBAUD) == control_modes(before) & !(CBAUD | CIBAUD),
        local_modes(after) == local_modes(before),
        control_characters(after) == control_characters(before),
        line_discipline(after) == line_discipline(before),
{
}

/// The baud rate is the one whose code both speeds are.
pub proof fn law_baud_rate_is_that_of_the_speeds(attributes: Termios, baud_rate: BaudRate)
    ensures
        baud_rate_of(attributes) == Some(baud_rate) <==> output_speed(attributes) == input_speed(
            attributes,
        ) && baud::code_of(baud_rate) == Some(output_speed(attributes)),
{
    baud::law_code_is_read_back(baud_rate, output_speed(attributes), input_speed(attributes));
}

} // verus!
