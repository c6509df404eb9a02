//! What a series of changes of a port comes to.
use crate::action::{Action, Progress, WriteStep, TCIOFLUSH, TCSANOW};
use crate::attributes::{CBAUD, CIBAUD};
use crate::modes::{
    Modes, CRTSCTS, CS5, CS6, CS7, CS8, CSIZE, CSTOPB, IGNPAR, INPCK, IXOFF, IXON, PARENB, PARODD,
};
use crate::port::{SetAll, Setting, TTYPort};
use crate::settings::{DataBits, FlowControl, Parity, SerialPortSettings, StopBits};
use crate::{action, attributes, baud, error, modes, port};
use vstd::prelude::*;

verus! {

/// Whether a reply to the action of one stage of writing the attributes of the port brings about the
/// next stage.
pub open spec fn is_write_step(
    port: TTYPort,
    progress: Progress<WriteStep>,
    reply: Result<(), Option<i32>>,
    next: Progress<WriteStep>,
) -> bool {
    progress matches Progress::Next(step, _) && next == port.write_goes_on(step, reply)
}

/// Whether these are the stages of writing the attributes of the port, each but the first brought
/// about by a reply to the action of the one before it.
pub open spec fn is_write_run(
    port: TTYPort,
    progresses: Seq<Progress<WriteStep>>,
    replies: Seq<Result<(), Option<i32>>>,
) -> bool {
    &&& progresses.len() == replies.len() + 1
    &&& progresses[0] == port.write_begins()
    &&& forall|i: int|
        0 <= i < replies.len() ==> is_write_step(
            port,
            progresses[i],
            #[trigger] replies[i],
            progresses[i + 1],
        )
}

/// Writing the attributes of a port, and so every setter of one setting that is not refused, takes
/// at most two replies, and is done exactly where both of them were given and are successes. The
/// attributes that were written last are then those of the port.
pub proof fn law_setter_writes_the_attributes_of_the_port(
    port: TTYPort,
    progresses: Seq<Progress<WriteStep>>,
    replies: Seq<Result<(), Option<i32>>>,
)
    requires
        is_write_run(port, progresses, replies),
    ensures
        replies.len() <= 2,
        progresses.last() is Finished <==> replies.len() == 2 && replies[0] is Ok
            && replies[1] is Ok,
        progresses.last() is Finished ==> action::last_written(
            action::actions_of(progresses, 2),
            port.fd,
        ) == Some(port.termios),
{
    let none = action::actions_of(progresses, 0);
    let one = action::actions_of(progresses, 1);
    let two = action::actions_of(progresses, 2);
    if replies.len() > 0 {
        assert(is_write_step(port, progresses[0], replies[0], progresses[1]));
    }
    if replies.len() > 1 {
        assert(is_write_step(port, progresses[1], replies[1], progresses[2]));
        assert(one =~= none.push(progresses[0]->Next_1));
        assert(two =~= one.push(progresses[1]->Next_1));
        action::lemma_last_written(none, progresses[0]->Next_1, port.fd);
        action::lemma_last_written(one, progresses[1]->Next_1, port.fd);
    }
    if replies.len() > 2 {
        assert(is_write_step(port, progresses[2], replies[2], progresses[3]));
    }
}

/// Whether a reply to the action of one stage of setting all settings brings about the next stage.
pub open spec fn is_set_all_step(
    settings: SerialPortSettings,
    port: TTYPort,
    progress: Progress<SetAll>,
    reply: Result<(), Option<i32>>,
    after: TTYPort,
    next: Progress<SetAll>,
) -> bool {
    progress matches Progress::Next(state, _) && port.set_all_goes_on(
        settings,
        state,
        reply,
        after,
        next,
    )
}

/// Whether these are the stages of setting all settings on the port `first`: the ports and how far
/// it came, each but the first brought about by a reply to the action of the one before it.
pub open spec fn is_set_all_run(
    first: TTYPort,
    settings: SerialPortSettings,
    ports: Seq<TTYPort>,
    progresses: Seq<Progress<SetAll>>,
    replies: Seq<Result<(), Option<i32>>>,
) -> bool {
    &&& ports.len() == replies.len() + 1
    &&& progresses.len() == replies.len() + 1
    &&& first.set_all_begins(settings, ports[0], progresses[0])
    &&& forall|i: int|
        0 <= i < replies.len() ==> is_set_all_step(
            settings,
            ports[i],
            progresses[i],
            #[trigger] replies[i],
            ports[i + 1],
            progresses[i + 1],
        )
}

/// Setting all settings, once it is done, took ten replies, all of them successes: two for each
/// setting that is written to the device. All settings are read back from the port afterwards, with
/// the other number of stop bits. The attributes that were written last are those of the port. The
/// descriptor is the same, and binary access is kept.
pub proof fn law_set_all_reads_back(
    first: TTYPort,
    settings: SerialPortSettings,
    ports: Seq<TTYPort>,
    progresses: Seq<Progress<SetAll>>,
    replies: Seq<Result<(), Option<i32>>>,
)
    requires
        is_set_all_run(first, settings, ports, progresses, replies),
        progresses.last() is Finished,
    ensures
        replies.len() == 10,
        forall|i: int| 0 <= i < replies.len() ==> #[trigger] replies[i] is Ok,
        ports.last().reads_back(settings),
        action::last_written(action::actions_of(progresses, 10), first.fd) == Some(
            ports.last().termios,
        ),
        ports.last().fd == first.fd,
        attributes::is_raw(ports.last().termios) == attributes::is_raw(first.termios),
{
    let last = replies.len() - 1;
    lemma_set_all_begins(first, settings, ports, progresses, replies);
    assert(replies.len() > 0);
    lemma_set_all_stage(first, settings, ports, progresses, replies, last);
    port::law_set_all_keeps_what_was_set(
        first,
        ports[last],
        settings,
        progresses[last]->Next_0,
        replies[last],
        ports[last + 1],
        progresses[last + 1],
    );
    assert forall|i: int| 0 <= i < replies.len() implies #[trigger] replies[i] is Ok by {
        lemma_set_all_stage(first, settings, ports, progresses, replies, i);
        port::law_set_all_keeps_what_was_set(
            first,
            ports[i],
            settings,
            progresses[i]->Next_0,
            replies[i],
            ports[i + 1],
            progresses[i + 1],
        );
        if i < last {
            lemma_set_all_stage(first, settings, ports, progresses, replies, i + 1);
        }
    }
}

/// Whether ten replies, none of them a failure, were given to the actions of setting all settings on
/// the port `first`, as long as there were any.
pub open spec fn is_set_all_success(
    first: TTYPort,
    settings: SerialPortSettings,
    ports: Seq<TTYPort>,
    progresses: Seq<Progress<SetAll>>,
    replies: Seq<Result<(), Option<i32>>>,
) -> bool {
    &&& replies.len() == 10
    &&& ports.len() == 11
    &&& progresses.len() == 11
    &&& first.set_all_begins(settings, ports[0], progresses[0])
    &&& forall|i: int|
        0 <= i < 10 ==> {
            &&& #[trigger] replies[i] is Ok
            &&& progresses[i] is Next ==> is_set_all_step(
                settings,
                ports[i],
                progresses[i],
                replies[i],
                ports[i + 1],
                progresses[i + 1],
            )
        }
}

/// Where the baud rate is not refused and no reply is a failure, setting all settings is done after
/// ten replies.
pub proof fn law_set_all_succeeds(
    first: TTYPort,
    settings: SerialPortSettings,
    ports: Seq<TTYPort>,
    progresses: Seq<Progress<SetAll>>,
    replies: Seq<Result<(), Option<i32>>>,
)
    requires
        first.rate_refusal(settings.baud_rate) is None,
        is_set_all_success(first, settings, ports, progresses, replies),
    ensures
        is_set_all_run(first, settings, ports, progresses, replies),
        progresses.last() is Finished,
{
    lemma_set_all_succeeds(first, settings, ports, progresses, replies, 10);
    assert forall|i: int| 0 <= i < 10 implies is_set_all_step(
        settings,
        ports[i],
        progresses[i],
        #[trigger] replies[i],
        ports[i + 1],
        progresses[i + 1],
    ) by {
        lemma_set_all_succeeds(first, settings, ports, progresses, replies, i);
    }
}

/// The bits of the mode words that stand for line settings are those of these settings.
pub open spec fn has_bits_of(modes: Modes, settings: SerialPortSettings) -> bool {
    &&& modes.c_cflag & CSIZE == match settings.data_bits {
        DataBits::Five => CS5,
        DataBits::Six => CS6,
        DataBits::Seven => CS7,
        DataBits::Eight => CS8,
    }
    &&& modes.c_iflag & (IXON | IXOFF) == match settings.flow_control {
        FlowControl::Software => IXON | IXOFF,
        FlowControl::NoFlowControl | FlowControl::Hardware => 0,
    }
    &&& modes.c_cflag & CRTSCTS == match settings.flow_control {
        FlowControl::Hardware => CRTSCTS,
        FlowControl::NoFlowControl | FlowControl::Software => 0,
    }
    &&& modes.c_cflag & (PARENB | PARODD) == match settings.parity {
        Parity::NoParity => 0,
        Parity::Odd => PARENB | PARODD,
        Parity::Even => PARENB,
    }
    &&& modes.c_iflag & (INPCK | IGNPAR) == match settings.parity {
        Parity::NoParity => IGNPAR,
        Parity::Odd | Parity::Even => INPCK,
    }
    &&& modes.c_cflag & CSTOPB == match settings.stop_bits {
        StopBits::One => CSTOPB,
        StopBits::Two => 0,
    }
}

/// Whether two mode words agree in every bit that stands neither for a line setting nor for a speed.
pub open spec fn same_beside_settings(before: Modes, after: Modes) -> bool {
    &&& after.c_iflag & 0o077777 & !(IXON | IXOFF | INPCK | IGNPAR) == before.c_iflag & 0o077777
        & !(IXON | IXOFF | INPCK | IGNPAR)
    &&& after.c_cflag & !(CBAUD | CIBAUD | CSIZE | CRTSCTS | PARENB | PARODD | CSTOPB)
        == before.c_cflag & !(CBAUD | CIBAUD | CSIZE | CRTSCTS | PARENB | PARODD | CSTOPB)
    &&& after.c_oflag == before.c_oflag
    &&& after.c_lflag == before.c_lflag
}

/// Setting all settings, once it is done, has given the port just the bits of the settings and the
/// code of the baud rate as both of its speeds, whatever the port had before. No other bit, no
/// control character and no line discipline has changed, and the timeout is that of the settings.
pub proof fn law_set_all_sets_just_the_settings(
    first: TTYPort,
    settings: SerialPortSettings,
    ports: Seq<TTYPort>,
    progresses: Seq<Progress<SetAll>>,
    replies: Seq<Result<(), Option<i32>>>,
)
    requires
        is_set_all_run(first, settings, ports, progresses, replies),
        progresses.last() is Finished,
    ensures
        has_bits_of(ports.last().modes(), settings),
        same_beside_settings(first.modes(), ports.last().modes()),
        baud::code_of(settings.baud_rate) == Some(attributes::output_speed(ports.last().termios)),
        baud::code_of(settings.baud_rate) == Some(attributes::input_speed(ports.last().termios)),
        attributes::control_characters(ports.last().termios) == attributes::control_characters(
            first.termios,
        ),
        attributes::line_discipline(ports.last().termios) == attributes::line_discipline(
            first.termios,
        ),
        ports.last().timeout == settings.timeout,
        ports.last().fd == first.fd,
{
    law_set_all_reads_back(first, settings, ports, progresses, replies);
    lemma_set_all_pairs(first, settings, ports, progresses, replies);
    port::law_set_all_begins_with_the_baud_rate(first, settings, ports[0], progresses[0]);
    attributes::law_speeds_change_alone(first.termios, ports[0].termios);
    lemma_all_settings_by_bits(
        first.modes(),
        ports[0].modes(),
        ports[2].modes(),
        ports[4].modes(),
        ports[6].modes(),
        ports[8].modes(),
        settings,
    );
}

/// Setting all settings, once it is done, has written the attributes five times, at once each time
/// and each time followed by a flush of both queues: after the baud rate, the data bits, the flow
/// control, the parity and the stop bits, in this order. Each time the attributes are written that
/// the port has at that point, in which the settings that follow are still those from before.
pub proof fn law_set_all_writes_five_times(
    first: TTYPort,
    settings: SerialPortSettings,
    ports: Seq<TTYPort>,
    progresses: Seq<Progress<SetAll>>,
    replies: Seq<Result<(), Option<i32>>>,
)
    requires
        is_set_all_run(first, settings, ports, progresses, replies),
        progresses.last() is Finished,
    ensures
        replies.len() == 10,
        forall|k: int|
            #![trigger progresses[2 * k]]
            0 <= k < 5 ==> progresses[2 * k]->Next_1 == (Action::SetAttributes {
                fd: first.fd,
                when: TCSANOW,
                attributes: ports[2 * k].termios,
            }) && progresses[2 * k + 1]->Next_1 == (Action::Flush {
                fd: first.fd,
                queue: TCIOFLUSH,
            }) && ports[2 * k + 1] == ports[2 * k],
        baud::code_of(settings.baud_rate) == Some(attributes::output_speed(ports[0].termios)),
        baud::code_of(settings.baud_rate) == Some(attributes::input_speed(ports[0].termios)),
        attributes::only_speeds_differ(first.termios, ports[0].termios),
        ports[2].modes() == ports[0].modes().with_data_bits(settings.data_bits),
        ports[4].modes() == ports[2].modes().with_flow_control(settings.flow_control),
        ports[6].modes() == ports[4].modes().with_parity(settings.parity),
        ports[8].modes() == ports[6].modes().with_stop_bits(settings.stop_bits),
        ports.last().termios == ports[8].termios,
{
    law_set_all_reads_back(first, settings, ports, progresses, replies);
    lemma_set_all_pairs(first, settings, ports, progresses, replies);
    port::law_set_all_begins_with_the_baud_rate(first, settings, ports[0], progresses[0]);
    assert forall|k: int|
        #![trigger progresses[2 * k]]
        0 <= k < 5 implies progresses[2 * k]->Next_1 == (Action::SetAttributes {
        fd: first.fd,
        when: TCSANOW,
        attributes: ports[2 * k].termios,
    }) && progresses[2 * k + 1]->Next_1 == (Action::Flush { fd: first.fd, queue: TCIOFLUSH })
        && ports[2 * k + 1] == ports[2 * k] by {
        lemma_set_all_stage(first, settings, ports, progresses, replies, 2 * k);
        lemma_set_all_stage(first, settings, ports, progresses, replies, 2 * k + 1);
    }
}

/// What the ports of a run are that has set all settings.
proof fn lemma_set_all_pairs(
    first: TTYPort,
    settings: SerialPortSettings,
    ports: Seq<TTYPort>,
    progresses: Seq<Progress<SetAll>>,
    replies: Seq<Result<(), Option<i32>>>,
)
    requires
        is_set_all_run(first, settings, ports, progresses, replies),
        progresses.last() is Finished,
        replies.len() == 10,
        forall|i: int| 0 <= i < replies.len() ==> #[trigger] replies[i] is Ok,
    ensures
        ports[0].only_modes_changed(
            ports[2],
            ports[0].modes().with_data_bits(settings.data_bits),
        ),
        ports[2].only_modes_changed(
            ports[4],
            ports[2].modes().with_flow_control(settings.flow_control),
        ),
        ports[4].only_modes_changed(ports[6], ports[4].modes().with_parity(settings.parity)),
        ports[6].only_modes_changed(
            ports[8],
            ports[6].modes().with_stop_bits(settings.stop_bits),
        ),
        ports[10].termios == ports[8].termios,
        ports[10].timeout == settings.timeout,
{
    lemma_set_all_stage(first, settings, ports, progresses, replies, 0);
    lemma_set_all_stage(first, settings, ports, progresses, replies, 1);
    lemma_set_all_stage(first, settings, ports, progresses, replies, 2);
    lemma_set_all_stage(first, settings, ports, progresses, replies, 3);
    lemma_set_all_stage(first, settings, ports, progresses, replies, 4);
    lemma_set_all_stage(first, settings, ports, progresses, replies, 5);
    lemma_set_all_stage(first, settings, ports, progresses, replies, 6);
    lemma_set_all_stage(first, settings, ports, progresses, replies, 7);
    lemma_set_all_stage(first, settings, ports, progresses, replies, 8);
    lemma_set_all_stage(first, settings, ports, progresses, replies, 9);
}

/// The bits of modes on which the speeds and then the four line settings were set.
proof fn lemma_all_settings_by_bits(
    first: Modes,
    a: Modes,
    b: Modes,
    c: Modes,
    d: Modes,
    e: Modes,
    settings: SerialPortSettings,
)
    requires
        a.c_iflag & 0o077777 == first.c_iflag & 0o077777,
        a.c_cflag & !(CBAUD | CIBAUD) == first.c_cflag & !(CBAUD | CIBAUD),
        a.c_oflag == first.c_oflag,
        a.c_lflag == first.c_lflag,
        b == a.with_data_bits(settings.data_bits),
        c == b.with_flow_control(settings.flow_control),
        d == c.with_parity(settings.parity),
        e == d.with_stop_bits(settings.stop_bits),
    ensures
        has_bits_of(e, settings),
        same_beside_settings(first, e),
{
    modes::law_data_bits_are_the_character_size(a, settings.data_bits);
    modes::law_flow_control_is_of_one_kind(b, settings.flow_control);
    modes::law_parity_is_checked_where_there_is_one(c, settings.parity);
    modes::law_stop_bits_are_one_bit(d, settings.stop_bits);
    let (f0, a0, b0, c0, d0, e0) = (
        first.c_cflag,
        a.c_cflag,
        b.c_cflag,
        c.c_cflag,
        d.c_cflag,
        e.c_cflag,
    );
    assert(e0 & CSIZE == b0 & CSIZE && e0 & CRTSCTS == c0 & CRTSCTS && e0 & (PARENB | PARODD) == d0
        & (PARENB | PARODD) && e0 & !(CBAUD | CIBAUD | CSIZE | CRTSCTS | PARENB | PARODD | CSTOPB)
        == f0 & !(CBAUD | CIBAUD | CSIZE | CRTSCTS | PARENB | PARODD | CSTOPB) && (c0 & CRTSCTS == 0
        || c0 & CRTSCTS == CRTSCTS) && (e0 & CSTOPB == 0 || e0 & CSTOPB == CSTOPB)) by (bit_vector)
        requires
            a0 & !(CBAUD | CIBAUD) == f0 & !(CBAUD | CIBAUD),
            b0 & !CSIZE == a0 & !CSIZE,
            c0 & !CRTSCTS == b0 & !CRTSCTS,
            d0 & !(PARENB | PARODD) == c0 & !(PARENB | PARODD),
            e0 & !CSTOPB == d0 & !CSTOPB,
    ;
    let (f1, a1, c1, d1) = (first.c_iflag, a.c_iflag, c.c_iflag, d.c_iflag);
    assert(d1 & (IXON | IXOFF) == c1 & (IXON | IXOFF) && d1 & 0o077777 & !(IXON | IXOFF | INPCK
        | IGNPAR) == f1 & 0o077777 & !(IXON | IXOFF | INPCK | IGNPAR)) by (bit_vector)
        requires
            a1 & 0o077777 == f1 & 0o077777,
            c1 & !(IXON | IXOFF) == a1 & !(IXON | IXOFF),
            d1 & !(INPCK | IGNPAR) == c1 & !(INPCK | IGNPAR),
    ;
}

/// Setting all settings fails with the refusal of the baud rate, or with the error of the one reply
/// that is a failure, which is the last. The settings up to the one that was on its way are read
/// back from the port, unless it was the baud rate that was refused; those after it, the timeout and
/// the descriptor are as they were.
pub proof fn law_set_all_fails(
    first: TTYPort,
    settings: SerialPortSettings,
    ports: Seq<TTYPort>,
    progresses: Seq<Progress<SetAll>>,
    replies: Seq<Result<(), Option<i32>>>,
    error: error::Error,
)
    requires
        is_set_all_run(first, settings, ports, progresses, replies),
        progresses.last() == Progress::<SetAll>::Failed(error),
    ensures
        ports.last().fd == first.fd,
        ports.last().timeout == first.timeout,
        replies.len() == 0 ==> {
            &&& first.rate_refusal(settings.baud_rate) == Some(error)
            &&& first.same_settings_after(ports.last(), Setting::BaudRate)
        },
        replies.len() > 0 ==> {
            &&& replies.last() matches Err(errno) && error == error::error_of(errno)
            &&& forall|i: int| 0 <= i < replies.len() - 1 ==> #[trigger] replies[i] is Ok
            &&& progresses[replies.len() - 1] matches Progress::Next(state, _)
                && ports.last().reads_back_up_to(settings, state.setting)
                && first.same_settings_after(ports.last(), state.setting)
        },
{
    lemma_set_all_begins(first, settings, ports, progresses, replies);
    if replies.len() > 0 {
        let last = replies.len() - 1;
        lemma_set_all_stage(first, settings, ports, progresses, replies, last);
        port::law_set_all_keeps_what_was_set(
            first,
            ports[last],
            settings,
            progresses[last]->Next_0,
            replies[last],
            ports[last + 1],
            progresses[last + 1],
        );
        assert forall|i: int| 0 <= i < replies.len() - 1 implies #[trigger] replies[i] is Ok by {
            lemma_set_all_stage(first, settings, ports, progresses, replies, i);
            port::law_set_all_keeps_what_was_set(
                first,
                ports[i],
                settings,
                progresses[i]->Next_0,
                replies[i],
                ports[i + 1],
                progresses[i + 1],
            );
            lemma_set_all_stage(first, settings, ports, progresses, replies, i + 1);
        }
    }
}

proof fn lemma_set_all_begins(
    first: TTYPort,
    settings: SerialPortSettings,
    ports: Seq<TTYPort>,
    progresses: Seq<Progress<SetAll>>,
    replies: Seq<Result<(), Option<i32>>>,
)
    requires
        is_set_all_run(first, settings, ports, progresses, replies),
    ensures
        !(progresses[0] is Finished),
        progresses[0] matches Progress::Failed(e) ==> first.rate_refusal(settings.baud_rate)
            == Some(e),
        first.same_settings_after(ports[0], Setting::BaudRate),
        ports[0].fd == first.fd,
{
    port::law_set_all_begins_with_the_baud_rate(first, settings, ports[0], progresses[0]);
}

/// What holds of a stage of setting all settings that is not its end.
proof fn lemma_set_all_stage(
    first: TTYPort,
    settings: SerialPortSettings,
    ports: Seq<TTYPort>,
    progresses: Seq<Progress<SetAll>>,
    replies: Seq<Result<(), Option<i32>>>,
    i: int,
)
    requires
        is_set_all_run(first, settings, ports, progresses, replies),
        0 <= i < replies.len(),
    ensures
        is_set_all_step(
            settings,
            ports[i],
            progresses[i],
            replies[i],
            ports[i + 1],
            progresses[i + 1],
        ),
        progresses[i] matches Progress::Next(state, action) && {
            &&& ports[i].reads_back_up_to(settings, state.setting)
            &&& first.same_settings_after(ports[i], state.setting)
            &&& state.awaited() == 10 - i
            &&& action == ports[i].write_action(state.step)
        },
        ports[i].fd == first.fd,
        attributes::is_raw(ports[i].termios) == attributes::is_raw(first.termios),
        action::last_written(action::actions_of(progresses, i + 1), first.fd) == Some(
            ports[i].termios,
        ),
    decreases i,
{
    assert(is_set_all_step(
        settings,
        ports[i],
        progresses[i],
        replies[i],
        ports[i + 1],
        progresses[i + 1],
    ));
    let before = action::actions_of(progresses, i);
    assert(action::actions_of(progresses, i + 1) =~= before.push(progresses[i]->Next_1));
    action::lemma_last_written(before, progresses[i]->Next_1, first.fd);
    if i == 0 {
        port::law_set_all_begins_with_the_baud_rate(first, settings, ports[0], progresses[0]);
    } else {
        lemma_set_all_stage(first, settings, ports, progresses, replies, i - 1);
        port::law_set_all_keeps_what_was_set(
            first,
            ports[i - 1],
            settings,
            progresses[i - 1]->Next_0,
            replies[i - 1],
            ports[i],
            progresses[i],
        );
    }
}

proof fn lemma_set_all_succeeds(
    first: TTYPort,
    settings: SerialPortSettings,
    ports: Seq<TTYPort>,
    progresses: Seq<Progress<SetAll>>,
    replies: Seq<Result<(), Option<i32>>>,
    i: int,
)
    requires
        first.rate_refusal(settings.baud_rate) is None,
        is_set_all_success(first, settings, ports, progresses, replies),
        0 <= i <= 10,
    ensures
        i < 10 ==> progresses[i] is Next && progresses[i]->Next_0.awaited() == 10 - i,
        i == 10 ==> progresses[i] is Finished,
    decreases i,
{
    if i > 0 {
        lemma_set_all_succeeds(first, settings, ports, progresses, replies, i - 1);
        assert(replies[i - 1] is Ok);
    }
}

/// Whether the line settings of this order were set on a port one after the other, with the values
/// of `settings`.
pub open spec fn is_line_run(
    settings: SerialPortSettings,
    order: Seq<Setting>,
    ports: Seq<TTYPort>,
) -> bool {
    &&& ports.len() == order.len() + 1
    &&& forall|i: int|
        0 <= i < order.len() ==> {
            &&& #[trigger] order[i] != Setting::BaudRate
            &&& ports[i].only_modes_changed(
                ports[i + 1],
                port::modes_with(ports[i].modes(), order[i], settings),
            )
        }
}

/// Line settings can be set in any order, and more than once: where the same ones are set on two
/// ports whose attributes are equal, the attributes are equal afterwards, in every field.
pub proof fn law_line_settings_are_set_in_any_order(
    settings: SerialPortSettings,
    first_order: Seq<Setting>,
    first: Seq<TTYPort>,
    second_order: Seq<Setting>,
    second: Seq<TTYPort>,
)
    requires
        is_line_run(settings, first_order, first),
        is_line_run(settings, second_order, second),
        first[0].termios == second[0].termios,
        forall|s: Setting| first_order.contains(s) <==> second_order.contains(s),
    ensures
        first.last().termios == second.last().termios,
{
    let n = first_order.len() as int;
    let m = second_order.len() as int;
    lemma_line_run(settings, first_order, first, n);
    lemma_line_run(settings, second_order, second, m);
    assert(first_order.take(n) =~= first_order);
    assert(second_order.take(m) =~= second_order);
    if n > 0 {
        assert(first_order.contains(first_order[0]));
        assert(attributes::same_fields(first[n].termios, second[m].termios));
    } else if m > 0 {
        assert(second_order.contains(second_order[0]));
    }
}

/// Of two values that a line setting is given one after the other, only the second counts: the port
/// is the one that the second value alone would have given, and reads that value back, stop bits as
/// the other number.
pub proof fn law_only_the_last_value_counts(
    setting: Setting,
    earlier: SerialPortSettings,
    later: SerialPortSettings,
    port: TTYPort,
    between: TTYPort,
    after: TTYPort,
    directly: TTYPort,
)
    requires
        setting != Setting::BaudRate,
        port.only_modes_changed(between, port::modes_with(port.modes(), setting, earlier)),
        between.only_modes_changed(after, port::modes_with(between.modes(), setting, later)),
        port.only_modes_changed(directly, port::modes_with(port.modes(), setting, later)),
    ensures
        after == directly,
        after.reads(later, setting),
{
    modes::law_last_setting_counts(
        port.modes(),
        (earlier.data_bits, later.data_bits),
        (earlier.flow_control, later.flow_control),
        (earlier.parity, later.parity),
        (earlier.stop_bits, later.stop_bits),
    );
    modes::law_data_bits_read_back(port.modes(), later.data_bits);
    modes::law_flow_control_read_back(port.modes(), later.flow_control);
    modes::law_parity_read_back(port.modes(), later.parity);
    modes::law_stop_bits_read_back_as_the_other(port.modes(), later.stop_bits);
    assert(attributes::same_fields(after.termios, directly.termios));
}

/// The modes after the line settings of a list were set, in the order of [`Setting`].
spec fn modes_after(modes: Modes, order: Seq<Setting>, settings: SerialPortSettings) -> Modes {
    chosen(
        modes,
        settings,
        order.contains(Setting::DataBits),
        order.contains(Setting::FlowControl),
        order.contains(Setting::Parity),
        order.contains(Setting::StopBits),
    )
}

spec fn chosen(
    modes: Modes,
    settings: SerialPortSettings,
    data_bits: bool,
    flow_control: bool,
    parity: bool,
    stop_bits: bool,
) -> Modes {
    let a = if data_bits { modes.with_data_bits(settings.data_bits) } else { modes };
    let b = if flow_control { a.with_flow_control(settings.flow_control) } else { a };
    let c = if parity { b.with_parity(settings.parity) } else { b };
    if stop_bits { c.with_stop_bits(settings.stop_bits) } else { c }
}

/// To set one more line setting is to choose it too.
proof fn lemma_one_more_is_chosen(
    modes: Modes,
    settings: SerialPortSettings,
    d: bool,
    f: bool,
    p: bool,
    s: bool,
)
    ensures
        chosen(modes, settings, d, f, p, s).with_data_bits(settings.data_bits) == chosen(
            modes,
            settings,
            true,
            f,
            p,
            s,
        ),
        chosen(modes, settings, d, f, p, s).with_flow_control(settings.flow_control) == chosen(
            modes,
            settings,
            d,
            true,
            p,
            s,
        ),
        chosen(modes, settings, d, f, p, s).with_parity(settings.parity) == chosen(
            modes,
            settings,
            d,
            f,
            true,
            s,
        ),
        chosen(modes, settings, d, f, p, s).with_stop_bits(settings.stop_bits) == chosen(
            modes,
            settings,
            d,
            f,
            p,
            true,
        ),
{
    let a = if d { modes.with_data_bits(settings.data_bits) } else { modes };
    let b = if f { a.with_flow_control(settings.flow_control) } else { a };
    let c = if p { b.with_parity(settings.parity) } else { b };
    lemma_chosen_twice(modes, settings);
    lemma_chosen_twice(a, settings);
    lemma_chosen_twice(b, settings);
    lemma_chosen_twice(c, settings);
}

proof fn lemma_chosen_twice(modes: Modes, settings: SerialPortSettings)
    ensures
        ({
            let d = settings.data_bits;
            let f = settings.flow_control;
            let p = settings.parity;
            let s = settings.stop_bits;
            &&& modes.with_data_bits(d).with_data_bits(d) == modes.with_data_bits(d)
            &&& modes.with_flow_control(f).with_flow_control(f) == modes.with_flow_control(f)
            &&& modes.with_parity(p).with_parity(p) == modes.with_parity(p)
            &&& modes.with_stop_bits(s).with_stop_bits(s) == modes.with_stop_bits(s)
            &&& modes.with_flow_control(f).with_data_bits(d) == modes.with_data_bits(
                d,
            ).with_flow_control(f)
            &&& modes.with_parity(p).with_data_bits(d) == modes.with_data_bits(d).with_parity(p)
            &&& modes.with_stop_bits(s).with_data_bits(d) == modes.with_data_bits(
                d,
            ).with_stop_bits(s)
            &&& modes.with_parity(p).with_flow_control(f) == modes.with_flow_control(
                f,
            ).with_parity(p)
            &&& modes.with_stop_bits(s).with_flow_control(f) == modes.with_flow_control(
                f,
            ).with_stop_bits(s)
            &&& modes.with_stop_bits(s).with_parity(p) == modes.with_parity(p).with_stop_bits(s)
        }),
{
    let d = settings.data_bits;
    let f = settings.flow_control;
    let p = settings.parity;
    let s = settings.stop_bits;
    modes::law_last_setting_counts(modes, (d, d), (f, f), (p, p), (s, s));
    modes::law_settings_commute(modes, d, f, p, s);
}

/// What the first `i` line settings of a run come to.
proof fn lemma_line_run(
    settings: SerialPortSettings,
    order: Seq<Setting>,
    ports: Seq<TTYPort>,
    i: int,
)
    requires
        is_line_run(settings, order, ports),
        0 <= i <= order.len(),
    ensures
        ports[i].modes() == modes_after(ports[0].modes(), order.take(i), settings),
        attributes::control_characters(ports[i].termios) == attributes::control_characters(
            ports[0].termios,
        ),
        attributes::line_discipline(ports[i].termios) == attributes::line_discipline(
            ports[0].termios,
        ),
        attributes::stored_speeds(ports[i].termios) == attributes::stored_speeds(ports[0].termios),
        i > 0 ==> attributes::made_of_fields(ports[i].termios),
    decreases i,
{
    if i > 0 {
        let before = order.take(i - 1);
        let setting = order[i - 1];
        lemma_line_run(settings, order, ports, i - 1);
        assert(order.take(i) =~= before.push(setting));
        assert forall|s: Setting| #[trigger] order.take(i).contains(s) <==> before.contains(s) || s
            == setting by {
            if before.contains(s) {
                let k = choose|k: int| 0 <= k < before.len() && before[k] == s;
                assert(order.take(i)[k] == s);
            }
            if s == setting {
                assert(order.take(i)[i - 1] == s);
            }
            if order.take(i).contains(s) && s != setting {
                let k = choose|k: int| 0 <= k < order.take(i).len() && order.take(i)[k] == s;
                assert(before[k] == s);
            }
        }
        lemma_one_more_is_chosen(
            ports[0].modes(),
            settings,
            before.contains(Setting::DataBits),
            before.contains(Setting::FlowControl),
            before.contains(Setting::Parity),
            before.contains(Setting::StopBits),
        );
    } else {
        assert(order.take(0) =~= Seq::<Setting>::empty());
    }
}

} // verus!
