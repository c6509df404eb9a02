//! Opening a device as a serial port.
use crate::action::{
    Action, Progress, Reply, O_NOCTTY, O_NONBLOCK, O_RDWR, TCIOFLUSH, TCSANOW,
};
use crate::attributes::{same_attributes, set_raw, CBAUD, CIBAUD, VMIN, VTIME};
use crate::error::{Error, ErrorKind, EINVAL};
use crate::modes::{
    CLOCAL, CREAD, CRTSCTS, CSIZE, CSTOPB, ECHO, ECHOE, ECHOK, ECHONL, ICANON, ICRNL, IEXTEN, IGNBRK,
    IGNCR, IGNPAR, INLCR, INPCK, ISIG, IXOFF, IXON, OPOST, PARENB, PARODD,
};
use crate::port::{SetAll, TTYPort};
use crate::settings::SerialPortSettings;
use crate::{action, attributes, baud, changes, error, port};
use termios::Termios;
use vstd::prelude::*;

verus! {

/// How far the opening of a device has come, by the reply that it awaits.
#[derive(Debug)]
pub enum Opening {
    /// The device is being opened.
    Device { settings: SerialPortSettings },
    /// The attributes of the device are being read.
    Attributes { fd: i32, settings: SerialPortSettings },
    /// Attributes for binary access are being written.
    Written { fd: i32, requested: Termios, settings: SerialPortSettings },
    /// The attributes are being read back, to confirm that they were taken over.
    ReadBack { fd: i32, requested: Termios, settings: SerialPortSettings },
    /// The queues are being flushed.
    Flushed { fd: i32, requested: Termios, settings: SerialPortSettings },
    /// Exclusive access to the device is being acquired.
    Exclusive { port: TTYPort, settings: SerialPortSettings },
    /// The descriptor is being set to wait for the device from now on.
    Blocking { port: TTYPort, settings: SerialPortSettings },
    /// The settings are being set.
    Configuring { port: TTYPort, settings: SerialPortSettings, stage: SetAll },
}

/// What the opening of a device came to.
#[derive(Debug)]
pub enum OpenProgress {
    /// The action is to be done; what it comes to is awaited in the state.
    Next(Opening, Action),
    /// The port is open.
    Opened(TTYPort),
    /// The opening failed. A port that was made already comes along, to be released.
    Failed { error: Error, port: Option<TTYPort> },
}

/// The flags with which a device is opened.
pub open spec fn open_flags() -> i32 {
    O_RDWR | O_NOCTTY | O_NONBLOCK
}

/// What the opening of the device at a path begins with. A path that holds a NUL byte is an invalid
/// argument.
pub open spec fn opening_begins(
    path: Seq<u8>,
    settings: SerialPortSettings,
    progress: OpenProgress,
) -> bool {
    if path.contains(0) {
        progress == (OpenProgress::Failed { error: Error::Os(EINVAL), port: None })
    } else {
        &&& progress matches OpenProgress::Next(state, Action::Open { path: bytes, flags })
        &&& state == (Opening::Device { settings })
        &&& bytes@ == path
        &&& flags == open_flags()
    }
}

/// What the opening came to, where setting the settings came to `progress` on `port`.
pub open spec fn configured(
    port: TTYPort,
    settings: SerialPortSettings,
    progress: Progress<SetAll>,
) -> OpenProgress {
    match progress {
        Progress::Next(stage, action) => OpenProgress::Next(
            Opening::Configuring { port, settings, stage },
            action,
        ),
        Progress::Finished => OpenProgress::Opened(port),
        Progress::Failed(error) => OpenProgress::Failed { error, port: Some(port) },
    }
}

impl Reply {
    /// The error that a failure is. There is none where the reply is no failure.
    pub open spec fn failure(self) -> Option<Error> {
        match self {
            Reply::Failed(errno) => Some(error::error_of(errno)),
            Reply::Returned { value, errno } => if value < 0 {
                Some(Error::Os(errno))
            } else {
                None
            },
            _ => None,
        }
    }
}

impl Opening {
    /// The settings that the port is to have.
    pub open spec fn settings(self) -> SerialPortSettings {
        match self {
            Opening::Device { settings } => settings,
            Opening::Attributes { settings, .. } => settings,
            Opening::Written { settings, .. } => settings,
            Opening::ReadBack { settings, .. } => settings,
            Opening::Flushed { settings, .. } => settings,
            Opening::Exclusive { settings, .. } => settings,
            Opening::Blocking { settings, .. } => settings,
            Opening::Configuring { settings, .. } => settings,
        }
    }

    /// The port, once there is one.
    pub open spec fn port(self) -> Option<TTYPort> {
        match self {
            Opening::Exclusive { port, .. } => Some(port),
            Opening::Blocking { port, .. } => Some(port),
            Opening::Configuring { port, .. } => Some(port),
            _ => None,
        }
    }

    /// The descriptor, once the device is open.
    pub open spec fn descriptor(self) -> Option<i32> {
        match self {
            Opening::Device { .. } => None,
            Opening::Attributes { fd, .. } => Some(fd),
            Opening::Written { fd, .. } => Some(fd),
            Opening::ReadBack { fd, .. } => Some(fd),
            Opening::Flushed { fd, .. } => Some(fd),
            Opening::Exclusive { port, .. } => Some(port.fd),
            Opening::Blocking { port, .. } => Some(port.fd),
            Opening::Configuring { port, .. } => Some(port.fd),
        }
    }

    /// The number of replies that are still awaited, if none of them is a failure.
    pub open spec fn awaited(self) -> int {
        match self {
            Opening::Device { .. } => 17,
            Opening::Attributes { .. } => 16,
            Opening::Written { .. } => 15,
            Opening::ReadBack { .. } => 14,
            Opening::Flushed { .. } => 13,
            Opening::Exclusive { .. } => 12,
            Opening::Blocking { .. } => 11,
            Opening::Configuring { stage, .. } => stage.awaited(),
        }
    }

    /// The attributes that the device is to have at this point, once they are known.
    pub open spec fn attributes(self) -> Option<Termios> {
        match self {
            Opening::Device { .. } | Opening::Attributes { .. } => None,
            Opening::Written { requested, .. }
            | Opening::ReadBack { requested, .. }
            | Opening::Flushed { requested, .. } => Some(requested),
            Opening::Exclusive { port, .. }
            | Opening::Blocking { port, .. }
            | Opening::Configuring { port, .. } => Some(port.termios),
        }
    }

    /// Whether a reply lets the opening go on: it is of the kind that is awaited and no failure,
    /// the attributes that are read back are those that were written, and the baud rate, where it
    /// is set next, is not refused.
    pub open spec fn is_answered_well(self, reply: Reply) -> bool {
        &&& self.awaits(reply)
        &&& reply.failure() is None
        &&& self matches Opening::ReadBack { requested, .. } ==> reply == Reply::Attributes(
            requested,
        )
        &&& self matches Opening::Blocking { port, settings } ==> port.rate_refusal(
            settings.baud_rate,
        ) is None
    }

    /// Whether a reply is of the kind that is awaited.
    pub open spec fn awaits(self, reply: Reply) -> bool {
        match self {
            Opening::Device { .. } | Opening::Blocking { .. } => reply is Returned,
            Opening::Attributes { .. } | Opening::ReadBack { .. } => reply is Attributes
                || reply is Failed,
            _ => reply is Done || reply is Failed,
        }
    }

    /// What holds of every state of an opening: the attributes that were asked for are those of
    /// binary access, and the settings that the port has got so far are read back.
    pub open spec fn is_sound(self) -> bool {
        match self {
            Opening::Device { .. } | Opening::Attributes { .. } => true,
            Opening::Written { requested, .. }
            | Opening::ReadBack { requested, .. }
            | Opening::Flushed { requested, .. } => attributes::is_raw(requested),
            Opening::Exclusive { port, .. } | Opening::Blocking { port, .. } => attributes::is_raw(
                port.termios,
            ),
            Opening::Configuring { port, settings, stage } => {
                &&& attributes::is_raw(port.termios)
                &&& port.reads_back_up_to(settings, stage.setting)
            },
        }
    }

    /// Whether the attributes that the device is to have are those that were written to it last,
    /// where these actions were done and the last of them is still on its way.
    pub open spec fn holds_what_was_written(self, actions: Seq<Action>) -> bool {
        self.attributes() is Some ==> action::last_written(actions, self.descriptor()->0)
            == self.attributes()
    }

    /// How the opening goes on after a reply that is no failure.
    pub open spec fn succeeds_to(self, reply: Reply, progress: OpenProgress) -> bool {
        match (self, reply) {
            (Opening::Device { settings }, Reply::Returned { value, .. }) => progress
                == OpenProgress::Next(
                Opening::Attributes { fd: value, settings },
                Action::GetAttributes { fd: value },
            ),
            (Opening::Attributes { fd, settings }, Reply::Attributes(read)) => exists|
                requested: Termios,
            |
                attributes::made_raw(read, requested) && progress == OpenProgress::Next(
                    Opening::Written { fd, requested, settings },
                    Action::SetAttributes { fd, when: TCSANOW, attributes: requested },
                ),
            (Opening::Written { fd, requested, settings }, _) => progress == OpenProgress::Next(
                Opening::ReadBack { fd, requested, settings },
                Action::GetAttributesOver { fd, attributes: requested },
            ),
            (Opening::ReadBack { fd, requested, settings }, Reply::Attributes(actual)) => progress
                == if actual == requested {
                OpenProgress::Next(
                    Opening::Flushed { fd, requested, settings },
                    Action::Flush { fd, queue: TCIOFLUSH },
                )
            } else {
                OpenProgress::Failed { error: Error::NotApplied, port: None }
            },
            (Opening::Flushed { fd, requested, settings }, _) => exists|port: TTYPort|
                {
                    &&& port.is_new_port(fd, requested)
                    &&& progress == OpenProgress::Next(
                        Opening::Exclusive { port, settings },
                        Action::AcquireExclusive { fd },
                    )
                },
            (Opening::Exclusive { port, settings }, _) => progress == OpenProgress::Next(
                Opening::Blocking { port, settings },
                Action::SetStatusFlags { fd: port.fd, flags: 0 },
            ),
            (Opening::Blocking { port, settings }, _) => exists|
                after: TTYPort,
                set: Progress<SetAll>,
            |
                port.set_all_begins(settings, after, set) && progress == configured(
                    after,
                    settings,
                    set,
                ),
            (Opening::Configuring { port, settings, stage }, _) => exists|
                after: TTYPort,
                set: Progress<SetAll>,
            |
                port.set_all_goes_on(settings, stage, Ok(()), after, set) && progress == configured(
                    after,
                    settings,
                    set,
                ),
            _ => true,
        }
    }

    /// How the opening goes on after a reply. A failure ends it with the error of the reply.
    pub open spec fn goes_on(self, reply: Reply, progress: OpenProgress) -> bool {
        match reply.failure() {
            Some(error) => progress == (OpenProgress::Failed { error, port: self.port() }),
            None => self.succeeds_to(reply, progress),
        }
    }

    /// Whether a reply is of the kind that is awaited.
    pub fn accepts(&self, reply: &Reply) -> (accepted: bool)
        ensures
            accepted == self.awaits(*reply),
    {
        match self {
            Opening::Device { .. } | Opening::Blocking { .. } => match reply {
                Reply::Returned { .. } => true,
                _ => false,
            },
            Opening::Attributes { .. } | Opening::ReadBack { .. } => match reply {
                Reply::Attributes(_) | Reply::Failed(_) => true,
                _ => false,
            },
            _ => match reply {
                Reply::Done | Reply::Failed(_) => true,
                _ => false,
            },
        }
    }

    /// Goes on with the opening, once the action was done.
    pub fn open_next(self, reply: Reply) -> (progress: OpenProgress)
        requires
            self.awaits(reply),
        ensures
            self.goes_on(reply, progress),
    {
        match (self, reply) {
            (Opening::Device { settings }, Reply::Returned { value, errno }) => {
                if value < 0 {
                    return OpenProgress::Failed {
                        error: Error::from_raw_os_error(errno),
                        port: None,
                    };
                }
                OpenProgress::Next(
                    Opening::Attributes { fd: value, settings },
                    Action::GetAttributes { fd: value },
                )
            },
            (Opening::Attributes { fd, settings }, Reply::Attributes(read)) => {
                let mut requested = read;
                set_raw(&mut requested);
                OpenProgress::Next(
                    Opening::Written { fd, requested, settings },
                    Action::SetAttributes { fd, when: TCSANOW, attributes: requested },
                )
            },
            (Opening::Written { fd, requested, settings }, Reply::Done) => OpenProgress::Next(
                Opening::ReadBack { fd, requested, settings },
                Action::GetAttributesOver { fd, attributes: requested },
            ),
            (Opening::ReadBack { fd, requested, settings }, Reply::Attributes(actual)) => {
                if !same_attributes(&actual, &requested) {
                    return OpenProgress::Failed { error: Error::NotApplied, port: None };
                }
                OpenProgress::Next(
                    Opening::Flushed { fd, requested, settings },
                    Action::Flush { fd, queue: TCIOFLUSH },
                )
            },
            (Opening::Flushed { fd, requested, settings }, Reply::Done) => OpenProgress::Next(
                Opening::Exclusive { port: TTYPort::from_fd(fd, requested), settings },
                Action::AcquireExclusive { fd },
            ),
            (Opening::Exclusive { port, settings }, Reply::Done) => {
                let action = Action::SetStatusFlags { fd: port.fd, flags: 0 };
                OpenProgress::Next(Opening::Blocking { port, settings }, action)
            },
            (Opening::Blocking { port, settings }, Reply::Returned { value, errno }) => {
                if value < 0 {
                    return OpenProgress::Failed {
                        error: Error::from_raw_os_error(errno),
                        port: Some(port),
                    };
                }
                let mut port = port;
                let set = port.set_all(&settings);
                Self::configuring(port, settings, set)
            },
            (Opening::Configuring { port, settings, stage }, Reply::Done) => {
                let mut port = port;
                let set = port.set_all_next(&settings, stage, Ok(()));
                Self::configuring(port, settings, set)
            },
            (opening, Reply::Failed(errno)) => OpenProgress::Failed {
                error: Error::from_io_error(errno),
                port: opening.made_port(),
            },
            _ => vstd::pervasive::unreached(),
        }
    }

    fn made_port(self) -> (port: Option<TTYPort>)
        ensures
            port == self.port(),
    {
        match self {
            Opening::Exclusive { port, .. }
            | Opening::Blocking { port, .. }
            | Opening::Configuring { port, .. } => Some(port),
            _ => None,
        }
    }

    fn configuring(port: TTYPort, settings: SerialPortSettings, set: Progress<SetAll>) -> (progress:
        OpenProgress)
        ensures
            progress == configured(port, settings, set),
    {
        match set {
            Progress::Next(stage, action) => OpenProgress::Next(
                Opening::Configuring { port, settings, stage },
                action,
            ),
            Progress::Finished => OpenProgress::Opened(port),
            Progress::Failed(error) => OpenProgress::Failed { error, port: Some(port) },
        }
    }
}

impl TTYPort {
    /// Begins to open a TTY device as a serial port.
    ///
    /// `path` should be the path to a TTY device, e.g., `/dev/ttyS0`, in bytes. A path that holds
    /// a NUL byte names no device, and is an invalid argument.
    pub fn open(path: &[u8], settings: &SerialPortSettings) -> (progress: OpenProgress)
        ensures
            opening_begins(path@, *settings, progress),
    {
        let mut bytes: Vec<u8> = Vec::new();
        let mut i: usize = 0;
        while i < path.len()
            invariant
                i <= path@.len(),
                bytes@ == path@.take(i as int),
                forall|j: int| 0 <= j < i ==> path@[j] != 0,
            decreases path@.len() - i,
        {
            if path[i] == 0 {
                assert(path@[i as int] == 0);
                return OpenProgress::Failed {
                    error: Error::from_raw_os_error(EINVAL),
                    port: None,
                };
            }
            bytes.push(path[i]);
            i = i + 1;
        }
        assert(path@.take(i as int) =~= path@);
        OpenProgress::Next(
            Opening::Device { settings: *settings },
            Action::Open { path: bytes, flags: O_RDWR | O_NOCTTY | O_NONBLOCK },
        )
    }
}

/// Every state of an opening is sound. The descriptor and the settings stay the same once they are
/// known, each success brings the end nearer by one reply, and the port that comes out is set up
/// for binary access and reads back the settings, with the other number of stop bits.
pub proof fn law_opening_stays_sound(state: Opening, reply: Reply, progress: OpenProgress)
    requires
        state.is_sound(),
        state.awaits(reply),
        state.goes_on(reply, progress),
    ensures
        match progress {
            OpenProgress::Next(next, _) => {
                &&& next.is_sound()
                &&& next.settings() == state.settings()
                &&& next.awaited() == state.awaited() - 1
                &&& state.descriptor() is Some ==> next.descriptor() == state.descriptor()
                &&& next.descriptor() is Some
                &&& reply.failure() is None
            },
            OpenProgress::Opened(port) => {
                &&& attributes::is_raw(port.termios)
                &&& port.reads_back(state.settings())
                &&& state.awaited() == 1
                &&& state.descriptor() == Some(port.fd)
                &&& state.attributes() == Some(port.termios)
                &&& reply.failure() is None
            },
            OpenProgress::Failed { .. } => !state.is_answered_well(reply),
        },
{
    if reply.failure() is None {
        match state {
            Opening::Blocking { port, settings } => {
                let (after, set) = choose|after: TTYPort, set: Progress<SetAll>|
                    port.set_all_begins(settings, after, set) && progress == configured(
                        after,
                        settings,
                        set,
                    );
                port::law_set_all_begins_with_the_baud_rate(port, settings, after, set);
            },
            Opening::Configuring { port, settings, stage } => {
                let (after, set) = choose|after: TTYPort, set: Progress<SetAll>|
                    port.set_all_goes_on(settings, stage, Ok(()), after, set) && progress
                        == configured(after, settings, set);
                port::law_set_all_keeps_what_was_set(
                    port,
                    port,
                    settings,
                    stage,
                    Ok(()),
                    after,
                    set,
                );
            },
            _ => {},
        }
    }
}

/// Whenever the attributes change that the device is to have, they are written to it next: if those
/// of the state are the ones that were written last, so are those of the state that follows.
pub proof fn law_changed_attributes_are_written(
    state: Opening,
    actions: Seq<Action>,
    reply: Reply,
    next: Opening,
    action: Action,
)
    requires
        state.awaits(reply),
        state.holds_what_was_written(actions),
        state.goes_on(reply, OpenProgress::Next(next, action)),
    ensures
        next.holds_what_was_written(actions.push(action)),
{
    if next.descriptor() is Some {
        action::lemma_last_written(actions, action, next.descriptor()->0);
    }
    match state {
        Opening::Blocking { port, settings } => {
            let (after, set) = choose|after: TTYPort, set: Progress<SetAll>|
                port.set_all_begins(settings, after, set) && OpenProgress::Next(next, action)
                    == configured(after, settings, set);
            assert(after.fd == port.fd);
        },
        Opening::Configuring { port, settings, stage } => {
            let (after, set) = choose|after: TTYPort, set: Progress<SetAll>|
                port.set_all_goes_on(settings, stage, Ok(()), after, set) && OpenProgress::Next(
                    next,
                    action,
                ) == configured(after, settings, set);
            assert(after.fd == port.fd);
        },
        _ => {},
    }
}

/// An opening ends with the error `NotApplied` exactly where the attributes that are read back
/// differ from those that were written; that is an error of kind `Io`. Any other failure carries the
/// error of the reply, or is the refusal of the baud rate. No failure is of kind `Unknown`. The
/// device is left to a port, to be released, from the moment on in which the port is made.
pub proof fn law_opening_failures(state: Opening, reply: Reply, error: Error, port: Option<TTYPort>)
    requires
        state.awaits(reply),
        state.goes_on(reply, OpenProgress::Failed { error, port }),
    ensures
        error == Error::NotApplied <==> (state matches Opening::ReadBack { requested, .. }
            && reply matches Reply::Attributes(actual) && actual != requested),
        error == Error::NotApplied ==> error::kind_of(error) == ErrorKind::Io,
        error::kind_of(error) != ErrorKind::Unknown,
        reply.failure() matches Some(e) ==> error == e,
        reply.failure() is None ==> error == Error::NotApplied || (state matches Opening::Blocking {
            port: p,
            settings,
        } && p.rate_refusal(settings.baud_rate) == Some(error)),
        port is Some <==> state.port() is Some,
        port matches Some(p) ==> state.descriptor() == Some(p.fd),
{
}

/// Whether a reply to the action of one stage of an opening brings about the next stage.
pub open spec fn is_opening_step(progress: OpenProgress, reply: Reply, next: OpenProgress) -> bool {
    progress matches OpenProgress::Next(state, _) && state.awaits(reply) && state.goes_on(
        reply,
        next,
    )
}

/// Whether these are the stages of opening the device at the path, each but the first brought about
/// by a reply to the action of the one before it.
pub open spec fn is_opening_run(
    path: Seq<u8>,
    settings: SerialPortSettings,
    progresses: Seq<OpenProgress>,
    replies: Seq<Reply>,
) -> bool {
    &&& progresses.len() == replies.len() + 1
    &&& opening_begins(path, settings, progresses[0])
    &&& forall|i: int|
        0 <= i < replies.len() ==> is_opening_step(
            progresses[i],
            #[trigger] replies[i],
            progresses[i + 1],
        )
}

/// The actions of the first `count` stages of an opening.
pub open spec fn opening_actions(progresses: Seq<OpenProgress>, count: int) -> Seq<Action> {
    Seq::new(count as nat, |i: int| progresses[i]->Next_1)
}

/// A device that is opened answered seventeen times. The first answer was the descriptor of the
/// device at the path, which was opened with the flags of [`open_flags`]. The fourth was the
/// attributes for binary access, just as they had been written. The sixth gave exclusive access,
/// and the seventh took back that calls do not wait. The port that comes out has that descriptor,
/// is set up for binary access, and reads back the settings, with the other number of stop bits. Its
/// attributes are those that were written to the device last.
pub proof fn law_opened_port_is_configured(
    path: Seq<u8>,
    settings: SerialPortSettings,
    progresses: Seq<OpenProgress>,
    replies: Seq<Reply>,
    port: TTYPort,
)
    requires
        is_opening_run(path, settings, progresses, replies),
        progresses.last() == OpenProgress::Opened(port),
    ensures
        replies.len() == 17,
        progresses[0]->Next_1 matches Action::Open { path: bytes, flags } && bytes@ == path && flags
            == open_flags(),
        replies[0] matches Reply::Returned { value, .. } && value == port.fd && value >= 0,
        replies[3] matches Reply::Attributes(actual) && progresses[3]->Next_0 == (
        Opening::ReadBack { fd: port.fd, requested: actual, settings }),
        progresses[5]->Next_1 == (Action::AcquireExclusive { fd: port.fd }),
        replies[5] is Done,
        progresses[6]->Next_1 == (Action::SetStatusFlags { fd: port.fd, flags: 0 }),
        replies[6] matches Reply::Returned { value, .. } && value >= 0,
        attributes::is_raw(port.termios),
        port.reads_back(settings),
        action::last_written(opening_actions(progresses, 17), port.fd) == Some(port.termios),
{
    let last = replies.len() - 1;
    assert(replies.len() > 0);
    lemma_opening_stage(path, settings, progresses, replies, last);
    law_opening_stays_sound(progresses[last]->Next_0, replies[last], progresses[last + 1]);
    lemma_opening_stage(path, settings, progresses, replies, 0);
    law_opening_stays_sound(progresses[0]->Next_0, replies[0], progresses[1]);
    lemma_opening_stage(path, settings, progresses, replies, 1);
    lemma_opening_stage(path, settings, progresses, replies, 3);
    law_opening_stays_sound(progresses[3]->Next_0, replies[3], progresses[4]);
    lemma_opening_stage(path, settings, progresses, replies, 4);
    law_opening_stays_sound(progresses[4]->Next_0, replies[4], progresses[5]);
    lemma_opening_stage(path, settings, progresses, replies, 5);
    law_opening_stays_sound(progresses[5]->Next_0, replies[5], progresses[6]);
    lemma_opening_stage(path, settings, progresses, replies, 6);
    law_opening_stays_sound(progresses[6]->Next_0, replies[6], progresses[7]);
    lemma_opening_stage(path, settings, progresses, replies, 7);
    lemma_descriptor_kept(path, settings, progresses, replies, 3);
    lemma_descriptor_kept(path, settings, progresses, replies, 5);
    lemma_descriptor_kept(path, settings, progresses, replies, 6);
    lemma_descriptor_kept(path, settings, progresses, replies, last);
}

/// Whether seventeen replies, each of which lets the opening go on, were given to the actions of
/// opening the device at the path, as long as there were any.
pub open spec fn is_opening_success(
    path: Seq<u8>,
    settings: SerialPortSettings,
    progresses: Seq<OpenProgress>,
    replies: Seq<Reply>,
) -> bool {
    &&& replies.len() == 17
    &&& progresses.len() == 18
    &&& opening_begins(path, settings, progresses[0])
    &&& forall|i: int|
        0 <= i < 17 && progresses[i] is Next ==> {
            &&& progresses[i]->Next_0.is_answered_well(replies[i])
            &&& is_opening_step(progresses[i], #[trigger] replies[i], progresses[i + 1])
        }
}

/// Where the path holds no NUL byte and every one of seventeen replies lets the opening go on, it
/// ends with an open port.
pub proof fn law_opening_succeeds(
    path: Seq<u8>,
    settings: SerialPortSettings,
    progresses: Seq<OpenProgress>,
    replies: Seq<Reply>,
)
    requires
        !path.contains(0),
        is_opening_success(path, settings, progresses, replies),
    ensures
        is_opening_run(path, settings, progresses, replies),
        progresses.last() is Opened,
{
    lemma_opening_succeeds(path, settings, progresses, replies, 17);
    assert forall|i: int| 0 <= i < 17 implies is_opening_step(
        progresses[i],
        #[trigger] replies[i],
        progresses[i + 1],
    ) by {
        lemma_opening_succeeds(path, settings, progresses, replies, i);
    }
}

proof fn lemma_opening_succeeds(
    path: Seq<u8>,
    settings: SerialPortSettings,
    progresses: Seq<OpenProgress>,
    replies: Seq<Reply>,
    i: int,
)
    requires
        !path.contains(0),
        is_opening_success(path, settings, progresses, replies),
        0 <= i <= 17,
    ensures
        i < 17 ==> progresses[i] is Next && progresses[i]->Next_0.is_sound()
            && progresses[i]->Next_0.awaited() == 17 - i,
        i == 17 ==> progresses[i] is Opened,
    decreases i,
{
    if i > 0 {
        lemma_opening_succeeds(path, settings, progresses, replies, i - 1);
        let state = progresses[i - 1]->Next_0;
        assert(state.is_answered_well(replies[i - 1]));
        law_opening_stays_sound(state, replies[i - 1], progresses[i]);
    }
}

/// What holds of a stage of an opening that is not its end.
proof fn lemma_opening_stage(
    path: Seq<u8>,
    settings: SerialPortSettings,
    progresses: Seq<OpenProgress>,
    replies: Seq<Reply>,
    i: int,
)
    requires
        is_opening_run(path, settings, progresses, replies),
        0 <= i < replies.len(),
    ensures
        is_opening_step(progresses[i], replies[i], progresses[i + 1]),
        progresses[i] matches OpenProgress::Next(state, _) && {
            &&& state.is_sound()
            &&& state.settings() == settings
            &&& state.awaited() == 17 - i
            &&& state.holds_what_was_written(opening_actions(progresses, i + 1))
        },
    decreases i,
{
    let actions = opening_actions(progresses, i);
    assert(opening_actions(progresses, i + 1) =~= actions.push(progresses[i]->Next_1));
    assert(is_opening_step(progresses[i], replies[i], progresses[i + 1]));
    if i > 0 {
        lemma_opening_stage(path, settings, progresses, replies, i - 1);
        law_opening_stays_sound(progresses[i - 1]->Next_0, replies[i - 1], progresses[i]);
        law_changed_attributes_are_written(
            progresses[i - 1]->Next_0,
            actions,
            replies[i - 1],
            progresses[i]->Next_0,
            progresses[i]->Next_1,
        );
    }
}

/// The descriptor stays that of the first reply.
proof fn lemma_descriptor_kept(
    path: Seq<u8>,
    settings: SerialPortSettings,
    progresses: Seq<OpenProgress>,
    replies: Seq<Reply>,
    i: int,
)
    requires
        is_opening_run(path, settings, progresses, replies),
        1 <= i < replies.len(),
    ensures
        progresses[i]->Next_0.descriptor() == progresses[1]->Next_0.descriptor(),
        progresses[i]->Next_0.descriptor() is Some,
    decreases i,
{
    lemma_opening_stage(path, settings, progresses, replies, i);
    lemma_opening_stage(path, settings, progresses, replies, i - 1);
    law_opening_stays_sound(progresses[i - 1]->Next_0, replies[i - 1], progresses[i]);
    if i > 1 {
        lemma_descriptor_kept(path, settings, progresses, replies, i - 1);
    }
}

/// An opening begins with the device at just the path that was given, opened for reading and writing,
/// without it becoming the controlling terminal and without waiting for it. It fails at once exactly
/// where some byte of the path is NUL, as an invalid argument and without a port.
pub proof fn law_opening_begins_at_the_path(
    path: Seq<u8>,
    settings: SerialPortSettings,
    progress: OpenProgress,
)
    requires
        opening_begins(path, settings, progress),
    ensures
        progress is Next <==> forall|i: int| 0 <= i < path.len() ==> path[i] != 0,
        progress is Next ==> (progress->Next_1 matches Action::Open { path: bytes, flags } && bytes@
            == path && flags == O_RDWR | O_NOCTTY | O_NONBLOCK) && progress->Next_0 == (
        Opening::Device { settings }),
        !(progress is Next) ==> progress == (OpenProgress::Failed {
            error: Error::Os(EINVAL),
            port: None,
        }),
{
    if path.contains(0) {
        let i = choose|i: int| 0 <= i < path.len() && path[i] == 0;
        assert(path[i] == 0);
    } else {
        assert forall|i: int| 0 <= i < path.len() implies path[i] != 0 by {
            if path[i] == 0 {
                assert(path.contains(0));
            }
        }
    }
}

/// Each state awaits the replies that its action can have: opening the device and setting the status
/// flags return a value, reading attributes gives attributes or fails, and anything else is done or
/// fails.
pub proof fn law_states_await_the_replies_of_their_action(state: Opening, reply: Reply)
    ensures
        state is Device || state is Blocking ==> (state.awaits(reply) <==> reply is Returned),
        state is Attributes || state is ReadBack ==> (state.awaits(reply) <==> reply is Attributes
            || reply is Failed),
        state is Written || state is Flushed || state is Exclusive || state is Configuring ==> (
        state.awaits(reply) <==> reply is Done || reply is Failed),
{
}

/// A call that fails ends the opening: with the error number that it left, or with an input or
/// output error where it left none. Only a negative value says that a call which returns one has
/// failed. A port that was made by then comes along as it is, and without one none does.
pub proof fn law_failed_call_ends_the_opening(state: Opening, reply: Reply, progress: OpenProgress)
    requires
        state.awaits(reply),
        state.goes_on(reply, progress),
    ensures
        reply matches Reply::Failed(Some(errno)) ==> (
        progress matches OpenProgress::Failed { error, .. } && error == Error::Os(errno)),
        reply == Reply::Failed(None) ==> (progress matches OpenProgress::Failed { error, .. }
            && error == Error::Io),
        reply matches Reply::Returned { value, errno } ==> (value < 0 ==> (
        progress matches OpenProgress::Failed { error, .. } && error == Error::Os(errno))),
        reply is Failed || (reply matches Reply::Returned { value, .. } && value < 0) ==> (
        progress matches OpenProgress::Failed { port, .. } && port == match state {
            Opening::Exclusive { port: p, .. }
            | Opening::Blocking { port: p, .. }
            | Opening::Configuring { port: p, .. } => Some(p),
            _ => None,
        }),
        state matches Opening::ReadBack { requested, .. } ==> (reply matches Reply::Attributes(
            actual,
        ) ==> (actual != requested <==> progress == (OpenProgress::Failed {
            error: Error::NotApplied,
            port: None,
        }))),
{
}

/// A reply lets the opening go on exactly where it is awaited, no failure, and, if attributes are
/// read back, gives just those that were written; and where the baud rate comes next, that has a
/// code which `cfsetspeed` does not refuse.
pub proof fn law_good_replies_let_the_opening_go_on(state: Opening, reply: Reply)
    ensures
        state is Device ==> (state.is_answered_well(reply) <==> (
        reply matches Reply::Returned { value, .. } && value >= 0)),
        state is Attributes ==> (state.is_answered_well(reply) <==> reply is Attributes),
        state is Written || state is Flushed || state is Exclusive || state is Configuring ==> (
        state.is_answered_well(reply) <==> reply is Done),
        state matches Opening::ReadBack { requested, .. } ==> (state.is_answered_well(reply)
            <==> reply == Reply::Attributes(requested)),
        state matches Opening::Blocking { port, settings } ==> (state.is_answered_well(reply) <==> (
        reply matches Reply::Returned { value, .. } && baud::code_of(
            settings.baud_rate,
        ) matches Some(code) && value >= 0 && attributes::speed_refusal(port.termios, code)
            is None)),
{
}

/// The calls by which a device is opened, in their order: the device is opened and its attributes
/// are read; those attributes, set up for binary access, are written at once and read back over
/// themselves; both queues are flushed, exclusive access is acquired, and the status flags are
/// cleared; then the settings are set, each with a call that writes the attributes at once and one
/// that flushes both queues. All of them are on the descriptor that the first one returned.
pub proof fn law_device_is_opened_by_these_calls(
    path: Seq<u8>,
    settings: SerialPortSettings,
    progresses: Seq<OpenProgress>,
    replies: Seq<Reply>,
    port: TTYPort,
)
    requires
        is_opening_run(path, settings, progresses, replies),
        progresses.last() == OpenProgress::Opened(port),
    ensures
        replies.len() == 17,
        progresses[0]->Next_1 matches Action::Open { path: bytes, flags } && bytes@ == path && flags
            == O_RDWR | O_NOCTTY | O_NONBLOCK,
        replies[0] matches Reply::Returned { value, .. } && value == port.fd && value >= 0,
        progresses[1]->Next_1 == (Action::GetAttributes { fd: port.fd }),
        replies[1] matches Reply::Attributes(read) && progresses[2]->Next_1 matches
            Action::SetAttributes { fd, when, attributes: requested } && fd == port.fd && when
            == TCSANOW && attributes::made_raw(read, requested) && progresses[3]->Next_1 == (
        Action::GetAttributesOver { fd: port.fd, attributes: requested }) && replies[3]
            == Reply::Attributes(requested),
        progresses[4]->Next_1 == (Action::Flush { fd: port.fd, queue: TCIOFLUSH }),
        progresses[5]->Next_1 == (Action::AcquireExclusive { fd: port.fd }),
        progresses[6]->Next_1 == (Action::SetStatusFlags { fd: port.fd, flags: 0 }),
        forall|k: int|
            #![trigger progresses[7 + 2 * k]]
            0 <= k < 5 ==> (progresses[7 + 2 * k]->Next_1 matches
                Action::SetAttributes { fd, when, .. } && fd == port.fd && when == TCSANOW
                && progresses[8 + 2 * k]->Next_1 == (Action::Flush {
                fd: port.fd,
                queue: TCIOFLUSH,
            })),
{
    law_opened_port_is_configured(path, settings, progresses, replies, port);
    lemma_opened_from(path, settings, progresses, replies, port);
    let first = progresses[6]->Next_0.port()->0;
    let ports = configured_ports(progresses, port);
    let set = configured_stages(progresses);
    let oks = Seq::new(10, |i: int| Ok::<(), Option<i32>>(()));
    changes::law_set_all_writes_five_times(first, settings, ports, set, oks);
    assert forall|k: int|
        #![trigger progresses[7 + 2 * k]]
        0 <= k < 5 implies (progresses[7 + 2 * k]->Next_1 matches
        Action::SetAttributes { fd, when, .. } && fd == port.fd && when == TCSANOW
        && progresses[8 + 2 * k]->Next_1 == (Action::Flush { fd: port.fd, queue: TCIOFLUSH })) by {
        assert(set[2 * k] is Next);
        assert(set[2 * k]->Next_1 == progresses[7 + 2 * k]->Next_1);
        assert(set[2 * k + 1]->Next_1 == progresses[8 + 2 * k]->Next_1);
    }
}

/// The attributes of an opened port, against those that were read when it was opened: the bits of
/// the settings are those of the settings, input, output and lines are not processed, the receiver
/// is on and modem lines are ignored, a read waits for no byte and no time, and both speeds are the
/// code of the baud rate. Every other bit, every other control character and the line discipline are
/// as they were read. No input mode is on that was off, but those of flow control and parity.
pub proof fn law_opened_port_keeps_all_else(
    path: Seq<u8>,
    settings: SerialPortSettings,
    progresses: Seq<OpenProgress>,
    replies: Seq<Reply>,
    port: TTYPort,
)
    requires
        is_opening_run(path, settings, progresses, replies),
        progresses.last() == OpenProgress::Opened(port),
    ensures
        changes::has_bits_of(port.modes(), settings),
        port.timeout == settings.timeout,
        baud::code_of(settings.baud_rate) == Some(attributes::output_speed(port.termios)),
        baud::code_of(settings.baud_rate) == Some(attributes::input_speed(port.termios)),
        ({
            let read = replies[1]->Attributes_0;
            let before = attributes::modes_of(read);
            let after = port.modes();
            &&& after.c_iflag & (INLCR | IGNCR | ICRNL | IGNBRK) == 0
            &&& after.c_iflag & 0o077777 & !(INLCR | IGNCR | ICRNL | IGNBRK | IXON | IXOFF | INPCK
                | IGNPAR) == before.c_iflag & 0o077777 & !(INLCR | IGNCR | ICRNL | IGNBRK | IXON
                | IXOFF | INPCK | IGNPAR)
            &&& after.c_iflag & 0o077777 & !(IXON | IXOFF | INPCK | IGNPAR) & !before.c_iflag == 0
            &&& after.c_oflag & OPOST == 0
            &&& after.c_oflag & !OPOST == before.c_oflag & !OPOST
            &&& after.c_cflag & (CREAD | CLOCAL) == CREAD | CLOCAL
            &&& after.c_cflag & !(CREAD | CLOCAL | CBAUD | CIBAUD | CSIZE | CRTSCTS | PARENB
                | PARODD | CSTOPB) == before.c_cflag & !(CREAD | CLOCAL | CBAUD | CIBAUD | CSIZE
                | CRTSCTS | PARENB | PARODD | CSTOPB)
            &&& after.c_lflag & (ICANON | ECHO | ECHOE | ECHOK | ECHONL | ISIG | IEXTEN) == 0
            &&& after.c_lflag & !(ICANON | ECHO | ECHOE | ECHOK | ECHONL | ISIG | IEXTEN)
                == before.c_lflag & !(ICANON | ECHO | ECHOE | ECHOK | ECHONL | ISIG | IEXTEN)
            &&& attributes::control_characters(port.termios)[VMIN as int] == 0
            &&& attributes::control_characters(port.termios)[VTIME as int] == 0
            &&& forall|place: int|
                0 <= place < 32 && place != VMIN && place != VTIME ==> (
                #[trigger] attributes::control_characters(port.termios)[place])
                    == attributes::control_characters(read)[place]
            &&& attributes::line_discipline(port.termios) == attributes::line_discipline(read)
        }),
{
    law_opened_port_is_configured(path, settings, progresses, replies, port);
    lemma_opened_from(path, settings, progresses, replies, port);
    let read = replies[1]->Attributes_0;
    let first = progresses[6]->Next_0.port()->0;
    let ports = configured_ports(progresses, port);
    let set = configured_stages(progresses);
    let oks = Seq::new(10, |i: int| Ok::<(), Option<i32>>(()));
    changes::law_set_all_sets_just_the_settings(first, settings, ports, set, oks);
    attributes::law_binary_access_keeps_all_else(read, first.termios);
    let before = attributes::modes_of(read);
    let (r0, m0, p0) = (before.c_iflag, first.modes().c_iflag, port.modes().c_iflag);
    assert(p0 & (INLCR | IGNCR | ICRNL | IGNBRK) == 0 && p0 & 0o077777 & !(INLCR | IGNCR | ICRNL
        | IGNBRK | IXON | IXOFF | INPCK | IGNPAR) == r0 & 0o077777 & !(INLCR | IGNCR | ICRNL
        | IGNBRK | IXON | IXOFF | INPCK | IGNPAR) && p0 & 0o077777 & !(IXON | IXOFF | INPCK
        | IGNPAR) & !r0 == 0) by (bit_vector)
        requires
            m0 & (INLCR | IGNCR | ICRNL | IGNBRK) == 0,
            m0 & !(INLCR | IGNCR | ICRNL | IGNBRK) == r0 & !(INLCR | IGNCR | ICRNL | IGNBRK),
            p0 & 0o077777 & !(IXON | IXOFF | INPCK | IGNPAR) == m0 & 0o077777 & !(IXON | IXOFF
                | INPCK | IGNPAR),
    ;
    let (r1, m1, p1) = (before.c_cflag, first.modes().c_cflag, port.modes().c_cflag);
    assert(p1 & (CREAD | CLOCAL) == CREAD | CLOCAL && p1 & !(CREAD | CLOCAL | CBAUD | CIBAUD | CSIZE
        | CRTSCTS | PARENB | PARODD | CSTOPB) == r1 & !(CREAD | CLOCAL | CBAUD | CIBAUD | CSIZE
        | CRTSCTS | PARENB | PARODD | CSTOPB)) by (bit_vector)
        requires
            m1 & (CREAD | CLOCAL) == CREAD | CLOCAL,
            m1 & !(CREAD | CLOCAL) == r1 & !(CREAD | CLOCAL),
            p1 & !(CBAUD | CIBAUD | CSIZE | CRTSCTS | PARENB | PARODD | CSTOPB) == m1 & !(CBAUD
                | CIBAUD | CSIZE | CRTSCTS | PARENB | PARODD | CSTOPB),
    ;
}

/// The ports of the stages in which the settings are set, and the port that comes out.
spec fn configured_ports(progresses: Seq<OpenProgress>, port: TTYPort) -> Seq<TTYPort> {
    Seq::new(
        11,
        |i: int|
            if i < 10 {
                progresses[7 + i]->Next_0->Configuring_port
            } else {
                port
            },
    )
}

/// How far setting the settings came in the stages of an opening that has succeeded.
spec fn configured_stages(progresses: Seq<OpenProgress>) -> Seq<Progress<SetAll>> {
    Seq::new(
        11,
        |i: int|
            if i < 10 {
                Progress::Next(
                    progresses[7 + i]->Next_0->Configuring_stage,
                    progresses[7 + i]->Next_1,
                )
            } else {
                Progress::Finished
            },
    )
}

/// An opening that has succeeded set the attributes that were read up for binary access, and then
/// set all settings on a port with these.
proof fn lemma_opened_from(
    path: Seq<u8>,
    settings: SerialPortSettings,
    progresses: Seq<OpenProgress>,
    replies: Seq<Reply>,
    port: TTYPort,
)
    requires
        is_opening_run(path, settings, progresses, replies),
        progresses.last() == OpenProgress::Opened(port),
        replies.len() == 17,
    ensures
        replies[1] is Attributes,
        progresses[1]->Next_1 == (Action::GetAttributes { fd: port.fd }),
        progresses[2]->Next_1 matches Action::SetAttributes { fd, when, attributes: requested } && fd
            == port.fd && when == TCSANOW && attributes::made_raw(
            replies[1]->Attributes_0,
            requested,
        ) && progresses[3]->Next_1 == (Action::GetAttributesOver {
            fd: port.fd,
            attributes: requested,
        }) && replies[3] == Reply::Attributes(requested),
        progresses[4]->Next_1 == (Action::Flush { fd: port.fd, queue: TCIOFLUSH }),
        progresses[6]->Next_0 is Blocking,
        progresses[6]->Next_0.port()->0.fd == port.fd,
        attributes::made_raw(
            replies[1]->Attributes_0,
            progresses[6]->Next_0.port()->0.termios,
        ),
        changes::is_set_all_run(
            progresses[6]->Next_0.port()->0,
            settings,
            configured_ports(progresses, port),
            configured_stages(progresses),
            Seq::new(10, |i: int| Ok::<(), Option<i32>>(())),
        ),
        configured_stages(progresses).last() is Finished,
        configured_ports(progresses, port).last() == port,
{
    lemma_opening_stage(path, settings, progresses, replies, 0);
    lemma_opening_stage(path, settings, progresses, replies, 1);
    lemma_opening_stage(path, settings, progresses, replies, 2);
    lemma_opening_stage(path, settings, progresses, replies, 3);
    lemma_opening_stage(path, settings, progresses, replies, 4);
    lemma_opening_stage(path, settings, progresses, replies, 5);
    lemma_opening_stage(path, settings, progresses, replies, 6);
    lemma_opening_stage(path, settings, progresses, replies, 7);
    lemma_opening_stage(path, settings, progresses, replies, 16);
    lemma_descriptor_kept(path, settings, progresses, replies, 16);
    lemma_descriptor_kept(path, settings, progresses, replies, 6);
    law_opening_stays_sound(progresses[16]->Next_0, replies[16], progresses[17]);
    let first = progresses[6]->Next_0.port()->0;
    let ports = configured_ports(progresses, port);
    let set = configured_stages(progresses);
    let oks = Seq::new(10, |i: int| Ok::<(), Option<i32>>(()));
    assert(first.set_all_begins(settings, ports[0], set[0])) by {
        let (after, begun) = choose|after: TTYPort, begun: Progress<SetAll>|
            first.set_all_begins(settings, after, begun) && progresses[7] == configured(
                after,
                settings,
                begun,
            );
        assert(begun == set[0]);
        assert(after == ports[0]);
    }
    assert forall|i: int| 0 <= i < 10 implies changes::is_set_all_step(
        settings,
        ports[i],
        set[i],
        #[trigger] oks[i],
        ports[i + 1],
        set[i + 1],
    ) by {
        lemma_configuring_step(path, settings, progresses, replies, port, i);
    }
}

proof fn lemma_configuring_step(
    path: Seq<u8>,
    settings: SerialPortSettings,
    progresses: Seq<OpenProgress>,
    replies: Seq<Reply>,
    port: TTYPort,
    i: int,
)
    requires
        is_opening_run(path, settings, progresses, replies),
        progresses.last() == OpenProgress::Opened(port),
        replies.len() == 17,
        0 <= i < 10,
    ensures
        configured_ports(progresses, port)[i].set_all_goes_on(
            settings,
            configured_stages(progresses)[i]->Next_0,
            Ok(()),
            configured_ports(progresses, port)[i + 1],
            configured_stages(progresses)[i + 1],
        ),
{
    lemma_opening_stage(path, settings, progresses, replies, 7 + i);
    if i < 9 {
        lemma_opening_stage(path, settings, progresses, replies, 8 + i);
    }
    let state = progresses[7 + i]->Next_0;
    law_opening_stays_sound(state, replies[7 + i], progresses[8 + i]);
    let (after, next) = choose|after: TTYPort, next: Progress<SetAll>|
        state->Configuring_port.set_all_goes_on(
            settings,
            state->Configuring_stage,
            Ok(()),
            after,
            next,
        ) && progresses[8 + i] == configured(after, settings, next);
    assert(next == configured_stages(progresses)[i + 1]);
    assert(after == configured_ports(progresses, port)[i + 1]);
}

} // verus!
