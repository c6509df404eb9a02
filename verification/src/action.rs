//! What is to be done on a device, and what comes back.
use crate::error::Error;
use termios::Termios;
use vstd::prelude::*;

verus! {

/// Open for reading and writing.
pub const O_RDWR: i32 = 0x0002;

/// Do not make the device the controlling terminal.
pub const O_NOCTTY: i32 = 0x0100;

/// Do not wait for the device.
pub const O_NONBLOCK: i32 = 0x0800;

/// Let new attributes take effect at once.
pub const TCSANOW: i32 = 0;

/// Discard what was received and what is still to be sent.
pub const TCIOFLUSH: i32 = 2;

/// One call of the operating system.
#[derive(Debug, PartialEq, Eq)]
pub enum Action {
    /// Open the device at this path, in bytes, with these flags.
    Open { path: Vec<u8>, flags: i32 },
    /// Read the attributes.
    GetAttributes { fd: i32 },
    /// Read the attributes over these, which stay where nothing is read.
    GetAttributesOver { fd: i32, attributes: Termios },
    /// Write the attributes.
    SetAttributes { fd: i32, when: i32, attributes: Termios },
    /// Discard the data of a queue.
    Flush { fd: i32, queue: i32 },
    /// Keep others from opening the device.
    AcquireExclusive { fd: i32 },
    /// Let others open the device again.
    ReleaseExclusive { fd: i32 },
    /// Set the status flags of the descriptor.
    SetStatusFlags { fd: i32, flags: i32 },
    /// Raise modem lines.
    SetPins { fd: i32, pins: i32 },
    /// Lower modem lines.
    ClearPins { fd: i32, pins: i32 },
    /// Read the modem lines.
    GetPins { fd: i32 },
    /// Close the descriptor.
    Close { fd: i32 },
}

/// What an action came to.
#[derive(Clone, Copy, Debug, PartialEq, Eq)]
pub enum Reply {
    /// The action was done.
    Done,
    /// The action failed, and left this error number, if any.
    Failed(Option<i32>),
    /// The action returned a value. A negative one says that it failed and left this error number.
    Returned { value: i32, errno: i32 },
    /// The attributes that were read.
    Attributes(Termios),
}

/// The two steps in which the attributes of a port reach its device.
#[derive(Clone, Copy, Debug, PartialEq, Eq, Structural)]
pub enum WriteStep {
    /// The attributes are written.
    Attributes,
    /// The queues are flushed.
    Flush,
}

/// How far a task on an open port has come.
#[derive(Debug, PartialEq, Eq)]
pub enum Progress<S> {
    /// The action is to be done; what it comes to is awaited in the state.
    Next(S, Action),
    /// The task is done.
    Finished,
    /// The task failed.
    Failed(Error),
}

/// The attributes that were written last on the descriptor, where these actions were done one after
/// the other. There are none where no action wrote attributes there.
pub open spec fn last_written(actions: Seq<Action>, fd: i32) -> Option<Termios>
    decreases actions.len(),
{
    if actions.len() == 0 {
        None
    } else {
        match actions.last() {
            Action::SetAttributes { fd: written, attributes, .. } if written == fd => Some(
                attributes,
            ),
            _ => last_written(actions.drop_last(), fd),
        }
    }
}

/// The actions of the first `count` stages of a task on an open port.
pub open spec fn actions_of<S>(progresses: Seq<Progress<S>>, count: int) -> Seq<Action> {
    Seq::new(count as nat, |i: int| progresses[i]->Next_1)
}

/// One more action writes its own attributes, or leaves those that were written before it.
pub(crate) proof fn lemma_last_written(actions: Seq<Action>, action: Action, fd: i32)
    ensures
        last_written(actions.push(action), fd) == match action {
            Action::SetAttributes { fd: written, attributes, .. } if written == fd => Some(
                attributes,
            ),
            _ => last_written(actions, fd),
        },
{
    assert(actions.push(action).drop_last() =~= actions);
}

} // verus!
