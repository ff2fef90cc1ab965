//! The requests that a card session makes, and what it means for a run of
//! requests to treat the card's resources in order.
//!
//! A session does no input or output. It names the next request; whoever
//! drives it performs the request on the card and hands the reply back.
//! Three requests acquire a resource when they succeed: connecting starts
//! the device session, opening the root directory yields a directory, and
//! opening a file yields a file. Three requests release one.

use vstd::prelude::*;
use crate::error::{ControllerError, DeviceError};

verus! {

/// How many volume slots a card is searched for a volume.
pub const VOLUME_SLOTS: usize = 4;

/// How a file is opened.
#[derive(Debug, Clone, Copy, PartialEq, Eq)]
pub enum Mode {
    /// For reading, if it exists.
    ReadOnly,
    /// For writing at its end, if it exists.
    ReadWriteAppend,
    /// For writing from its start with its contents removed, if it exists.
    ReadWriteTruncate,
    /// As a new empty file; this fails if it exists.
    ReadWriteCreate,
    /// As a new empty file, or with its contents removed if it exists.
    ReadWriteCreateOrTruncate,
    /// As a new empty file, or for writing at its end if it exists.
    ReadWriteCreateOrAppend,
}

/// What is due in a session: an operation to make, or nothing more and the
/// result of the session.
#[derive(Debug, PartialEq, Eq)]
pub enum Turn<T> {
    /// This operation is to be made and its reply handed to the session.
    Perform(StorageAction),
    /// The session is over with this result.
    Over(T),
}

/// One operation on the card.
#[derive(Debug, Clone, Copy, PartialEq, Eq)]
pub enum StorageAction {
    /// Start the device session.
    Connect,
    /// Read the size of the card in bytes.
    ReadCardSize,
    /// Open the volume in this slot.
    OpenVolume(usize),
    /// Open the root directory of the volume that was opened in this slot.
    OpenRootDir(usize),
    /// Open the file in the open directory in this mode.
    OpenFile(Mode),
    /// Write the data to the open file at its end.
    Write,
    /// Close the open file.
    CloseFile,
    /// Close the open directory.
    CloseDir,
    /// End the device session.
    Disconnect,
}

/// What the card answered to an operation.
#[derive(Debug, Clone, Copy, PartialEq, Eq)]
pub enum StorageReply {
    /// The operation succeeded.
    Done,
    /// The size of the card in bytes.
    CardSize(u64),
    /// The device failed.
    DeviceFault(DeviceError),
    /// The volume and file layer failed.
    ControllerFault(ControllerError),
}

/// What a session holds on the card and has to give back.
#[derive(Debug, Clone, Copy, PartialEq, Eq)]
pub enum Resource {
    /// The device session.
    Session,
    /// An open directory.
    Directory,
    /// An open file.
    File,
}

/// An operation together with the reply it received.
pub type Step = (StorageAction, StorageReply);

impl StorageAction {
    /// Whether `reply` is an answer to the operation. Operations on the
    /// device fail with a device fault, operations on volumes, directories
    /// and files with a controller fault. A release is answered by any
    /// reply, since its failure changes nothing.
    pub open spec fn answered_by(self, reply: StorageReply) -> bool {
        match self {
            StorageAction::Connect => reply is Done || reply is DeviceFault,
            StorageAction::ReadCardSize => reply is CardSize || reply is DeviceFault,
            StorageAction::OpenVolume(_) => reply is Done || reply is ControllerFault,
            StorageAction::OpenRootDir(_) => reply is Done || reply is ControllerFault,
            StorageAction::OpenFile(_) => reply is Done || reply is ControllerFault,
            StorageAction::Write => reply is Done || reply is ControllerFault,
            StorageAction::CloseFile => true,
            StorageAction::CloseDir => true,
            StorageAction::Disconnect => true,
        }
    }

    /// The resource that the operation acquires when it succeeds.
    pub open spec fn acquires(self) -> Option<Resource> {
        match self {
            StorageAction::Connect => Some(Resource::Session),
            StorageAction::OpenRootDir(_) => Some(Resource::Directory),
            StorageAction::OpenFile(_) => Some(Resource::File),
            _ => None,
        }
    }

    /// The resource that the operation releases.
    pub open spec fn releases(self) -> Option<Resource> {
        match self {
            StorageAction::CloseFile => Some(Resource::File),
            StorageAction::CloseDir => Some(Resource::Directory),
            StorageAction::Disconnect => Some(Resource::Session),
            _ => None,
        }
    }

    /// The resource that must be held for the operation to be made.
    pub open spec fn needs(self) -> Option<Resource> {
        match self {
            StorageAction::Connect => None,
            StorageAction::ReadCardSize => Some(Resource::Session),
            StorageAction::OpenVolume(_) => Some(Resource::Session),
            StorageAction::OpenRootDir(_) => Some(Resource::Session),
            StorageAction::OpenFile(_) => Some(Resource::Directory),
            StorageAction::Write => Some(Resource::File),
            StorageAction::CloseFile => Some(Resource::File),
            StorageAction::CloseDir => Some(Resource::Directory),
            StorageAction::Disconnect => Some(Resource::Session),
        }
    }

    /// Whether `reply` answers the operation.
    pub fn is_answered_by(&self, reply: &StorageReply) -> (answered: bool)
        ensures
            answered == self.answered_by(*reply),
    {
        match self {
            StorageAction::Connect => matches!(reply, StorageReply::Done | StorageReply::DeviceFault(_)),
            StorageAction::ReadCardSize => matches!(
                reply,
                StorageReply::CardSize(_) | StorageReply::DeviceFault(_)
            ),
            StorageAction::OpenVolume(_)
            | StorageAction::OpenRootDir(_)
            | StorageAction::OpenFile(_)
            | StorageAction::Write => matches!(
                reply,
                StorageReply::Done | StorageReply::ControllerFault(_)
            ),
            StorageAction::CloseFile | StorageAction::CloseDir | StorageAction::Disconnect => true,
        }
    }
}

/// Whether the step acquired a resource: the operation acquires one and it
/// succeeded.
pub open spec fn acquired_by(step: Step) -> Option<Resource> {
    if step.1 is Done {
        step.0.acquires()
    } else {
        None
    }
}

/// The resources held after the steps, the one acquired last at the end.
pub open spec fn held(steps: Seq<Step>) -> Seq<Resource>
    decreases steps.len(),
{
    if steps.len() == 0 {
        Seq::empty()
    } else {
        let before = held(steps.drop_last());
        if steps.last().0.releases() is Some {
            before.drop_last()
        } else if acquired_by(steps.last()) is Some {
            before.push(acquired_by(steps.last())->0)
        } else {
            before
        }
    }
}

/// The resources that the steps acquired, in the order of acquisition.
pub open spec fn acquired(steps: Seq<Step>) -> Seq<Resource>
    decreases steps.len(),
{
    if steps.len() == 0 {
        Seq::empty()
    } else if acquired_by(steps.last()) is Some {
        acquired(steps.drop_last()).push(acquired_by(steps.last())->0)
    } else {
        acquired(steps.drop_last())
    }
}

/// The resources that the steps released, in the order of release.
pub open spec fn released(steps: Seq<Step>) -> Seq<Resource>
    decreases steps.len(),
{
    if steps.len() == 0 {
        Seq::empty()
    } else if steps.last().0.releases() is Some {
        released(steps.drop_last()).push(steps.last().0.releases()->0)
    } else {
        released(steps.drop_last())
    }
}

/// How many of the steps made the operation `action`.
pub open spec fn times_asked(steps: Seq<Step>, action: StorageAction) -> nat
    decreases steps.len(),
{
    if steps.len() == 0 {
        0
    } else if steps.last().0 == action {
        times_asked(steps.drop_last(), action) + 1
    } else {
        times_asked(steps.drop_last(), action)
    }
}

/// How many of the steps made the operation `action` with success.
pub open spec fn times_done(steps: Seq<Step>, action: StorageAction) -> nat
    decreases steps.len(),
{
    if steps.len() == 0 {
        0
    } else if steps.last() == (action, StorageReply::Done) {
        times_done(steps.drop_last(), action) + 1
    } else {
        times_done(steps.drop_last(), action)
    }
}

/// Whether every step met the resources in order: an operation is made
/// only while what it needs is held, nothing is acquired that is held
/// already, and a release gives back the resource that was acquired last
/// among those still held.
pub open spec fn orderly(steps: Seq<Step>) -> bool
    decreases steps.len(),
{
    steps.len() == 0 || {
        let before = held(steps.drop_last());
        let action = steps.last().0;
        &&& orderly(steps.drop_last())
        &&& action.needs() matches Some(resource) ==> before.contains(resource)
        &&& action.acquires() matches Some(resource) ==> !before.contains(resource)
        &&& action.releases() matches Some(resource) ==> before.len() > 0 && before.last()
            == resource
    }
}

} // verus!
