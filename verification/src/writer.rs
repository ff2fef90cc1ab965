//! Appending a record to a file in the root directory of the card.
//!
//! The session connects, searches the volume slots from the first for one
//! that opens, opens the root directory and the file, and writes. Whatever
//! step fails, it then closes the file if it was opened, closes the
//! directory if it was opened, and ends the device session, before it
//! reports the failure of that step. A failure to release is passed over.

use vstd::prelude::*;
use vstd::string::StringSliceAdditionalSpecFns;
use crate::error::{ControllerError, DatalogError};
use crate::storage::{
    acquired, held, orderly, released, times_asked, times_done, Mode, Resource, Step,
    StorageAction, StorageReply, Turn, VOLUME_SLOTS,
};

verus! {

/// Where a session stands: the operation that it waits for, or its end.
#[derive(Debug, Clone, Copy, PartialEq, Eq)]
pub enum AppendPhase {
    /// The device session is to be started.
    Connect,
    /// The volume in this slot is to be opened.
    OpenVolume(usize),
    /// The root directory of the volume that opened in this slot is to be
    /// opened.
    OpenRootDir(usize),
    /// The file is to be opened, and created if it does not exist, for
    /// reading and for writing at its end.
    OpenFile,
    /// The record is to be written.
    Write,
    /// The file is to be closed; the result is what the session will report.
    CloseFile(Result<(), DatalogError>),
    /// The directory is to be closed.
    CloseDir(Result<(), DatalogError>),
    /// The device session is to be ended.
    Disconnect(Result<(), DatalogError>),
    /// The session is over with this result.
    Finished(Result<(), DatalogError>),
}

/// A session that appends `file_data` to the file named `file_name`.
#[derive(Debug, Clone, Copy, PartialEq, Eq)]
pub struct AppendSession<'a> {
    pub file_name: &'a str,
    pub file_data: &'a str,
    pub phase: AppendPhase,
}

impl AppendPhase {
    /// The operation that the session waits for, if it is not over.
    pub open spec fn request(self) -> Option<StorageAction> {
        match self {
            AppendPhase::Connect => Some(StorageAction::Connect),
            AppendPhase::OpenVolume(volume_index) => Some(StorageAction::OpenVolume(volume_index)),
            AppendPhase::OpenRootDir(volume_index) => Some(
                StorageAction::OpenRootDir(volume_index),
            ),
            AppendPhase::OpenFile => Some(
                StorageAction::OpenFile(Mode::ReadWriteCreateOrAppend),
            ),
            AppendPhase::Write => Some(StorageAction::Write),
            AppendPhase::CloseFile(_) => Some(StorageAction::CloseFile),
            AppendPhase::CloseDir(_) => Some(StorageAction::CloseDir),
            AppendPhase::Disconnect(_) => Some(StorageAction::Disconnect),
            AppendPhase::Finished(_) => None,
        }
    }

    /// Whether `reply` answers the operation that the session waits for.
    pub open spec fn accepts(self, reply: StorageReply) -> bool {
        self.request() matches Some(action) && action.answered_by(reply)
    }

    /// Where the session stands after `reply`. A reply that is not accepted
    /// changes nothing.
    pub open spec fn next(self, reply: StorageReply) -> AppendPhase {
        match self {
            AppendPhase::Connect => match reply {
                StorageReply::Done => AppendPhase::OpenVolume(0),
                StorageReply::DeviceFault(error) => AppendPhase::Finished(
                    Err(DatalogError::CannotConnect(error)),
                ),
                _ => self,
            },
            AppendPhase::OpenVolume(volume_index) => match reply {
                StorageReply::Done => AppendPhase::OpenRootDir(volume_index),
                StorageReply::ControllerFault(_) => if volume_index + 1 < VOLUME_SLOTS {
                    AppendPhase::OpenVolume((volume_index + 1) as usize)
                } else {
                    AppendPhase::Disconnect(Err(DatalogError::NoSuitableVolume))
                },
                _ => self,
            },
            AppendPhase::OpenRootDir(_) => match reply {
                StorageReply::Done => AppendPhase::OpenFile,
                StorageReply::ControllerFault(error) => AppendPhase::Disconnect(
                    Err(DatalogError::CannotReadRootDir(error)),
                ),
                _ => self,
            },
            AppendPhase::OpenFile => match reply {
                StorageReply::Done => AppendPhase::Write,
                StorageReply::ControllerFault(error) => AppendPhase::CloseDir(
                    Err(DatalogError::CannotOpenFile(error)),
                ),
                _ => self,
            },
            AppendPhase::Write => match reply {
                StorageReply::Done => AppendPhase::CloseFile(Ok(())),
                StorageReply::ControllerFault(error) => AppendPhase::CloseFile(
                    Err(DatalogError::CannotWriteToOpenedFile(error)),
                ),
                _ => self,
            },
            AppendPhase::CloseFile(result) => AppendPhase::CloseDir(result),
            AppendPhase::CloseDir(result) => AppendPhase::Disconnect(result),
            AppendPhase::Disconnect(result) => AppendPhase::Finished(result),
            AppendPhase::Finished(_) => self,
        }
    }

    /// The resources that the session holds, the one acquired last at the
    /// end.
    pub open spec fn holding(self) -> Seq<Resource> {
        match self {
            AppendPhase::Connect => seq![],
            AppendPhase::OpenVolume(_) => seq![Resource::Session],
            AppendPhase::OpenRootDir(_) => seq![Resource::Session],
            AppendPhase::OpenFile => seq![Resource::Session, Resource::Directory],
            AppendPhase::Write => seq![Resource::Session, Resource::Directory, Resource::File],
            AppendPhase::CloseFile(_) => seq![
                Resource::Session,
                Resource::Directory,
                Resource::File,
            ],
            AppendPhase::CloseDir(_) => seq![Resource::Session, Resource::Directory],
            AppendPhase::Disconnect(_) => seq![Resource::Session],
            AppendPhase::Finished(_) => seq![],
        }
    }

    /// Whether the session has begun to release what it holds, or is over.
    pub open spec fn winding_up(self) -> bool {
        self is CloseFile || self is CloseDir || self is Disconnect || self is Finished
    }

    /// The most operations that the session can still make.
    pub open spec fn steps_left(self) -> nat {
        match self {
            AppendPhase::Connect => 11,
            AppendPhase::OpenVolume(volume_index) => if volume_index < VOLUME_SLOTS {
                (10 - volume_index) as nat
            } else {
                7
            },
            AppendPhase::OpenRootDir(_) => 6,
            AppendPhase::OpenFile => 5,
            AppendPhase::Write => 4,
            AppendPhase::CloseFile(_) => 3,
            AppendPhase::CloseDir(_) => 2,
            AppendPhase::Disconnect(_) => 1,
            AppendPhase::Finished(_) => 0,
        }
    }
}

/// A session that appends `file_data` to the file named `file_name` in the
/// root directory of the first volume that opens. The file is created if it
/// does not exist. The session begins by connecting.
pub fn append_to_file<'a>(file_name: &'a str, file_data: &'a str) -> (session: AppendSession<'a>)
    ensures
        session.file_name == file_name,
        session.file_data == file_data,
        session.phase == AppendPhase::Connect,
{
    AppendSession { file_name, file_data, phase: AppendPhase::Connect }
}

/// Where the session stands after the reply to opening the volume in slot
/// `volume_index`: the first volume that opens is taken; after a failure
/// the next slot is tried, and after the last slot the search has failed.
pub fn open_volume(volume_index: usize, reply: &StorageReply) -> (next: AppendPhase)
    ensures
        next == AppendPhase::OpenVolume(volume_index).next(*reply),
{
    match reply {
        StorageReply::Done => AppendPhase::OpenRootDir(volume_index),
        StorageReply::ControllerFault(_) => {
            if volume_index < VOLUME_SLOTS - 1 {
                AppendPhase::OpenVolume(volume_index + 1)
            } else {
                AppendPhase::Disconnect(Err(DatalogError::NoSuitableVolume))
            }
        },
        _ => AppendPhase::OpenVolume(volume_index),
    }
}

/// Where the session stands after the reply to opening the root directory
/// of the volume in slot `volume_index`.
pub fn write_to_volume(volume_index: usize, reply: &StorageReply) -> (next: AppendPhase)
    ensures
        next == AppendPhase::OpenRootDir(volume_index).next(*reply),
{
    match reply {
        StorageReply::Done => AppendPhase::OpenFile,
        StorageReply::ControllerFault(error) => AppendPhase::Disconnect(
            Err(DatalogError::CannotReadRootDir(*error)),
        ),
        _ => AppendPhase::OpenRootDir(volume_index),
    }
}

/// Where the session stands after the reply to opening the file.
pub fn write_to_file_in_dir(reply: &StorageReply) -> (next: AppendPhase)
    ensures
        next == AppendPhase::OpenFile.next(*reply),
{
    match reply {
        StorageReply::Done => AppendPhase::Write,
        StorageReply::ControllerFault(error) => AppendPhase::CloseDir(
            Err(DatalogError::CannotOpenFile(*error)),
        ),
        _ => AppendPhase::OpenFile,
    }
}

/// Where the session stands after the reply to writing the record.
pub fn write_to_opened_file(reply: &StorageReply) -> (next: AppendPhase)
    ensures
        next == AppendPhase::Write.next(*reply),
{
    match reply {
        StorageReply::Done => AppendPhase::CloseFile(Ok(())),
        StorageReply::ControllerFault(error) => AppendPhase::CloseFile(
            Err(DatalogError::CannotWriteToOpenedFile(*error)),
        ),
        _ => AppendPhase::Write,
    }
}

impl<'a> AppendSession<'a> {
    /// The operation to make next, or none when the session is over.
    pub fn request(&self) -> (action: Option<StorageAction>)
        ensures
            action == self.phase.request(),
    {
        match self.phase {
            AppendPhase::Connect => Some(StorageAction::Connect),
            AppendPhase::OpenVolume(volume_index) => Some(StorageAction::OpenVolume(volume_index)),
            AppendPhase::OpenRootDir(volume_index) => Some(
                StorageAction::OpenRootDir(volume_index),
            ),
            AppendPhase::OpenFile => Some(
                StorageAction::OpenFile(Mode::ReadWriteCreateOrAppend),
            ),
            AppendPhase::Write => Some(StorageAction::Write),
            AppendPhase::CloseFile(_) => Some(StorageAction::CloseFile),
            AppendPhase::CloseDir(_) => Some(StorageAction::CloseDir),
            AppendPhase::Disconnect(_) => Some(StorageAction::Disconnect),
            AppendPhase::Finished(_) => None,
        }
    }

    /// Takes the reply to the operation that was asked for and moves on.
    /// A reply that does not answer that operation is refused and leaves
    /// the session as it was.
    pub fn advance(&mut self, reply: StorageReply) -> (accepted: bool)
        ensures
            accepted == old(self).phase.accepts(reply),
            final(self).phase == old(self).phase.next(reply),
            final(self).file_name == old(self).file_name,
            final(self).file_data == old(self).file_data,
    {
        let accepted = match self.request() {
            Some(action) => action.is_answered_by(&reply),
            None => false,
        };
        self.phase = match self.phase {
            AppendPhase::Connect => match reply {
                StorageReply::Done => AppendPhase::OpenVolume(0),
                StorageReply::DeviceFault(error) => AppendPhase::Finished(
                    Err(DatalogError::CannotConnect(error)),
                ),
                _ => AppendPhase::Connect,
            },
            AppendPhase::OpenVolume(volume_index) => open_volume(volume_index, &reply),
            AppendPhase::OpenRootDir(volume_index) => write_to_volume(volume_index, &reply),
            AppendPhase::OpenFile => write_to_file_in_dir(&reply),
            AppendPhase::Write => write_to_opened_file(&reply),
            AppendPhase::CloseFile(result) => AppendPhase::CloseDir(result),
            AppendPhase::CloseDir(result) => AppendPhase::Disconnect(result),
            AppendPhase::Disconnect(result) => AppendPhase::Finished(result),
            AppendPhase::Finished(result) => AppendPhase::Finished(result),
        };
        accepted
    }

    /// What is due: the operation to make next, or the result when the
    /// session is over.
    pub fn turn(&self) -> (turn: Turn<Result<(), DatalogError>>)
        ensures
            turn == match self.phase {
                AppendPhase::Finished(result) => Turn::Over(result),
                _ => Turn::Perform(self.phase.request()->0),
            },
    {
        match self.phase {
            AppendPhase::Finished(result) => Turn::Over(result),
            AppendPhase::Connect => Turn::Perform(StorageAction::Connect),
            AppendPhase::OpenVolume(volume_index) => Turn::Perform(
                StorageAction::OpenVolume(volume_index),
            ),
            AppendPhase::OpenRootDir(volume_index) => Turn::Perform(
                StorageAction::OpenRootDir(volume_index),
            ),
            AppendPhase::OpenFile => Turn::Perform(
                StorageAction::OpenFile(Mode::ReadWriteCreateOrAppend),
            ),
            AppendPhase::Write => Turn::Perform(StorageAction::Write),
            AppendPhase::CloseFile(_) => Turn::Perform(StorageAction::CloseFile),
            AppendPhase::CloseDir(_) => Turn::Perform(StorageAction::CloseDir),
            AppendPhase::Disconnect(_) => Turn::Perform(StorageAction::Disconnect),
        }
    }

    /// The result of the session, once it is over.
    pub fn result(&self) -> (result: Option<Result<(), DatalogError>>)
        ensures
            result == match self.phase {
                AppendPhase::Finished(r) => Some(r),
                _ => None::<Result<(), DatalogError>>,
            },
    {
        match self.phase {
            AppendPhase::Finished(result) => Some(result),
            _ => None,
        }
    }

    /// The bytes to write: the record as it is, nothing added.
    pub fn bytes(&self) -> (bytes: &'a [u8])
        ensures
            bytes@ == self.file_data.spec_bytes(),
    {
        self.file_data.as_bytes()
    }
}

/// Where a session stands after it took the replies, from its beginning.
pub open spec fn phase_after(replies: Seq<StorageReply>) -> AppendPhase
    decreases replies.len(),
{
    if replies.len() == 0 {
        AppendPhase::Connect
    } else {
        phase_after(replies.drop_last()).next(replies.last())
    }
}

/// Whether a session accepts the replies one after the other, from its
/// beginning.
pub open spec fn accepted(replies: Seq<StorageReply>) -> bool
    decreases replies.len(),
{
    replies.len() == 0 || (accepted(replies.drop_last()) && phase_after(
        replies.drop_last(),
    ).accepts(replies.last()))
}

/// The operations that a session asked for while it took the replies, each
/// with its reply.
pub open spec fn steps_taken(replies: Seq<StorageReply>) -> Seq<Step>
    decreases replies.len(),
{
    if replies.len() == 0 {
        Seq::empty()
    } else {
        steps_taken(replies.drop_last()).push(
            (phase_after(replies.drop_last()).request()->0, replies.last()),
        )
    }
}

/// The resources in the order in which a session acquires them.
pub open spec fn nesting() -> Seq<Resource> {
    seq![Resource::Session, Resource::Directory, Resource::File]
}

/// Whatever the card answers, a session meets the resources in order and
/// holds what its phase says. What it has acquired is what it holds and,
/// behind that, what it has released, last released first; it releases
/// nothing before it winds up; and it acquires the device session, the
/// directory and the file in this order, none of them twice.
pub proof fn lemma_session_is_orderly(replies: Seq<StorageReply>)
    requires
        accepted(replies),
    ensures
        orderly(steps_taken(replies)),
        held(steps_taken(replies)) == phase_after(replies).holding(),
        acquired(steps_taken(replies)) == phase_after(replies).holding() + released(
            steps_taken(replies),
        ).reverse(),
        !phase_after(replies).winding_up() ==> released(steps_taken(replies)).len() == 0,
        acquired(steps_taken(replies)).len() <= 3,
        acquired(steps_taken(replies)) == nesting().take(
            acquired(steps_taken(replies)).len() as int,
        ),
    decreases replies.len(),
{
    if replies.len() > 0 {
        let earlier = replies.drop_last();
        lemma_session_is_orderly(earlier);
        let before = steps_taken(earlier);
        let steps = steps_taken(replies);
        assert(steps.drop_last() =~= before);
        let phase = phase_after(earlier);
        assert(phase.holding() =~= held(before));
        assert(held(steps) =~= phase_after(replies).holding());
        if phase.request()->0.releases() is Some {
            let resource = phase.request()->0.releases()->0;
            assert(released(steps) == released(before).push(resource));
            assert(released(steps).reverse() =~= seq![resource] + released(before).reverse());
        }
        assert(acquired(steps) =~= phase_after(replies).holding() + released(steps).reverse());
        assert(acquired(steps) =~= nesting().take(acquired(steps).len() as int));
    } else {
        assert(acquired(steps_taken(replies)) =~= phase_after(replies).holding() + released(
            steps_taken(replies),
        ).reverse());
    }
}

/// Release is unconditional. Whatever the card answers and whichever step
/// fails, a session that is over holds nothing, and it has released exactly
/// what it acquired, once each, in the reverse order of acquisition.
pub proof fn lemma_release_is_unconditional(replies: Seq<StorageReply>)
    requires
        accepted(replies),
        phase_after(replies) is Finished,
    ensures
        orderly(steps_taken(replies)),
        held(steps_taken(replies)).len() == 0,
        released(steps_taken(replies)) == acquired(steps_taken(replies)).reverse(),
        acquired(steps_taken(replies)) == nesting().take(
            acquired(steps_taken(replies)).len() as int,
        ),
{
    lemma_session_is_orderly(replies);
    let gone = released(steps_taken(replies));
    assert(acquired(steps_taken(replies)) =~= gone.reverse());
    assert(gone.reverse().reverse() =~= gone);
}

/// The record is written once at most, and the result tells whether it
/// was. A session that ends well has written the record exactly once, with
/// success. A session that ends with a failure has not written it with
/// success; unless the failure is that of the write, it has not asked for a
/// write at all.
pub proof fn lemma_record_is_written_once(replies: Seq<StorageReply>)
    requires
        accepted(replies),
    ensures
        times_asked(steps_taken(replies), StorageAction::Write) <= 1,
        times_done(steps_taken(replies), StorageAction::Write) <= times_asked(
            steps_taken(replies),
            StorageAction::Write,
        ),
        match phase_after(replies) {
            AppendPhase::CloseFile(result)
            | AppendPhase::CloseDir(result)
            | AppendPhase::Disconnect(result)
            | AppendPhase::Finished(result) => match result {
                Ok(_) => times_done(steps_taken(replies), StorageAction::Write) == 1,
                Err(DatalogError::CannotWriteToOpenedFile(_)) => {
                    &&& times_asked(steps_taken(replies), StorageAction::Write) == 1
                    &&& times_done(steps_taken(replies), StorageAction::Write) == 0
                },
                Err(_) => times_asked(steps_taken(replies), StorageAction::Write) == 0,
            },
            _ => times_asked(steps_taken(replies), StorageAction::Write) == 0,
        },
    decreases replies.len(),
{
    if replies.len() > 0 {
        let earlier = replies.drop_last();
        lemma_record_is_written_once(earlier);
        assert(steps_taken(replies).drop_last() =~= steps_taken(earlier));
    }
}

/// A session comes to its end: it makes eleven operations at most, and as
/// long as it is not over there is a reply that it accepts.
pub proof fn lemma_session_ends(replies: Seq<StorageReply>)
    requires
        accepted(replies),
    ensures
        replies.len() + phase_after(replies).steps_left() <= 11,
        phase_after(replies).steps_left() == 0 <==> phase_after(replies) is Finished,
        !(phase_after(replies) is Finished) ==> phase_after(replies).accepts(StorageReply::Done),
    decreases replies.len(),
{
    if replies.len() > 0 {
        lemma_session_ends(replies.drop_last());
    }
}

/// The volume slots are tried from the first, one after the other: when a
/// session asks for the volume in a slot, it has connected and every slot
/// before that one has failed to open, and nothing else has happened.
pub proof fn lemma_slots_are_tried_in_turn(replies: Seq<StorageReply>, slot: usize)
    requires
        accepted(replies),
        phase_after(replies) == AppendPhase::OpenVolume(slot),
    ensures
        slot < VOLUME_SLOTS,
        replies.len() == slot + 1,
        replies[0] is Done,
        forall|i: int| 1 <= i <= slot ==> replies[i] is ControllerFault,
    decreases replies.len(),
{
    lemma_connects_first(replies);
    let earlier = replies.drop_last();
    lemma_connects_first(earlier);
    if phase_after(earlier) is OpenVolume {
        let tried = phase_after(earlier)->OpenVolume_0;
        lemma_slots_are_tried_in_turn(earlier, tried);
        assert forall|i: int| 1 <= i <= slot implies replies[i] is ControllerFault by {
            if i < slot {
                assert(replies[i] == earlier[i]);
            }
        }
    }
}

/// The session goes on with the first volume that opens: when it asks for
/// a root directory, it asks for that of the volume in the slot that opened
/// last, after every slot before that one had failed.
pub proof fn lemma_first_open_volume_is_used(replies: Seq<StorageReply>, slot: usize)
    requires
        accepted(replies),
        phase_after(replies) == AppendPhase::OpenRootDir(slot),
    ensures
        slot < VOLUME_SLOTS,
        replies.len() == slot + 2,
        replies[0] is Done,
        forall|i: int| 1 <= i <= slot ==> replies[i] is ControllerFault,
        replies[slot + 1] is Done,
{
    let earlier = replies.drop_last();
    lemma_connects_first(earlier);
    lemma_slots_are_tried_in_turn(earlier, slot);
    assert forall|i: int| 1 <= i <= slot implies replies[i] is ControllerFault by {
        assert(replies[i] == earlier[i]);
    }
    assert(replies[0] == earlier[0]);
}

/// A session waits to connect only at its beginning.
pub proof fn lemma_connects_first(replies: Seq<StorageReply>)
    requires
        accepted(replies),
    ensures
        phase_after(replies) is Connect <==> replies.len() == 0,
    decreases replies.len(),
{
    if replies.len() > 0 {
        lemma_connects_first(replies.drop_last());
    }
}

/// When the volumes in all the slots fail to open, the session ends the
/// device session and reports that there is no suitable volume. It asks
/// for no directory and no file and writes nothing.
pub proof fn lemma_no_volume_opens(
    first: ControllerError,
    second: ControllerError,
    third: ControllerError,
    fourth: ControllerError,
    goodbye: StorageReply,
)
    ensures
        ({
            let replies = seq![
                StorageReply::Done,
                StorageReply::ControllerFault(first),
                StorageReply::ControllerFault(second),
                StorageReply::ControllerFault(third),
                StorageReply::ControllerFault(fourth),
                goodbye,
            ];
            &&& accepted(replies)
            &&& phase_after(replies) == AppendPhase::Finished(Err(DatalogError::NoSuitableVolume))
            &&& steps_taken(replies).map_values(|step: Step| step.0) == seq![
                StorageAction::Connect,
                StorageAction::OpenVolume(0),
                StorageAction::OpenVolume(1),
                StorageAction::OpenVolume(2),
                StorageAction::OpenVolume(3),
                StorageAction::Disconnect,
            ]
        }),
{
    let replies = seq![
        StorageReply::Done,
        StorageReply::ControllerFault(first),
        StorageReply::ControllerFault(second),
        StorageReply::ControllerFault(third),
        StorageReply::ControllerFault(fourth),
        goodbye,
    ];
    let r5 = replies.drop_last();
    let r4 = r5.drop_last();
    let r3 = r4.drop_last();
    let r2 = r3.drop_last();
    let r1 = r2.drop_last();
    let r0 = r1.drop_last();
    assert(phase_after(r0) == AppendPhase::Connect);
    assert(phase_after(r1) == AppendPhase::OpenVolume(0));
    assert(phase_after(r2) == AppendPhase::OpenVolume(1));
    assert(phase_after(r3) == AppendPhase::OpenVolume(2));
    assert(phase_after(r4) == AppendPhase::OpenVolume(3));
    assert(phase_after(r5) == AppendPhase::Disconnect(Err(DatalogError::NoSuitableVolume)));
    assert(accepted(r0));
    assert(accepted(r1));
    assert(accepted(r2));
    assert(accepted(r3));
    assert(accepted(r4));
    assert(accepted(r5));
    assert(steps_taken(r0).len() == 0);
    assert(steps_taken(r1).len() == 1);
    assert(steps_taken(r2).len() == 2);
    assert(steps_taken(r3).len() == 3);
    assert(steps_taken(r4).len() == 4);
    assert(steps_taken(r5).len() == 5);
    assert(steps_taken(replies).map_values(|step: Step| step.0) =~= seq![
        StorageAction::Connect,
        StorageAction::OpenVolume(0),
        StorageAction::OpenVolume(1),
        StorageAction::OpenVolume(2),
        StorageAction::OpenVolume(3),
        StorageAction::Disconnect,
    ]);
}

} // verus!
