//! Reading the size of the card.
//!
//! The session connects, reads the size and ends the device session,
//! whether the size could be read or not.

use vstd::prelude::*;
use crate::error::DatalogError;
use crate::storage::{
    acquired, held, orderly, released, Resource, Step, StorageAction, StorageReply, Turn,
};

verus! {

/// Where a session stands: the operation that it waits for, or its end.
#[derive(Debug, Clone, Copy, PartialEq, Eq)]
pub enum CardSizePhase {
    /// The device session is to be started.
    Connect,
    /// The size is to be read.
    ReadCardSize,
    /// The device session is to be ended; the result is what the session
    /// will report.
    Disconnect(Result<u64, DatalogError>),
    /// The session is over with this result.
    Finished(Result<u64, DatalogError>),
}

/// A session that reads the size of the card in bytes.
#[derive(Debug, Clone, Copy, PartialEq, Eq)]
pub struct CardSizeSession {
    pub phase: CardSizePhase,
}

impl CardSizePhase {
    /// The operation that the session waits for, if it is not over.
    pub open spec fn request(self) -> Option<StorageAction> {
        match self {
            CardSizePhase::Connect => Some(StorageAction::Connect),
            CardSizePhase::ReadCardSize => Some(StorageAction::ReadCardSize),
            CardSizePhase::Disconnect(_) => Some(StorageAction::Disconnect),
            CardSizePhase::Finished(_) => None,
        }
    }

    /// Whether `reply` answers the operation that the session waits for.
    pub open spec fn accepts(self, reply: StorageReply) -> bool {
        self.request() matches Some(action) && action.answered_by(reply)
    }

    /// Where the session stands after `reply`. A reply that is not accepted
    /// changes nothing.
    pub open spec fn next(self, reply: StorageReply) -> CardSizePhase {
        match self {
            CardSizePhase::Connect => match reply {
                StorageReply::Done => CardSizePhase::ReadCardSize,
                StorageReply::DeviceFault(error) => CardSizePhase::Finished(
                    Err(DatalogError::CannotConnect(error)),
                ),
                _ => self,
            },
            CardSizePhase::ReadCardSize => match reply {
                StorageReply::CardSize(size) => CardSizePhase::Disconnect(Ok(size)),
                StorageReply::DeviceFault(error) => CardSizePhase::Disconnect(
                    Err(DatalogError::CannotReadCardSize(error)),
                ),
                _ => self,
            },
            CardSizePhase::Disconnect(result) => CardSizePhase::Finished(result),
            CardSizePhase::Finished(_) => self,
        }
    }

    /// The resources that the session holds.
    pub open spec fn holding(self) -> Seq<Resource> {
        match self {
            CardSizePhase::Connect => seq![],
            CardSizePhase::ReadCardSize => seq![Resource::Session],
            CardSizePhase::Disconnect(_) => seq![Resource::Session],
            CardSizePhase::Finished(_) => seq![],
        }
    }

    /// The most operations that the session can still make.
    pub open spec fn steps_left(self) -> nat {
        match self {
            CardSizePhase::Connect => 3,
            CardSizePhase::ReadCardSize => 2,
            CardSizePhase::Disconnect(_) => 1,
            CardSizePhase::Finished(_) => 0,
        }
    }
}

/// A session that reads the size of the card. It begins by connecting.
pub fn detect_sd_card_size() -> (session: CardSizeSession)
    ensures
        session.phase == CardSizePhase::Connect,
{
    CardSizeSession { phase: CardSizePhase::Connect }
}

impl CardSizeSession {
    /// The operation to make next, or none when the session is over.
    pub fn request(&self) -> (action: Option<StorageAction>)
        ensures
            action == self.phase.request(),
    {
        match self.phase {
            CardSizePhase::Connect => Some(StorageAction::Connect),
            CardSizePhase::ReadCardSize => Some(StorageAction::ReadCardSize),
            CardSizePhase::Disconnect(_) => Some(StorageAction::Disconnect),
            CardSizePhase::Finished(_) => None,
        }
    }

    /// Takes the reply to the operation that was asked for and moves on.
    /// A reply that does not answer that operation is refused and leaves
    /// the session as it was.
    pub fn advance(&mut self, reply: StorageReply) -> (accepted: bool)
        ensures
            accepted == old(self).phase.accepts(reply),
            final(self).phase == old(self).phase.next(reply),
    {
        let accepted = match self.request() {
            Some(action) => action.is_answered_by(&reply),
            None => false,
        };
        self.phase = match self.phase {
            CardSizePhase::Connect => match reply {
                StorageReply::Done => CardSizePhase::ReadCardSize,
                StorageReply::DeviceFault(error) => CardSizePhase::Finished(
                    Err(DatalogError::CannotConnect(error)),
                ),
                _ => CardSizePhase::Connect,
            },
            CardSizePhase::ReadCardSize => match reply {
                StorageReply::CardSize(size) => CardSizePhase::Disconnect(Ok(size)),
                StorageReply::DeviceFault(error) => CardSizePhase::Disconnect(
                    Err(DatalogError::CannotReadCardSize(error)),
                ),
                _ => CardSizePhase::ReadCardSize,
            },
            CardSizePhase::Disconnect(result) => CardSizePhase::Finished(result),
            CardSizePhase::Finished(result) => CardSizePhase::Finished(result),
        };
        accepted
    }

    /// What is due: the operation to make next, or the result when the
    /// session is over.
    pub fn turn(&self) -> (turn: Turn<Result<u64, DatalogError>>)
        ensures
            turn == match self.phase {
                CardSizePhase::Finished(result) => Turn::Over(result),
                _ => Turn::Perform(self.phase.request()->0),
            },
    {
        match self.phase {
            CardSizePhase::Connect => Turn::Perform(StorageAction::Connect),
            CardSizePhase::ReadCardSize => Turn::Perform(StorageAction::ReadCardSize),
            CardSizePhase::Disconnect(_) => Turn::Perform(StorageAction::Disconnect),
            CardSizePhase::Finished(result) => Turn::Over(result),
        }
    }

    /// The result of the session, once it is over.
    pub fn result(&self) -> (result: Option<Result<u64, DatalogError>>)
        ensures
            result == match self.phase {
                CardSizePhase::Finished(r) => Some(r),
                _ => None::<Result<u64, DatalogError>>,
            },
    {
        match self.phase {
            CardSizePhase::Finished(result) => Some(result),
            _ => None,
        }
    }
}

/// Where a session stands after it took the replies, from its beginning.
pub open spec fn phase_after(replies: Seq<StorageReply>) -> CardSizePhase
    decreases replies.len(),
{
    if replies.len() == 0 {
        CardSizePhase::Connect
    } else {
        phase_after(replies.drop_last()).next(replies.last())
    }
}

/// Whether a session accepts the replies one after the other, from its
/// beginning.
pub open spec fn accepted(replies: Seq<StorageReply>) -> bool
    decreases replies.len(),
{
    replies.len() == 0 || (accepted(replies.drop_last()) && phase_after(
        replies.drop_last(),
    ).accepts(replies.last()))
}

/// The operations that a session asked for while it took the replies, each
/// with its reply.
pub open spec fn steps_taken(replies: Seq<StorageReply>) -> Seq<Step>
    decreases replies.len(),
{
    if replies.len() == 0 {
        Seq::empty()
    } else {
        steps_taken(replies.drop_last()).push(
            (phase_after(replies.drop_last()).request()->0, replies.last()),
        )
    }
}

/// Whatever the card answers, a session meets the resources in order and
/// holds what its phase says. What it has acquired is what it holds and
/// what it has released, and it releases nothing before its last operation.
pub proof fn lemma_session_is_orderly(replies: Seq<StorageReply>)
    requires
        accepted(replies),
    ensures
        orderly(steps_taken(replies)),
        held(steps_taken(replies)) == phase_after(replies).holding(),
        acquired(steps_taken(replies)) == phase_after(replies).holding() + released(
            steps_taken(replies),
        ),
        !(phase_after(replies) is Finished) ==> released(steps_taken(replies)).len() == 0,
    decreases replies.len(),
{
    if replies.len() > 0 {
        let earlier = replies.drop_last();
        lemma_session_is_orderly(earlier);
        let before = steps_taken(earlier);
        let steps = steps_taken(replies);
        assert(steps.drop_last() =~= before);
        assert(phase_after(earlier).holding() =~= held(before));
        assert(held(steps) =~= phase_after(replies).holding());
        assert(acquired(steps) =~= phase_after(replies).holding() + released(steps));
    } else {
        assert(acquired(steps_taken(replies)) =~= phase_after(replies).holding() + released(
            steps_taken(replies),
        ));
    }
}

/// Release is unconditional. Whether the size could be read or not, a
/// session that is over holds nothing: if it connected it has ended the
/// device session, once, and otherwise it has released nothing.
pub proof fn lemma_release_is_unconditional(replies: Seq<StorageReply>)
    requires
        accepted(replies),
        phase_after(replies) is Finished,
    ensures
        orderly(steps_taken(replies)),
        held(steps_taken(replies)).len() == 0,
        released(steps_taken(replies)) == acquired(steps_taken(replies)).reverse(),
        acquired(steps_taken(replies)).len() <= 1,
{
    lemma_session_is_orderly(replies);
    lemma_acquires_once(replies);
    let gone = released(steps_taken(replies));
    assert(acquired(steps_taken(replies)) =~= gone);
    assert(gone.reverse() =~= gone);
}

/// A session acquires the device session and nothing else, once at most.
pub proof fn lemma_acquires_once(replies: Seq<StorageReply>)
    requires
        accepted(replies),
    ensures
        acquired(steps_taken(replies)).len() <= 1,
        phase_after(replies) is Connect ==> acquired(steps_taken(replies)).len() == 0,
    decreases replies.len(),
{
    if replies.len() > 0 {
        let earlier = replies.drop_last();
        lemma_acquires_once(earlier);
        assert(steps_taken(replies).drop_last() =~= steps_taken(earlier));
    }
}

/// A session comes to its end: it makes three operations at most, and as
/// long as it is not over there is a reply that it accepts.
pub proof fn lemma_session_ends(replies: Seq<StorageReply>)
    requires
        accepted(replies),
    ensures
        replies.len() + phase_after(replies).steps_left() <= 3,
        phase_after(replies).steps_left() == 0 <==> phase_after(replies) is Finished,
        !(phase_after(replies) is Finished) ==> exists|reply: StorageReply|
            phase_after(replies).accepts(reply),
    decreases replies.len(),
{
    if replies.len() > 0 {
        lemma_session_ends(replies.drop_last());
    }
    assert(phase_after(replies) is Connect ==> phase_after(replies).accepts(StorageReply::Done));
    assert(phase_after(replies) is ReadCardSize ==> phase_after(replies).accepts(
        StorageReply::CardSize(0),
    ));
    assert(phase_after(replies) is Disconnect ==> phase_after(replies).accepts(StorageReply::Done));
}

} // verus!
