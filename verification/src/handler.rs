//! What a handler is given to answer a message: the cell with the reply
//! sender, which can be emptied once.

use crate::error::ActorError;
use crate::error::FromError;
use tokio::sync::oneshot;
use vstd::prelude::*;

verus! {

/// A reply that can tell whether it is an answer or the mark that the
/// answer will be sent later by someone else.
pub trait ActorReply {
    /// Whether the reply is the mark of an answer that comes later.
    fn is_async(&self) -> bool;
}

impl<T> ActorReply for Result<T, ActorError> {
    fn is_async(&self) -> (deferred: bool)
        ensures
            deferred == (*self matches Err(ActorError::AsyncReply)),
    {
        match self {
            Ok(_) => false,
            Err(err) => match err {
                ActorError::AsyncReply => true,
                _ => false,
            },
        }
    }
}

/// A cell that is filled at most once and emptied at most once.
#[verifier::reject_recursive_types(R)]
pub struct ReplyCell<R> {
    slot: Option<oneshot::Sender<R>>,
    completed: bool,
}

impl<R> ReplyCell<R> {
    #[verifier::type_invariant]
    spec fn wf(self) -> bool {
        self.slot is Some ==> self.completed
    }

    /// The sender that the cell holds.
    pub closed spec fn held(&self) -> Option<oneshot::Sender<R>> {
        self.slot
    }

    /// Whether the cell was ever filled, emptied since or not.
    pub closed spec fn completed(&self) -> bool {
        self.completed
    }

    /// `post` is the cell after a `store` of `sender` that returned
    /// `stored`.
    pub open spec fn stored(
        &self,
        post: &Self,
        sender: oneshot::Sender<R>,
        stored: Result<(), oneshot::Sender<R>>,
    ) -> bool {
        &&& post.completed()
        &&& !self.completed() ==> stored is Ok && post.held() == Some(sender)
        &&& self.completed() ==> stored == Err::<(), oneshot::Sender<R>>(sender) && post.held()
            == self.held()
    }

    /// `post` is the cell after a `take` that returned `sender`.
    pub open spec fn took(&self, post: &Self, sender: Option<oneshot::Sender<R>>) -> bool {
        &&& sender == self.held()
        &&& post.held() is None
        &&& post.completed() == self.completed()
    }

    /// A cell that was never filled.
    pub fn new() -> (cell: Self)
        ensures
            cell.held() is None,
            !cell.completed(),
    {
        ReplyCell { slot: None, completed: false }
    }

    /// A cell that holds `sender`.
    pub fn new_with(sender: oneshot::Sender<R>) -> (cell: Self)
        ensures
            cell.held() == Some(sender),
            cell.completed(),
    {
        ReplyCell { slot: Some(sender), completed: true }
    }

    /// Fills the cell, unless it was filled before: then `sender` comes
    /// back and the cell stays as it is.
    pub fn store(&mut self, sender: oneshot::Sender<R>) -> (stored: Result<(), oneshot::Sender<R>>)
        ensures
            old(self).stored(final(self), sender, stored),
    {
        proof {
            use_type_invariant(&*self);
        }
        if self.completed {
            Err(sender)
        } else {
            *self = ReplyCell { slot: Some(sender), completed: true };
            Ok(())
        }
    }

    /// Empties the cell and returns what it held.
    pub fn take(&mut self) -> (sender: Option<oneshot::Sender<R>>)
        ensures
            old(self).took(final(self), sender),
    {
        proof {
            use_type_invariant(&*self);
        }
        let completed = self.completed;
        let mut emptied = ReplyCell { slot: None, completed };
        core::mem::swap(self, &mut emptied);
        emptied.slot
    }

    /// Whether the cell was ever filled.
    pub fn is_completed(&self) -> (completed: bool)
        ensures
            completed == self.completed(),
    {
        self.completed
    }

    /// Whether `take` would return a sender.
    pub fn is_full(&self) -> (full: bool)
        ensures
            full == self.held() is Some,
    {
        self.slot.is_some()
    }
}

/// What a handler gets with a message: the way to answer it.
#[verifier::reject_recursive_types(R)]
pub struct Call<R> {
    pub reply: ReplyCell<R>,
}

impl<R> Call<R> {
    /// The call for a message whose reply goes to `sender`.
    pub fn new(sender: oneshot::Sender<R>) -> (call: Self)
        ensures
            call.reply.held() == Some(sender),
            call.reply.completed(),
    {
        Call { reply: ReplyCell::new_with(sender) }
    }

    /// The reply sender, for a handler that answers by itself. It is there
    /// once.
    pub fn take_reply(&mut self) -> (sender: oneshot::Sender<R>)
        requires
            old(self).reply.held() is Some,
        ensures
            Some(sender) == old(self).reply.held(),
            final(self).reply.held() is None,
            final(self).reply.completed() == old(self).reply.completed(),
    {
        match self.reply.take() {
            Some(sender) => sender,
            None => {
                proof {
                    assert(false);
                }
                vstd::pervasive::unreached()
            },
        }
    }

    /// Hands the reply over to a task that will answer later. Returned
    /// are what the handler has to return in place of an answer, and the
    /// sender for the task: the mark of a deferred reply with the sender,
    /// or, where the sender was taken before, the failure that says so.
    pub fn hand_over(&mut self) -> (handed: (ActorError, Option<oneshot::Sender<R>>))
        ensures
            handed.1 == old(self).reply.held(),
            final(self).reply.held() is None,
            final(self).reply.completed() == old(self).reply.completed(),
            handed.0 == if old(self).reply.held() is Some {
                ActorError::AsyncReply
            } else {
                ActorError::ReplyTaken
            },
    {
        match self.reply.take() {
            Some(sender) => (ActorError::AsyncReply, Some(sender)),
            None => (ActorError::ReplyTaken, None),
        }
    }

    /// As `hand_over`, with the mark or the failure made into a reply.
    pub fn reply_async(&mut self) -> (handed: (R, Option<oneshot::Sender<R>>)) where
        R: FromError<ActorError>,

        ensures
            handed.1 == old(self).reply.held(),
            final(self).reply.held() is None,
            final(self).reply.completed() == old(self).reply.completed(),
            R::from_err.ensures(
                (if old(self).reply.held() is Some {
                    ActorError::AsyncReply
                } else {
                    ActorError::ReplyTaken
                },),
                handed.0,
            ),
    {
        let (mark, sender) = self.hand_over();
        (R::from_err(mark), sender)
    }
}

/// The sender in a cell leaves it at most once: a `take` that follows a
/// `take` returns nothing, also where a `store` was tried in between.
pub proof fn law_reply_taken_at_most_once<R>(
    cell: ReplyCell<R>,
    emptied: ReplyCell<R>,
    refilled: ReplyCell<R>,
    last: ReplyCell<R>,
    first: Option<oneshot::Sender<R>>,
    again: oneshot::Sender<R>,
    stored: Result<(), oneshot::Sender<R>>,
    second: Option<oneshot::Sender<R>>,
)
    requires
        cell.completed(),
        cell.took(&emptied, first),
        emptied.stored(&refilled, again, stored),
        refilled.took(&last, second),
    ensures
        stored == Err::<(), oneshot::Sender<R>>(again),
        second is None,
{
}

} // verus!
