//! What all the links to one actor share, and the rules that the count
//! of strong links brings: the last one to go cancels the actor, and a
//! weak link finds the actor for as long as a strong one is left.

use crate::cancel::CancelReason;
use crate::cancel::CancelToken;
use crate::cancel::CancelTree;
use crate::cancel::SourceLocation;
use crate::cancel::State;
use crate::error::ActorError;
use crate::error::FromError;
use tokio::sync::mpsc;
use vstd::prelude::*;

verus! {

/// How a request that waits for its answer went.
pub enum AskEvent<R, S, E> {
    /// The push into the inbox failed with this.
    SendFailed(S),
    /// The handler's answer came.
    Answered(R),
    /// The reply channel was closed without an answer, with this.
    Unanswered(E),
}

/// `reply` is what a request yields: the handler's answer, or a reply
/// that the reply type makes of the failure.
pub open spec fn ask_result<R: FromError<S> + FromError<E>, S, E>(
    event: AskEvent<R, S, E>,
    reply: R,
) -> bool {
    match event {
        AskEvent::SendFailed(err) => <R as FromError<S>>::from_err.ensures((err,), reply),
        AskEvent::Answered(answer) => reply == answer,
        AskEvent::Unanswered(err) => <R as FromError<E>>::from_err.ensures((err,), reply),
    }
}

/// `reply` is what a request through a weak link yields: as through a
/// strong one while the actor is there (`Some`), and a reply that the
/// reply type makes of `ActorError::Dead` once it is gone.
pub open spec fn weak_ask_result<R: FromError<S> + FromError<E> + FromError<ActorError>, S, E>(
    event: Option<AskEvent<R, S, E>>,
    reply: R,
) -> bool {
    match event {
        Some(event) => ask_result(event, reply),
        None => <R as FromError<ActorError>>::from_err.ensures((ActorError::Dead,), reply),
    }
}

/// Turns the course of a request into the reply for the caller.
pub fn ask_outcome<R: FromError<S> + FromError<E>, S, E>(event: AskEvent<R, S, E>) -> (reply: R)
    ensures
        ask_result(event, reply),
{
    match event {
        AskEvent::SendFailed(err) => <R as FromError<S>>::from_err(err),
        AskEvent::Answered(reply) => reply,
        AskEvent::Unanswered(err) => <R as FromError<E>>::from_err(err),
    }
}

/// Turns the course of a request into the reply for the caller, with the
/// two functions that make a reply of a failure given by the caller.
pub fn ask_outcome_with<R, S, E, F: FnOnce(S) -> R, G: FnOnce(E) -> R>(
    event: AskEvent<R, S, E>,
    unsent: F,
    unanswered: G,
) -> (reply: R)
    requires
        event matches AskEvent::SendFailed(err) ==> unsent.requires((err,)),
        event matches AskEvent::Unanswered(err) ==> unanswered.requires((err,)),
    ensures
        match event {
            AskEvent::SendFailed(err) => unsent.ensures((err,), reply),
            AskEvent::Answered(answer) => reply == answer,
            AskEvent::Unanswered(err) => unanswered.ensures((err,), reply),
        },
{
    match event {
        AskEvent::SendFailed(err) => unsent(err),
        AskEvent::Answered(reply) => reply,
        AskEvent::Unanswered(err) => unanswered(err),
    }
}

/// Turns the course of a request through a weak link into the reply for
/// the caller. `None` says that the actor was gone: nothing was sent and
/// nothing is waited for.
pub fn weak_ask_outcome<R: FromError<S> + FromError<E> + FromError<ActorError>, S, E>(
    event: Option<AskEvent<R, S, E>>,
) -> (reply: R)
    ensures
        weak_ask_result(event, reply),
{
    match event {
        Some(event) => ask_outcome(event),
        None => <R as FromError<ActorError>>::from_err(ActorError::Dead),
    }
}

/// What the links to one actor share: the sending half `X` of its inbox,
/// its token, what it shows of its state, and the handle of its monitor.
pub struct LinkState<X, S, H> {
    tx: X,
    token: CancelToken,
    state: S,
    monitor: Option<H>,
    strong: usize,
}

impl<M, S, H> LinkState<mpsc::Sender<M>, S, H> {
    /// Whether the actor's loop still holds its inbox: the opposite of
    /// what the sending half answers when asked whether it is closed.
    pub fn alive(&self) -> (alive: bool)
        ensures
            exists|closed: bool| #[trigger]
                mpsc::Sender::<M>::is_closed.ensures((&self.inbox(),), closed) && alive == !closed,
    {
        let closed = self.tx.is_closed();
        assert(mpsc::Sender::<M>::is_closed.ensures((&self.inbox(),), closed)) by {
            assert(self.inbox() == self.tx);
        }
        !closed
    }
}

impl<X, S, H> LinkState<X, S, H> {
    /// The sending half of the actor's inbox.
    pub closed spec fn inbox(&self) -> X {
        self.tx
    }

    /// The token that ends the actor's loop.
    pub closed spec fn token_of(&self) -> CancelToken {
        self.token
    }

    /// What the actor lets everyone see without a message.
    pub closed spec fn shared(&self) -> S {
        self.state
    }

    /// All but the count of strong links is in `other` as it is here.
    pub open spec fn same_actor(&self, other: &Self) -> bool {
        &&& self.inbox() == other.inbox()
        &&& self.token_of() == other.token_of()
        &&& self.shared() == other.shared()
        &&& self.monitor() == other.monitor()
    }

    /// The number of strong links.
    pub closed spec fn strong_count(&self) -> nat {
        self.strong as nat
    }

    /// The handle of the task that watches over the actor's task.
    pub closed spec fn monitor(&self) -> Option<H> {
        self.monitor
    }

    /// The shared part of a first strong link.
    pub fn new(tx: X, token: CancelToken, state: S) -> (link: Self)
        ensures
            link.inbox() == tx,
            link.token_of() == token,
            link.shared() == state,
            link.strong_count() == 1,
            link.monitor() is None,
    {
        LinkState { tx, token, state, monitor: None, strong: 1 }
    }

    /// What the actor lets everyone see without a message.
    pub fn state(&self) -> (state: &S)
        ensures
            *state == self.shared(),
    {
        &self.state
    }

    /// The token that ends the actor's loop.
    pub fn token(&self) -> (token: CancelToken)
        ensures
            token == self.token_of(),
    {
        self.token
    }

    /// The sending half of the actor's inbox.
    pub fn sender(&self) -> (tx: &X)
        ensures
            *tx == self.inbox(),
    {
        &self.tx
    }

    /// Whether the handle of the watching task was set.
    pub fn is_monitored(&self) -> (monitored: bool)
        ensures
            monitored == self.monitor() is Some,
    {
        self.monitor.is_some()
    }

    /// Keeps the handle of the watching task. It is set once.
    pub fn set_monitor(&mut self, handle: H)
        requires
            old(self).monitor() is None,
        ensures
            final(self).monitor() == Some(handle),
            final(self).strong_count() == old(self).strong_count(),
            final(self).inbox() == old(self).inbox(),
            final(self).token_of() == old(self).token_of(),
            final(self).shared() == old(self).shared(),
    {
        self.monitor = Some(handle);
    }

    /// The number of strong links.
    pub fn strong(&self) -> (count: usize)
        ensures
            count == self.strong_count(),
    {
        self.strong
    }

    /// One more strong link, made from a strong one.
    pub fn acquire(&mut self)
        requires
            0 < old(self).strong_count() < usize::MAX,
        ensures
            final(self).strong_count() == old(self).strong_count() + 1,
            final(self).same_actor(old(self)),
    {
        self.strong = self.strong + 1;
    }

    /// A weak link asks for a strong one: there is one, and it is counted,
    /// exactly while a strong link is left.
    pub fn upgrade(&mut self) -> (found: bool)
        requires
            old(self).strong_count() < usize::MAX,
        ensures
            found == (old(self).strong_count() > 0),
            final(self).strong_count() == if found {
                old(self).strong_count() + 1
            } else {
                0
            },
            final(self).same_actor(old(self)),
    {
        if self.strong > 0 {
            self.strong = self.strong + 1;
            true
        } else {
            false
        }
    }

    /// Cancels the actor with `value`.
    pub fn cancel<C>(&self, tree: &mut CancelTree<C>, value: C, location: SourceLocation)
        requires
            old(tree).wf(),
            old(tree).holds(self.token_of()),
        ensures
            final(tree).wf(),
            final(tree).same_children(old(tree)),
            final(tree).same_slots(old(tree)),
            old(tree).cancelled_into(
                final(tree),
                self.token_of().id(),
                (CancelReason { value, location }),
            ),
    {
        self.token.cancel(tree, value, location)
    }

    /// Cancels the actor through a weak link: as `cancel` while a strong
    /// link is left, and nothing at all once the actor is gone.
    pub fn weak_cancel<C>(&self, tree: &mut CancelTree<C>, value: C, location: SourceLocation)
        requires
            old(tree).wf(),
            old(tree).holds(self.token_of()),
        ensures
            final(tree).wf(),
            final(tree).same_children(old(tree)),
            final(tree).same_slots(old(tree)),
            if self.strong_count() > 0 {
                old(tree).cancelled_into(
                    final(tree),
                    self.token_of().id(),
                    (CancelReason { value, location }),
                )
            } else {
                old(tree).same_states(final(tree))
            },
    {
        if self.strong > 0 {
            self.token.cancel(tree, value, location)
        }
    }

    /// One strong link goes. The last one to go cancels the actor with
    /// the default reason, asked for at `location`; any other leaves the
    /// tree as it is.
    pub fn release<C: Default>(&mut self, tree: &mut CancelTree<C>, location: SourceLocation)
        requires
            old(self).strong_count() > 0,
            old(tree).wf(),
            old(tree).holds(old(self).token_of()),
        ensures
            final(self).strong_count() == old(self).strong_count() - 1,
            final(self).same_actor(old(self)),
            final(tree).wf(),
            final(tree).same_children(old(tree)),
            final(tree).same_slots(old(tree)),
            if old(self).strong_count() == 1 {
                exists|farewell: CancelReason<C>|
                    C::default.ensures((), farewell.value) && farewell.location == location
                        && #[trigger] old(tree).cancelled_into(
                        final(tree),
                        old(self).token_of().id(),
                        farewell,
                    )
            } else {
                old(tree).same_states(final(tree))
            },
    {
        self.strong = self.strong - 1;
        if self.strong == 0 {
            let farewell = CancelReason::default_at(location);
            self.token.cancel_with_reason(tree, farewell);
        }
    }

    /// Once the last strong link to a running actor is gone, the actor's
    /// token is cancelled with the farewell reason, and no weak link finds
    /// the actor again.
    pub proof fn law_last_link_cancels<C>(
        &self,
        after: &Self,
        tree: &CancelTree<C>,
        tree_after: &CancelTree<C>,
        farewell: CancelReason<C>,
    )
        requires
            self.strong_count() == 1,
            after.strong_count() == self.strong_count() - 1,
            tree.holds(self.token_of()),
            tree.is_running(self.token_of().id()),
            tree.cancelled_into(tree_after, self.token_of().id(), farewell),
        ensures
            tree_after.state_of(self.token_of().id()) == State::Cancelled(farewell),
            !(after.strong_count() > 0),
    {
        assert(tree.reaches(self.token_of().id(), self.token_of().id()));
    }
}

} // verus!
