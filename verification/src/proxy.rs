//! The relay in front of an actor that can be started, shut down and
//! started again behind a link that stays the same.

use crate::cancel::CancelToken;
use crate::cancel::CancelTree;
use vstd::prelude::*;

verus! {

/// What the relay works with at one time: the token of the current run
/// and the link to the actor behind, if one was started.
pub struct ProxyState<L> {
    pub token: CancelToken,
    pub link: Option<L>,
}

/// Which of its sources the relay listens to in one round. New states are
/// always listened for.
#[derive(Debug, Clone, Copy, PartialEq, Eq, Structural)]
pub struct Guards {
    /// Wait for the cancellation of the current token.
    pub cancellation: bool,
    /// Take messages from the inbox in front.
    pub messages: bool,
}

/// What ended the wait of one round.
pub enum ProxyEvent<U, M> {
    /// A new state came, or the channel for them was closed.
    Update(Option<U>),
    /// The current token was cancelled.
    Cancelled,
    /// The inbox in front yielded a message, or has no sender left.
    Message(Option<M>),
}

/// What the relay is to do.
pub enum ProxyAction<U, M> {
    /// Work with the new state from now on; go on.
    Adopt(U),
    /// Cancel the actor behind and wait until it is gone, then wake those
    /// that wait for the shutdown; go on.
    Shutdown,
    /// Wake those that wait for the shutdown; go on.
    Notify,
    /// Pass the message on to the actor behind; go on.
    Relay(M),
    /// Cancel the current token and end.
    Stop,
}

impl<L> ProxyState<L> {
    /// A cancellation is waited for until it was seen; messages are taken
    /// only while the actor behind is there and alive.
    pub open spec fn guards_for(&self, cancelled: bool, alive: bool) -> Guards {
        Guards { cancellation: !cancelled, messages: self.link is Some && alive }
    }

    /// The sources for the next round. `cancelled` says whether the
    /// current token is cancelled, `alive` whether the actor behind holds
    /// its inbox.
    pub fn guards(&self, cancelled: bool, alive: bool) -> (guards: Guards)
        ensures
            guards == self.guards_for(cancelled, alive),
    {
        Guards { cancellation: !cancelled, messages: self.link.is_some() && alive }
    }

    /// The action that follows `event`.
    pub open spec fn next<U, M>(&self, event: ProxyEvent<U, M>) -> ProxyAction<U, M> {
        match event {
            ProxyEvent::Update(Some(state)) => ProxyAction::Adopt(state),
            ProxyEvent::Update(None) => ProxyAction::Stop,
            ProxyEvent::Cancelled => if self.link is Some {
                ProxyAction::Shutdown
            } else {
                ProxyAction::Notify
            },
            ProxyEvent::Message(Some(msg)) => ProxyAction::Relay(msg),
            ProxyEvent::Message(None) => ProxyAction::Stop,
        }
    }

    /// One round of the relay. A message is only taken where the guards
    /// allowed it, that is with an actor behind.
    pub fn step<U, M>(&self, event: ProxyEvent<U, M>) -> (action: ProxyAction<U, M>)
        requires
            event matches ProxyEvent::Message(Some(_)) ==> self.link is Some,
        ensures
            action == self.next(event),
    {
        match event {
            ProxyEvent::Update(update) => match update {
                Some(state) => ProxyAction::Adopt(state),
                None => ProxyAction::Stop,
            },
            ProxyEvent::Cancelled => if self.link.is_some() {
                ProxyAction::Shutdown
            } else {
                ProxyAction::Notify
            },
            ProxyEvent::Message(msg) => match msg {
                Some(msg) => ProxyAction::Relay(msg),
                None => ProxyAction::Stop,
            },
        }
    }

    /// The state of a relay that was made and not started: the token of
    /// the link in front, and no actor behind.
    pub fn new(token: CancelToken) -> (state: Self)
        ensures
            state.token == token,
            state.link is None,
    {
        ProxyState { token, link: None }
    }

    /// The state for a first start: a new token, and `link` to the actor
    /// that was spawned. A relay is started once; after a shutdown it is
    /// started again by `reset`.
    pub fn init<C>(&self, tree: &mut CancelTree<C>, link: L) -> (state: Self)
        requires
            self.link is None,
            old(tree).wf(),
        ensures
            final(tree).wf(),
            state.link == Some(link),
            state.token.id() == old(tree).len(),
            final(tree).len() == old(tree).len() + 1,
            final(tree).is_fresh(state.token.id()),
            forall|n: int| 0 <= n < old(tree).len() ==> old(tree).keeps(final(tree), n),
    {
        ProxyState { token: CancelToken::new(tree), link: Some(link) }
    }

    /// The state for a start after a shutdown: a new token, and `link` to
    /// the actor that was spawned. The token of the run before must have
    /// been cancelled.
    pub fn reset<C>(&self, tree: &mut CancelTree<C>, link: L) -> (state: Self)
        requires
            old(tree).wf(),
            old(tree).holds(self.token),
            !old(tree).is_running(self.token.id()),
        ensures
            final(tree).wf(),
            state.link == Some(link),
            state.token.id() == old(tree).len(),
            final(tree).len() == old(tree).len() + 1,
            final(tree).is_fresh(state.token.id()),
            forall|n: int| 0 <= n < old(tree).len() ==> old(tree).keeps(final(tree), n),
    {
        ProxyState { token: CancelToken::new(tree), link: Some(link) }
    }

    /// Whether a shutdown has to wait for the relay's wake-up: it has
    /// where an actor was started behind.
    pub fn shutdown_waits(&self) -> (waits: bool)
        ensures
            waits == self.link is Some,
    {
        self.link.is_some()
    }
}

} // verus!
