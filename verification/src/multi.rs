//! Dispatch of one message to its handler, and the delivery of the answer.

use crate::envelope::Envelope;
use crate::error::ActorError;
use crate::error::FromError;
use crate::handler::ActorReply;
use crate::handler::Call;
use vstd::prelude::*;

verus! {

/// An actor's way to answer messages of type `M`.
pub trait Handler<M>: Sized {
    type Reply: ActorReply + FromError<ActorError>;

    /// Answers `msg`. The value returned is sent to the caller, unless it
    /// is the mark that `Call::reply_async` hands out.
    fn handle(&mut self, call: &mut Call<Self::Reply>, msg: M) -> Self::Reply;
}

/// What became of a handler's answer.
pub enum Settled<R> {
    /// The handler has handed the reply over: nothing was sent here.
    Deferred,
    /// The answer is in the reply channel.
    Sent,
    /// Nobody waits for the answer any more: it is handed back.
    Unheard(R),
    /// The handler took the reply sender and returned an answer all the
    /// same: there is nothing left to send it on.
    Orphaned(R),
}

/// What a send of the answer amounts to.
pub open spec fn delivery<R>(sent: Result<(), R>) -> Settled<R> {
    match sent {
        Ok(()) => Settled::Sent,
        Err(back) => Settled::Unheard(back),
    }
}

/// What became of an answer whose send ended with `sent`.
pub fn delivered<R>(sent: Result<(), R>) -> (settled: Settled<R>)
    ensures
        settled == delivery(sent),
{
    match sent {
        Ok(()) => Settled::Sent,
        Err(back) => Settled::Unheard(back),
    }
}

/// What becomes of the value that a handler returned, `deferred` being
/// what the value says of itself: the mark of a deferred reply is never
/// sent, and the reply cell is not touched for it; any other value goes
/// to the sender in the cell, if it is still there.
pub open spec fn routed<R>(call: Call<R>, value: R, deferred: bool, settled: Settled<R>) -> bool {
    if deferred {
        settled is Deferred
    } else if call.reply.held() is None {
        settled == Settled::Orphaned(value)
    } else {
        settled is Sent || settled == Settled::Unheard(value)
    }
}

/// Routes the value that a handler returned, `deferred` being what the
/// value says of itself.
pub fn route<R>(call: Call<R>, value: R, deferred: bool) -> (settled: Settled<R>)
    ensures
        routed(call, value, deferred, settled),
{
    if deferred {
        Settled::Deferred
    } else {
        let mut call = call;
        match call.reply.take() {
            Some(sender) => delivered(sender.send(value)),
            None => Settled::Orphaned(value),
        }
    }
}

/// Routes the value that a handler returned: asks it whether it is the
/// mark of a deferred reply, and goes by the answer as `route` does.
pub fn settle<R: ActorReply>(call: Call<R>, value: R) -> (settled: Settled<R>)
    ensures
        exists|deferred: bool|
            R::is_async.ensures((&value,), deferred) && routed(call, value, deferred, settled),
{
    let deferred = value.is_async();
    route(call, value, deferred)
}

/// An envelope on its way to the handler of its payload's type.
#[verifier::reject_recursive_types(R)]
pub struct MultiEnvelope<M, R> {
    pub envelope: Envelope<M, R>,
}

impl<M, R> MultiEnvelope<M, R> {
    /// Wraps `envelope` for its way to the handler.
    pub fn new(envelope: Envelope<M, R>) -> (made: Self)
        ensures
            made.envelope == envelope,
    {
        MultiEnvelope { envelope }
    }

    /// The payload, and the call that holds its reply sender.
    pub fn open(self) -> (parts: (M, Call<R>))
        ensures
            parts.0 == self.envelope.value,
            parts.1.reply.held() == Some(self.envelope.reply),
            parts.1.reply.completed(),
    {
        let (msg, reply) = self.envelope.split();
        (msg, Call::new(reply))
    }

    /// Runs the handler on the state, a call that holds the envelope's
    /// reply sender, and the payload; then routes what it returned, by what
    /// the value says of itself and by the call as the handler left it.
    pub fn handle<A: Handler<M, Reply = R>>(self, state: &mut A) -> (settled: Settled<R>) where
        R: ActorReply + FromError<ActorError>,

        ensures
            exists|s: &mut A, c: &mut Call<R>, value: R, deferred: bool|
                *s == *old(state) && *final(s) == *final(state) && c.reply.held() == Some(
                    self.envelope.reply,
                ) && c.reply.completed() && #[trigger] A::handle.ensures(
                    (s, c, self.envelope.value),
                    value,
                ) && #[trigger] R::is_async.ensures((&value,), deferred) && routed(
                    *final(c),
                    value,
                    deferred,
                    settled,
                ),
    {
        let (msg, mut call) = self.open();
        let value = run(state, &mut call, msg);
        settle(call, value)
    }
}

/// Calls the handler with the state, the call and the message.
fn run<A: Handler<M>, M>(state: &mut A, call: &mut Call<A::Reply>, msg: M) -> (value: A::Reply)
    ensures
        exists|s: &mut A, c: &mut Call<A::Reply>|
            *s == *old(state) && *final(s) == *final(state) && *c == *old(call) && *final(c)
                == *final(call) && #[trigger] A::handle.ensures((s, c, msg), value),
{
    state.handle(call, msg)
}

} // verus!
