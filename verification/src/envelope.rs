//! A message on its way: the payload together with the sender on which its
//! one reply is to go.

use crate::channel::reply_channel;
use tokio::sync::oneshot;
use vstd::prelude::*;

verus! {

/// A payload paired with the single-use sender of its reply.
#[verifier::reject_recursive_types(R)]
pub struct Envelope<T, R> {
    pub value: T,
    pub reply: oneshot::Sender<R>,
}

impl<T, R> Envelope<T, R> {
    /// Wraps `value`, and returns with the envelope the receiver on which
    /// the reply will arrive.
    pub fn new(value: T) -> (made: (Self, oneshot::Receiver<R>))
        ensures
            made.0.value == value,
    {
        let (reply, rx) = reply_channel();
        (Envelope { value, reply }, rx)
    }

    /// An envelope whose reply goes to a sender that was made elsewhere.
    pub fn relay(value: T, reply: oneshot::Sender<R>) -> (made: Self)
        ensures
            made.value == value,
            made.reply == reply,
    {
        Envelope { value, reply }
    }

    /// Answers the message: the result is what the send of `value` on the
    /// envelope's reply sender gives. Where nobody waits for the answer
    /// any more, it comes back.
    pub fn send(self, value: R) -> (sent: Result<(), R>)
        ensures
            oneshot::Sender::<R>::send.ensures((self.reply, value), sent),
            sent matches Err(back) ==> back == value,
    {
        self.reply.send(value)
    }

    /// The payload and the reply sender, each for itself.
    pub fn split(self) -> (parts: (T, oneshot::Sender<R>))
        ensures
            parts.0 == self.value,
            parts.1 == self.reply,
    {
        (self.value, self.reply)
    }

    /// Rewrites the payload and keeps the reply sender.
    pub fn map<U, F: FnOnce(T) -> U>(self, func: F) -> (made: Envelope<U, R>)
        requires
            func.requires((self.value,)),
        ensures
            func.ensures((self.value,), made.value),
            made.reply == self.reply,
    {
        Envelope { value: func(self.value), reply: self.reply }
    }
}

/// A message that expects no reply.
pub struct NoReply<T>(pub T);

impl<T> NoReply<T> {
    /// Wraps `value`.
    pub fn new(value: T) -> (made: Self)
        ensures
            made.0 == value,
    {
        NoReply(value)
    }
}

} // verus!
