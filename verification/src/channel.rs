//! The channels under the runtime: the bounded inbox of an actor and the
//! single-shot channel that carries one reply.

use tokio::sync::mpsc;
use tokio::sync::oneshot;
use vstd::prelude::*;

verus! {

/// The sending half of a single-shot reply channel.
#[verifier::external_type_specification]
#[verifier::external_body]
#[verifier::reject_recursive_types(T)]
pub struct ExReplySender<T>(oneshot::Sender<T>);

/// The receiving half of a single-shot reply channel.
#[verifier::external_type_specification]
#[verifier::external_body]
#[verifier::reject_recursive_types(T)]
pub struct ExReplyReceiver<T>(oneshot::Receiver<T>);

/// What an awaited reply receiver yields when its sender is gone without
/// having sent.
#[verifier::external_type_specification]
#[verifier::external_body]
pub struct ExReplyClosed(oneshot::error::RecvError);

/// The sending half of an inbox.
#[verifier::external_type_specification]
#[verifier::external_body]
#[verifier::reject_recursive_types(T)]
pub struct ExInboxSender<T>(mpsc::Sender<T>);

/// The receiving half of an inbox.
#[verifier::external_type_specification]
#[verifier::external_body]
#[verifier::reject_recursive_types(T)]
pub struct ExInboxReceiver<T>(mpsc::Receiver<T>);

/// What a look into a reply channel finds.
#[derive(Debug)]
pub enum Probe<R> {
    /// The reply is there.
    Ready(R),
    /// Nothing was sent yet, and the sender still exists.
    Empty,
    /// The sender is gone and has sent nothing.
    Closed,
}

/// The capacity of an actor's inbox.
pub const INBOX_CAPACITY: usize = 10;

/// The capacity of the inbox in front of a proxy.
pub const PROXY_CAPACITY: usize = 100;

/// The capacity of the channel on which a proxy is told of a new state.
pub const UPDATE_CAPACITY: usize = 1;

/// The largest capacity that an inbox can be made with.
pub const MAX_CAPACITY: usize = usize::MAX >> 3;

/// `tokio::sync::oneshot::channel`: a new sender with its receiver. It does
/// not fail; nothing is claimed of the two halves.
#[verifier::external_body]
pub(crate) fn reply_channel<R>() -> (pair: (oneshot::Sender<R>, oneshot::Receiver<R>)) {
    oneshot::channel()
}

/// `tokio::sync::oneshot::Sender::send`: it never waits; where the receiver
/// is gone already, the value comes back unchanged in the error.
pub assume_specification<T>[ oneshot::Sender::<T>::send ](sender: oneshot::Sender<T>, t: T) -> (sent:
    Result<(), T>)
    ensures
        sent matches Err(back) ==> back == t,
;

/// `tokio::sync::oneshot::Receiver::try_recv`: it never waits. Which of
/// the three answers comes depends on what the sender has done so far, so
/// nothing is claimed of it.
#[verifier::external_body]
pub(crate) fn probe_reply<R>(receiver: &mut oneshot::Receiver<R>) -> (probe: Probe<R>) {
    match receiver.try_recv() {
        Ok(value) => Probe::Ready(value),
        Err(oneshot::error::TryRecvError::Empty) => Probe::Empty,
        Err(oneshot::error::TryRecvError::Closed) => Probe::Closed,
    }
}

/// `tokio::sync::mpsc::channel`: a bounded queue with room for `buffer`
/// messages. The outside function panics on a capacity of zero or above
/// the largest one, which `requires` leaves out.
#[verifier::external_body]
pub(crate) fn bounded_channel<M>(buffer: usize) -> (pair: (mpsc::Sender<M>, mpsc::Receiver<M>))
    requires
        0 < buffer <= MAX_CAPACITY,
{
    mpsc::channel(buffer)
}

/// `tokio::sync::mpsc::Sender::is_closed`: whether the receiving half was
/// closed or dropped. The answer depends on what the receiver's owner has
/// done, so nothing is claimed of it.
pub assume_specification<T>[ mpsc::Sender::<T>::is_closed ](sender: &mpsc::Sender<T>) -> (closed:
    bool)
;

/// The kind of inbox that actors use unless they choose another.
pub struct MpscChannel<T> {
    _t: core::marker::PhantomData<T>,
}

impl<T> MpscChannel<T> {
    /// An inbox with room for `buffer` messages, or nothing where no inbox
    /// can have that capacity.
    pub fn create(buffer: usize) -> (made: Option<(mpsc::Sender<T>, mpsc::Receiver<T>)>)
        ensures
            made is Some <==> 0 < buffer <= MAX_CAPACITY,
    {
        if 0 < buffer && buffer <= MAX_CAPACITY {
            Some(bounded_channel(buffer))
        } else {
            None
        }
    }
}

} // verus!
