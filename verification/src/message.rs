//! The caller's side of a message: the handle on a reply that may come,
//! and the wrappers that say how a payload travels.

use crate::channel::probe_reply;
use crate::channel::Probe;
use crate::envelope::Envelope;
use crate::error::ActorError;
use crate::error::FromError;
use std::time::Duration;
use tokio::sync::oneshot;
use vstd::prelude::*;
use vstd::string::*;

verus! {

/// Why a caller got no reply.
#[derive(Debug)]
pub enum MessageError {
    /// The message never reached the inbox; the text says why.
    SendFailed(String),
    /// The reply sender was dropped without an answer.
    RecvFailed,
    /// The caller's wait ran out; the actor may still be at work.
    Timeout { timeout: Duration },
    /// The handle's reply was taken before.
    AlreadyConsumed,
}

/// Where a handle stands. A handle only moves forward: from `Pending` to
/// `Consumed`; `Failed` is final from the start.
#[derive(Debug, Clone, Copy, PartialEq, Eq, Structural)]
pub enum Phase {
    /// The message was sent and its reply was not taken yet.
    Pending,
    /// The message was not sent.
    Failed,
    /// The reply, or the receiver for it, has left the handle.
    Consumed,
}

/// What `reply` hands to the caller that is ready to wait.
#[verifier::reject_recursive_types(R)]
pub enum ReplyWait<R> {
    /// The reply was there already: nothing to wait for.
    Ready(R),
    /// The reply comes on `receiver`; wait no longer than `timeout`.
    Await { receiver: oneshot::Receiver<R>, timeout: Option<Duration> },
}

/// How a wait on a reply receiver ended.
pub enum Arrival<R> {
    /// The reply came.
    Value(R),
    /// The sender was dropped without an answer.
    Closed,
    /// The time allowed ran out first.
    Elapsed,
}

/// The caller's handle on one message in flight.
#[verifier::reject_recursive_types(R)]
pub struct MessageHandle<R> {
    receiver: Option<oneshot::Receiver<R>>,
    ready: Option<R>,
    sent_successfully: bool,
    send_error: Option<String>,
    timeout: Option<Duration>,
}

/// What the wait on a reply receiver amounts to for the caller.
pub open spec fn arrival_result<R>(timeout: Option<Duration>, arrival: Arrival<R>) -> Result<
    R,
    MessageError,
> {
    match arrival {
        Arrival::Value(value) => Ok(value),
        Arrival::Closed => Err(MessageError::RecvFailed),
        Arrival::Elapsed => Err(MessageError::Timeout { timeout: timeout.unwrap() }),
    }
}

/// What a look into the reply channel amounts to for the caller.
pub open spec fn probe_result<R>(probe: Probe<R>) -> Result<Option<R>, MessageError> {
    match probe {
        Probe::Ready(value) => Ok(Some(value)),
        Probe::Empty => Ok(None),
        Probe::Closed => Err(MessageError::RecvFailed),
    }
}

/// The result of a wait that ended with `arrival`, for a caller that was
/// ready to wait no longer than `timeout`.
pub fn reply_outcome<R>(timeout: Option<Duration>, arrival: Arrival<R>) -> (outcome: Result<
    R,
    MessageError,
>)
    requires
        arrival is Elapsed ==> timeout is Some,
    ensures
        outcome == arrival_result(timeout, arrival),
{
    match arrival {
        Arrival::Value(value) => Ok(value),
        Arrival::Closed => Err(MessageError::RecvFailed),
        Arrival::Elapsed => match timeout {
            Some(timeout) => Err(MessageError::Timeout { timeout }),
            None => Err(MessageError::RecvFailed),
        },
    }
}

/// The result of a look into the reply channel that found `probe`.
pub fn probe_outcome<R>(probe: Probe<R>) -> (outcome: Result<Option<R>, MessageError>)
    ensures
        outcome == probe_result(probe),
{
    match probe {
        Probe::Ready(value) => Ok(Some(value)),
        Probe::Empty => Ok(None),
        Probe::Closed => Err(MessageError::RecvFailed),
    }
}

impl<R> MessageHandle<R> {
    #[verifier::type_invariant]
    spec fn wf(self) -> bool {
        &&& self.sent_successfully ==> self.send_error is None
        &&& !self.sent_successfully ==> self.send_error is Some && self.receiver is None
            && self.ready is None
        &&& !(self.receiver is Some && self.ready is Some)
    }

    /// Whether the message reached the inbox.
    pub closed spec fn sent(&self) -> bool {
        self.sent_successfully
    }

    /// Why the message did not reach the inbox.
    pub closed spec fn error_text(&self) -> Option<Seq<char>> {
        match self.send_error {
            Some(text) => Some(text@),
            None => None,
        }
    }

    /// The receiver on which the reply will arrive.
    pub closed spec fn receiver(&self) -> Option<oneshot::Receiver<R>> {
        self.receiver
    }

    /// The reply, where it was there when the handle was made.
    pub closed spec fn ready_value(&self) -> Option<R> {
        self.ready
    }

    /// The longest that `reply` lets the caller wait.
    pub closed spec fn timeout_set(&self) -> Option<Duration> {
        self.timeout
    }

    /// Where the handle stands.
    pub open spec fn phase(&self) -> Phase {
        if !self.sent() {
            Phase::Failed
        } else if self.receiver() is Some || self.ready_value() is Some {
            Phase::Pending
        } else {
            Phase::Consumed
        }
    }

    /// What `reply` amounts to for a caller whose wait, if there is one,
    /// ends with `arrival`.
    pub open spec fn reply_of(&self, arrival: Arrival<R>) -> Result<R, MessageError> {
        match self.phase() {
            Phase::Failed => Err(MessageError::SendFailed(self.send_error_string())),
            Phase::Consumed => Err(MessageError::AlreadyConsumed),
            Phase::Pending => match self.ready_value() {
                Some(value) => Ok(value),
                None => arrival_result(self.timeout_set(), arrival),
            },
        }
    }

    /// The text kept of a failed send.
    pub closed spec fn send_error_string(&self) -> String {
        self.send_error.unwrap()
    }

    /// The handle of a message that reached the inbox.
    pub fn success(receiver: oneshot::Receiver<R>) -> (handle: Self)
        ensures
            handle.sent(),
            handle.phase() == Phase::Pending,
            handle.receiver() == Some(receiver),
            handle.ready_value() is None,
            handle.error_text() is None,
            handle.timeout_set() is None,
    {
        MessageHandle {
            receiver: Some(receiver),
            ready: None,
            sent_successfully: true,
            send_error: None,
            timeout: None,
        }
    }

    /// The handle of a message whose reply is known without asking anyone.
    pub fn ready(value: R) -> (handle: Self)
        ensures
            handle.sent(),
            handle.phase() == Phase::Pending,
            handle.receiver() is None,
            handle.ready_value() == Some(value),
            handle.error_text() is None,
            handle.timeout_set() is None,
    {
        MessageHandle {
            receiver: None,
            ready: Some(value),
            sent_successfully: true,
            send_error: None,
            timeout: None,
        }
    }

    /// The handle of a message that did not reach the inbox.
    pub fn failed(error: String) -> (handle: Self)
        ensures
            !handle.sent(),
            handle.phase() == Phase::Failed,
            handle.receiver() is None,
            handle.ready_value() is None,
            handle.error_text() == Some(error@),
            handle.send_error_string() == error,
            handle.timeout_set() is None,
    {
        MessageHandle {
            receiver: None,
            ready: None,
            sent_successfully: false,
            send_error: Some(error),
            timeout: None,
        }
    }

    /// The handle for a push into the inbox that ended with `delivered`;
    /// an error carries what the inbox said of it.
    pub fn after_send(delivered: Result<(), String>, receiver: oneshot::Receiver<R>) -> (handle:
        Self)
        ensures
            handle.timeout_set() is None,
            handle.ready_value() is None,
            match delivered {
                Ok(()) => handle.phase() == Phase::Pending && handle.receiver() == Some(receiver),
                Err(said) => handle.phase() == Phase::Failed && handle.error_text() == Some(
                    "Send failed: "@ + said@,
                ),
            },
    {
        match delivered {
            Ok(()) => Self::success(receiver),
            Err(said) => Self::failed(String::from_str("Send failed: ").concat(said.as_str())),
        }
    }

    /// The handle for a message to an actor that is gone: its reply is the
    /// one that stands for a dead actor, and is there at once.
    pub fn dead() -> (handle: Self) where R: FromError<ActorError>
        ensures
            handle.phase() == Phase::Pending,
            handle.receiver() is None,
            handle.ready_value() matches Some(reply) && R::from_err.ensures(
                (ActorError::Dead,),
                reply,
            ),
            handle.timeout_set() is None,
    {
        Self::ready(R::from_err(ActorError::Dead))
    }

    /// Lets `reply` wait no longer than `timeout`. A later call replaces
    /// an earlier one.
    pub fn timeout(self, timeout: Duration) -> (handle: Self)
        ensures
            handle.timeout_set() == Some(timeout),
            handle.sent() == self.sent(),
            handle.receiver() == self.receiver(),
            handle.ready_value() == self.ready_value(),
            handle.error_text() == self.error_text(),
            handle.send_error_string() == self.send_error_string(),
            handle.phase() == self.phase(),
    {
        proof {
            use_type_invariant(&self);
        }
        MessageHandle {
            receiver: self.receiver,
            ready: self.ready,
            sent_successfully: self.sent_successfully,
            send_error: self.send_error,
            timeout: Some(timeout),
        }
    }

    /// Whether the message reached the inbox.
    pub fn was_sent(&self) -> (sent: bool)
        ensures
            sent == self.sent(),
    {
        self.sent_successfully
    }

    /// Why the message did not reach the inbox, if it did not.
    pub fn send_error(&self) -> (error: Option<&str>)
        ensures
            match error {
                Some(text) => self.error_text() == Some(text@),
                None => self.error_text() is None,
            },
    {
        match &self.send_error {
            Some(text) => Some(text.as_str()),
            None => None,
        }
    }

    /// The reply, or what to wait on for it. A failed send and a handle
    /// that was emptied before are answered at once with their error.
    pub fn reply(self) -> (step: Result<ReplyWait<R>, MessageError>)
        ensures
            match self.phase() {
                Phase::Failed => step == Err::<ReplyWait<R>, MessageError>(
                    MessageError::SendFailed(self.send_error_string()),
                ),
                Phase::Consumed => step == Err::<ReplyWait<R>, MessageError>(
                    MessageError::AlreadyConsumed,
                ),
                Phase::Pending => match self.ready_value() {
                    Some(value) => step == Ok::<ReplyWait<R>, MessageError>(
                        ReplyWait::Ready(value),
                    ),
                    None => step == Ok::<ReplyWait<R>, MessageError>(
                        ReplyWait::Await {
                            receiver: self.receiver().unwrap(),
                            timeout: self.timeout_set(),
                        },
                    ),
                },
            },
    {
        proof {
            use_type_invariant(&self);
        }
        if !self.sent_successfully {
            match self.send_error {
                Some(text) => Err(MessageError::SendFailed(text)),
                None => Err(MessageError::AlreadyConsumed),
            }
        } else {
            match self.ready {
                Some(value) => Ok(ReplyWait::Ready(value)),
                None => match self.receiver {
                    Some(receiver) => Ok(ReplyWait::Await { receiver, timeout: self.timeout }),
                    None => Err(MessageError::AlreadyConsumed),
                },
            }
        }
    }

    /// As `reply`, for a caller that waits no longer than `timeout`.
    pub fn reply_timeout(self, timeout: Duration) -> (step: Result<ReplyWait<R>, MessageError>)
        ensures
            match self.phase() {
                Phase::Failed => step == Err::<ReplyWait<R>, MessageError>(
                    MessageError::SendFailed(self.send_error_string()),
                ),
                Phase::Consumed => step == Err::<ReplyWait<R>, MessageError>(
                    MessageError::AlreadyConsumed,
                ),
                Phase::Pending => match self.ready_value() {
                    Some(value) => step == Ok::<ReplyWait<R>, MessageError>(
                        ReplyWait::Ready(value),
                    ),
                    None => step == Ok::<ReplyWait<R>, MessageError>(
                        ReplyWait::Await {
                            receiver: self.receiver().unwrap(),
                            timeout: Some(timeout),
                        },
                    ),
                },
            },
    {
        self.timeout(timeout).reply()
    }

    /// Gives the reply up: the receiver is dropped, and the handler's
    /// answer, when it comes, finds nobody waiting. Never waits.
    pub fn forget(self) {
        let _receiver = self.receiver;
    }

    /// The reply if it is there, without waiting for it.
    pub fn try_reply(self) -> (outcome: Result<Option<R>, MessageError>)
        ensures
            match self.phase() {
                Phase::Failed => outcome == Err::<Option<R>, MessageError>(
                    MessageError::SendFailed(self.send_error_string()),
                ),
                Phase::Consumed => outcome == Err::<Option<R>, MessageError>(
                    MessageError::AlreadyConsumed,
                ),
                Phase::Pending => match self.ready_value() {
                    Some(value) => outcome == Ok::<Option<R>, MessageError>(Some(value)),
                    None => exists|probe: Probe<R>| outcome == probe_result(probe),
                },
            },
    {
        proof {
            use_type_invariant(&self);
        }
        if !self.sent_successfully {
            match self.send_error {
                Some(text) => Err(MessageError::SendFailed(text)),
                None => Err(MessageError::AlreadyConsumed),
            }
        } else {
            match self.ready {
                Some(value) => Ok(Some(value)),
                None => match self.receiver {
                    Some(receiver) => {
                        let mut receiver = receiver;
                        let probe = probe_reply(&mut receiver);
                        let ghost found = probe;
                        let outcome = probe_outcome(probe);
                        assert(outcome == probe_result(found));
                        outcome
                    },
                    None => Err(MessageError::AlreadyConsumed),
                },
            }
        }
    }

    /// A sent message is answered by its reply or by exactly one of the
    /// three failures: a handle that `success` or `ready` made yields the
    /// value that arrived, `RecvFailed` or `Timeout`, and never claims to
    /// have been consumed; one that `failed` made yields `SendFailed`.
    pub proof fn law_reply_or_one_failure(&self, arrival: Arrival<R>)
        requires
            self.phase() != Phase::Consumed,
        ensures
            self.phase() == Phase::Failed ==> self.reply_of(arrival) is Err && self.reply_of(
                arrival,
            )->Err_0 is SendFailed,
            self.phase() == Phase::Pending ==> match self.reply_of(arrival) {
                Ok(value) => self.ready_value() == Some(value) || arrival == Arrival::Value(value),
                Err(MessageError::RecvFailed) => self.ready_value() is None && arrival is Closed,
                Err(MessageError::Timeout { timeout }) => self.ready_value() is None
                    && arrival is Elapsed && self.timeout_set().unwrap() == timeout,
                Err(_) => false,
            },
    {
    }
}

impl MessageHandle<()> {
    /// The handle for an envelope that was relayed: it answers as soon as
    /// the push into the inbox has ended, the reply itself goes its own way.
    pub fn after_relay(delivered: bool) -> (handle: Self)
        ensures
            handle.timeout_set() is None,
            handle.receiver() is None,
            delivered ==> handle.phase() == Phase::Pending && handle.ready_value() == Some(()),
            !delivered ==> handle.phase() == Phase::Failed && handle.error_text() == Some(
                "Relay failed"@,
            ),
    {
        if delivered {
            Self::ready(())
        } else {
            Self::failed(String::from_str("Relay failed"))
        }
    }
}

/// A payload for an actor whose inbox carries envelopes of one type.
pub struct EnvelopeMessage<T> {
    pub message: T,
}

impl<T> EnvelopeMessage<T> {
    /// Wraps `message` for an actor that takes envelopes of its type.
    pub fn new(message: T) -> (made: Self)
        ensures
            made.message == message,
    {
        EnvelopeMessage { message }
    }

    /// The envelope to push into the inbox, and the receiver for the
    /// handle.
    pub fn into_envelope<R>(self) -> (made: (Envelope<T, R>, oneshot::Receiver<R>))
        ensures
            made.0.value == self.message,
    {
        Envelope::new(self.message)
    }
}

/// A payload for an actor that handles messages of many types.
pub struct HandlerMessage<T> {
    pub message: T,
}

impl<T> HandlerMessage<T> {
    /// Wraps `message` for an actor that has a handler for its type.
    pub fn new(message: T) -> (made: Self)
        ensures
            made.message == message,
    {
        HandlerMessage { message }
    }

    /// The envelope to box and push into the inbox, and the receiver for
    /// the handle.
    pub fn into_envelope<R>(self) -> (made: (Envelope<T, R>, oneshot::Receiver<R>))
        ensures
            made.0.value == self.message,
    {
        Envelope::new(self.message)
    }
}

/// An envelope that came from elsewhere and is passed on with the reply
/// sender it came with.
#[verifier::reject_recursive_types(R)]
pub struct RelayMessage<T, R> {
    pub envelope: Envelope<T, R>,
}

impl<T, R> RelayMessage<T, R> {
    /// Wraps `envelope` to be passed on as it is.
    pub fn new(envelope: Envelope<T, R>) -> (made: Self)
        ensures
            made.envelope == envelope,
    {
        RelayMessage { envelope }
    }
}

} // verus!
