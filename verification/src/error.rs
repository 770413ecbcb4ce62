//! The failures that the runtime itself puts into a reply.

use vstd::prelude::*;
use vstd::string::*;

verus! {

/// A failure that the runtime reports in place of a handler's answer.
#[derive(Debug, Clone, Copy, PartialEq, Eq, Structural)]
pub enum ActorError {
    /// A send through a link without a static actor type failed.
    DynSendError(),
    /// A weak link was used after the last strong link was gone.
    Dead,
    /// The reply sender was asked for a second time.
    ReplyTaken,
    /// No failure: the handler will answer later, from a task of its own.
    AsyncReply,
}

impl ActorError {
    /// The text that describes the failure.
    pub open spec fn text(&self) -> Seq<char> {
        match self {
            ActorError::DynSendError() => "Dynamic send error"@,
            ActorError::Dead => "Actor is already dead"@,
            ActorError::ReplyTaken => "Reply taken"@,
            ActorError::AsyncReply => "Async reply"@,
        }
    }

    /// The text that describes the failure, as a string.
    pub fn to_string(&self) -> (text: String)
        ensures
            text@ == self.text(),
    {
        match self {
            ActorError::DynSendError() => String::from_str("Dynamic send error"),
            ActorError::Dead => String::from_str("Actor is already dead"),
            ActorError::ReplyTaken => String::from_str("Reply taken"),
            ActorError::AsyncReply => String::from_str("Async reply"),
        }
    }
}

/// A reply type that can carry a failure of kind `E`.
pub trait FromError<E>: Sized {
    /// The reply that stands for `err`.
    fn from_err(err: E) -> Self;
}

impl<T> FromError<ActorError> for Result<T, ActorError> {
    fn from_err(err: ActorError) -> (reply: Self)
        ensures
            reply == Err::<T, ActorError>(err),
    {
        Err(err)
    }
}

} // verus!
