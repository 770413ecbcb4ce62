//! The decision core of a small typed actor runtime: cancellation trees,
//! reply handles, dispatch and lifecycle rules, each with a proved contract.
//!
//! The core owns no task, no timer and no socket. A runtime performs what
//! the core decides and reports back what happened.

pub mod actor;
pub mod cancel;
pub mod channel;
pub mod countme;
pub mod envelope;
pub mod error;
pub mod handler;
pub mod link;
pub mod message;
pub mod multi;
pub mod proxy;
pub mod report;

pub use channel::MpscChannel;
pub use envelope::Envelope;
pub use envelope::NoReply;
pub use error::ActorError;
pub use handler::Call;
pub use message::EnvelopeMessage;
pub use message::HandlerMessage;
pub use message::MessageError;
pub use message::MessageHandle;
pub use message::RelayMessage;
pub use multi::Handler;
