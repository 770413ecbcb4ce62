use runy_actor::channel::MpscChannel;
use runy_actor::channel::INBOX_CAPACITY;
use runy_actor::channel::MAX_CAPACITY;
use runy_actor::envelope::Envelope;
use runy_actor::envelope::NoReply;
use runy_actor::error::ActorError;
use runy_actor::error::FromError;
use runy_actor::handler::ActorReply;

#[test]
fn envelope_carries_payload_and_reply() {
    let (envelope, mut rx) = Envelope::<&str, u32>::new("ping");
    assert_eq!(envelope.value, "ping");
    assert!(rx.try_recv().is_err());
    assert_eq!(envelope.send(5), Ok(()));
    assert_eq!(rx.try_recv(), Ok(5));
}

#[test]
fn send_to_a_dropped_receiver_hands_the_value_back() {
    let (envelope, rx) = Envelope::<(), String>::new(());
    drop(rx);
    assert_eq!(envelope.send("lost".to_string()), Err("lost".to_string()));
}

#[test]
fn split_and_relay_keep_the_reply_path() {
    let (envelope, mut rx) = Envelope::<u8, u8>::new(3);
    let (value, reply) = envelope.split();
    assert_eq!(value, 3);
    let relayed = Envelope::relay("again", reply);
    assert_eq!(relayed.value, "again");
    assert_eq!(relayed.send(9), Ok(()));
    assert_eq!(rx.try_recv(), Ok(9));
}

#[test]
fn map_rewrites_only_the_payload() {
    let (envelope, mut rx) = Envelope::<u32, u32>::new(20);
    let mapped = envelope.map(|n| format!("n={}", n + 1));
    assert_eq!(mapped.value, "n=21");
    assert_eq!(mapped.send(1), Ok(()));
    assert_eq!(rx.try_recv(), Ok(1));
}

#[test]
fn no_reply_wraps_its_value() {
    let wrapped = NoReply::new(17);
    assert_eq!(wrapped.0, 17);
}

#[test]
fn inbox_capacity_has_bounds() {
    assert_eq!(INBOX_CAPACITY, 10);
    assert!(MpscChannel::<u32>::create(0).is_none());
    assert!(MpscChannel::<u32>::create(MAX_CAPACITY + 1).is_none());
    let (tx, mut rx) = MpscChannel::<u32>::create(INBOX_CAPACITY).unwrap();
    assert_eq!(tx.max_capacity(), 10);
    tx.try_send(4).unwrap();
    assert_eq!(rx.try_recv().ok(), Some(4));
    assert!(MpscChannel::<u32>::create(1).is_some());
}

#[test]
fn actor_errors_have_their_texts() {
    assert_eq!(ActorError::DynSendError().to_string(), "Dynamic send error");
    assert_eq!(ActorError::Dead.to_string(), "Actor is already dead");
    assert_eq!(ActorError::ReplyTaken.to_string(), "Reply taken");
    assert_eq!(ActorError::AsyncReply.to_string(), "Async reply");
}

#[test]
fn standard_reply_carries_actor_errors() {
    let dead: Result<u32, ActorError> = FromError::from_err(ActorError::Dead);
    assert_eq!(dead, Err(ActorError::Dead));
    assert!(!dead.is_async());
    let marker: Result<u32, ActorError> = FromError::from_err(ActorError::AsyncReply);
    assert!(marker.is_async());
    let answer: Result<u32, ActorError> = Ok(1);
    assert!(!answer.is_async());
    let taken: Result<u32, ActorError> = Err(ActorError::ReplyTaken);
    assert!(!taken.is_async());
}
