use runy_actor::envelope::Envelope;
use runy_actor::error::ActorError;
use runy_actor::handler::Call;
use runy_actor::handler::ReplyCell;
use runy_actor::message::HandlerMessage;
use runy_actor::message::MessageHandle;
use runy_actor::multi::delivered;
use runy_actor::multi::settle;
use runy_actor::multi::Handler;
use runy_actor::multi::MultiEnvelope;
use runy_actor::multi::Settled;
use tokio::sync::oneshot;

struct CounterActor {
    count: i64,
    parked: Vec<oneshot::Sender<Result<i64, ActorError>>>,
}

struct Increment(i64);

struct GetValue;

struct Later;

struct Greedy;

impl Handler<Increment> for CounterActor {
    type Reply = Result<i64, ActorError>;

    fn handle(&mut self, _call: &mut Call<Self::Reply>, msg: Increment) -> Self::Reply {
        self.count += msg.0;
        Ok(self.count)
    }
}

impl Handler<GetValue> for CounterActor {
    type Reply = Result<i64, ActorError>;

    fn handle(&mut self, _call: &mut Call<Self::Reply>, _msg: GetValue) -> Self::Reply {
        Ok(self.count)
    }
}

impl Handler<Later> for CounterActor {
    type Reply = Result<i64, ActorError>;

    fn handle(&mut self, call: &mut Call<Self::Reply>, _msg: Later) -> Self::Reply {
        let (marker, sender) = call.reply_async();
        if let Some(sender) = sender {
            self.parked.push(sender);
        }
        marker
    }
}

impl Handler<Greedy> for CounterActor {
    type Reply = Result<i64, ActorError>;

    fn handle(&mut self, call: &mut Call<Self::Reply>, _msg: Greedy) -> Self::Reply {
        let sender = call.take_reply();
        let _ = sender.send(Ok(-1));
        Ok(self.count)
    }
}

struct EchoActor;

impl Handler<String> for EchoActor {
    type Reply = Result<String, ActorError>;

    fn handle(&mut self, _call: &mut Call<Self::Reply>, msg: String) -> Self::Reply {
        if msg.starts_with("error") {
            Err(ActorError::DynSendError())
        } else {
            Ok(format!("Echo: {}", msg))
        }
    }
}

fn counter(count: i64) -> CounterActor {
    CounterActor { count, parked: Vec::new() }
}

fn ask<M>(actor: &mut CounterActor, msg: M) -> Result<Option<Result<i64, ActorError>>, String>
where
    CounterActor: Handler<M, Reply = Result<i64, ActorError>>,
{
    let (envelope, rx) = HandlerMessage::new(msg).into_envelope();
    let handle = MessageHandle::after_send(Ok(()), rx);
    let settled = MultiEnvelope::new(envelope).handle(actor);
    assert!(matches!(settled, Settled::Sent));
    handle.try_reply().map_err(|e| format!("{:?}", e))
}

#[test]
fn counter_answers_increment_and_get_value() {
    let mut actor = counter(0);
    assert_eq!(ask(&mut actor, Increment(5)), Ok(Some(Ok(5))));
    assert_eq!(ask(&mut actor, GetValue), Ok(Some(Ok(5))));
}

#[test]
fn echo_answers_with_the_echo() {
    let mut actor = EchoActor;
    let (envelope, rx) = HandlerMessage::new("Hello".to_string()).into_envelope();
    let handle = MessageHandle::after_send(Ok(()), rx);
    assert!(matches!(MultiEnvelope::new(envelope).handle(&mut actor), Settled::Sent));
    assert!(matches!(handle.try_reply(), Ok(Some(Ok(text))) if text == "Echo: Hello"));
}

#[test]
fn handler_errors_travel_as_replies() {
    let mut actor = EchoActor;
    let (envelope, rx) = HandlerMessage::new("error data".to_string()).into_envelope();
    let handle = MessageHandle::after_send(Ok(()), rx);
    assert!(matches!(MultiEnvelope::new(envelope).handle(&mut actor), Settled::Sent));
    assert!(matches!(handle.try_reply(), Ok(Some(Err(ActorError::DynSendError())))));
}

#[test]
fn forgotten_increments_are_still_counted() {
    let mut actor = counter(100);
    let mut sum = 0;
    for step in 1..=20 {
        let (envelope, rx) = HandlerMessage::new(Increment(step)).into_envelope();
        MessageHandle::after_send(Ok(()), rx).forget();
        let settled = MultiEnvelope::new(envelope).handle(&mut actor);
        sum += step;
        assert!(matches!(settled, Settled::Unheard(Ok(n)) if n == 100 + sum));
    }
    assert_eq!(ask(&mut actor, GetValue), Ok(Some(Ok(310))));
}

#[test]
fn a_hundred_increments_give_a_hundred_distinct_answers() {
    let mut actor = counter(0);
    let mut seen = Vec::new();
    for _ in 0..100 {
        match ask(&mut actor, Increment(1)) {
            Ok(Some(Ok(n))) => {
                assert!((1..=100).contains(&n));
                assert!(!seen.contains(&n));
                seen.push(n);
            }
            other => panic!("no answer: {:?}", other),
        }
    }
    assert_eq!(ask(&mut actor, GetValue), Ok(Some(Ok(100))));
}

#[test]
fn deferred_reply_is_sent_by_its_new_owner() {
    let mut actor = counter(7);
    let (envelope, rx) = HandlerMessage::new(Later).into_envelope();
    let handle = MessageHandle::after_send(Ok(()), rx);
    let settled = MultiEnvelope::new(envelope).handle(&mut actor);
    assert!(matches!(settled, Settled::Deferred));
    let sender = actor.parked.pop().unwrap();
    sender.send(Ok(70)).unwrap();
    assert!(matches!(handle.try_reply(), Ok(Some(Ok(70)))));
}

#[test]
fn deferred_reply_that_nobody_sends_is_a_receive_failure() {
    let mut actor = counter(7);
    let (envelope, rx) = HandlerMessage::new(Later).into_envelope();
    let handle = MessageHandle::after_send(Ok(()), rx);
    assert!(matches!(MultiEnvelope::new(envelope).handle(&mut actor), Settled::Deferred));
    actor.parked.clear();
    assert!(handle.try_reply().is_err());
}

#[test]
fn answer_after_taking_the_sender_has_nowhere_to_go() {
    let mut actor = counter(3);
    let (envelope, rx) = HandlerMessage::new(Greedy).into_envelope();
    let handle = MessageHandle::after_send(Ok(()), rx);
    let settled = MultiEnvelope::new(envelope).handle(&mut actor);
    assert!(matches!(settled, Settled::Orphaned(Ok(3))));
    assert!(matches!(handle.try_reply(), Ok(Some(Ok(-1)))));
}

#[test]
fn reply_async_twice_reports_the_taken_reply() {
    let (tx, _rx) = oneshot::channel::<Result<u32, ActorError>>();
    let mut call = Call::new(tx);
    let (first, sender) = call.reply_async();
    assert_eq!(first, Err(ActorError::AsyncReply));
    assert!(sender.is_some());
    let (second, sender) = call.reply_async();
    assert_eq!(second, Err(ActorError::ReplyTaken));
    assert!(sender.is_none());
}

#[test]
fn settle_sends_answers_and_keeps_markers() {
    let (tx, mut rx) = oneshot::channel::<Result<u32, ActorError>>();
    assert!(matches!(settle(Call::new(tx), Ok(1)), Settled::Sent));
    assert_eq!(rx.try_recv(), Ok(Ok(1)));
    let (tx, mut rx) = oneshot::channel::<Result<u32, ActorError>>();
    assert!(matches!(settle(Call::new(tx), Err(ActorError::AsyncReply)), Settled::Deferred));
    assert!(rx.try_recv().is_err());
    let (tx, rx) = oneshot::channel::<Result<u32, ActorError>>();
    drop(rx);
    assert!(matches!(settle(Call::new(tx), Ok(2)), Settled::Unheard(Ok(2))));
    assert!(matches!(delivered::<u32>(Ok(())), Settled::Sent));
    assert!(matches!(delivered(Err(8)), Settled::Unheard(8)));
}

#[test]
fn open_hands_payload_and_full_cell() {
    let (envelope, _rx) = Envelope::<&str, u32>::new("payload");
    let (msg, call) = MultiEnvelope::new(envelope).open();
    assert_eq!(msg, "payload");
    assert!(call.reply.is_full());
    assert!(call.reply.is_completed());
}

#[test]
fn reply_cell_is_filled_once_and_emptied_once() {
    let mut cell: ReplyCell<u32> = ReplyCell::new();
    assert!(!cell.is_completed());
    assert!(cell.take().is_none());
    let (first, mut first_rx) = oneshot::channel();
    let (second, _second_rx) = oneshot::channel();
    assert!(cell.store(first).is_ok());
    assert!(cell.is_completed());
    assert!(cell.is_full());
    assert!(cell.store(second).is_err());
    let taken = cell.take().unwrap();
    taken.send(1).unwrap();
    assert_eq!(first_rx.try_recv(), Ok(1));
    assert!(cell.take().is_none());
    assert!(cell.is_completed());
    assert!(!cell.is_full());
    let (third, _third_rx) = oneshot::channel();
    assert!(cell.store(third).is_err());
    assert!(cell.take().is_none());
}
