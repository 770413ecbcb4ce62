//! The life of one actor: what its loop does with each event that the
//! runtime hands to it.

use crate::cancel::CancelReason;
use crate::cancel::SourceLocation;
use core::ops::ControlFlow;
use vstd::prelude::*;

verus! {

/// What an actor does with the messages that wait when its loop ends.
#[derive(Debug, Clone, Copy, PartialEq, Eq, Structural)]
pub enum Terminate {
    /// Handle each of them, then terminate.
    ProcessAll,
    /// Leave them, and terminate at once.
    Exit,
}

/// What may cross from one task to another and live as long as needed.
pub trait SyncTrait: Sized + Send + Sync + 'static {

}

impl<T: Send + Sync + 'static> SyncTrait for T {

}

/// The event that ended the wait of one cycle.
pub enum CycleEvent<C, M> {
    /// The actor's token was cancelled, or released without a reason.
    Cancelled(Option<CancelReason<C>>),
    /// The periodic hook completed.
    Tick,
    /// The inbox yielded a message, or reported that no sender is left.
    Message(Option<M>),
}

/// Where an actor stands.
pub enum Stage<C> {
    /// Its initialisation runs.
    Starting,
    /// It waits for the next event.
    Selecting,
    /// A handler runs.
    Handling,
    /// The loop has ended with the reason; waiting messages are taken.
    Draining(CancelReason<C>),
    /// A handler runs on a message that waited when the loop ended.
    DrainHandling(CancelReason<C>),
    /// Its termination hook runs.
    Terminating,
    /// It is gone.
    Stopped,
}

/// What the runtime reports to the actor's life.
pub enum Event<C, M> {
    /// The initialisation succeeded.
    Initialized,
    /// The initialisation failed with this reason.
    InitFailed(C),
    /// The wait of one cycle ended.
    Selected(CycleEvent<C, M>),
    /// The handler returned.
    Handled,
    /// A look into the inbox found this, without waiting.
    Drained(Option<M>),
    /// The termination hook returned.
    Terminated,
}

/// What the runtime is to do next.
pub enum Action<C, M> {
    /// Wait for the next event.
    Select,
    /// Run the handler on the message.
    Dispatch(M),
    /// Look into the inbox without waiting.
    Drain,
    /// Cancel the actor's token with the reason and leave.
    CancelAndExit(C),
    /// Run the termination hook with the reason.
    Terminate(CancelReason<C>),
    /// Leave: the inbox and the child tasks are dropped.
    Exit,
    /// The event does not belong to the stage: nothing to do.
    Ignore,
}

/// What one cycle does with the event that ended its wait: a cancellation
/// ends the loop with its reason, or with `fallback` where none came; a
/// tick goes on; a message is to be handled before the loop goes on; an
/// inbox without senders ends the loop with `fallback`.
pub open spec fn cycle_result<C, M>(event: CycleEvent<C, M>, fallback: CancelReason<C>) -> ControlFlow<
    CancelReason<C>,
    Option<M>,
> {
    match event {
        CycleEvent::Cancelled(Some(reason)) => ControlFlow::Break(reason),
        CycleEvent::Cancelled(None) => ControlFlow::Break(fallback),
        CycleEvent::Tick => ControlFlow::Continue(None),
        CycleEvent::Message(Some(msg)) => ControlFlow::Continue(Some(msg)),
        CycleEvent::Message(None) => ControlFlow::Break(fallback),
    }
}

/// The stage and the action that follow `event` in `stage`.
pub open spec fn next_step<C, M>(
    stage: Stage<C>,
    strategy: Terminate,
    event: Event<C, M>,
    fallback: CancelReason<C>,
) -> (Stage<C>, Action<C, M>) {
    match (stage, event) {
        (Stage::Starting, Event::Initialized) => (Stage::Selecting, Action::Select),
        (Stage::Starting, Event::InitFailed(reason)) => (Stage::Stopped, Action::CancelAndExit(reason)),
        (Stage::Selecting, Event::Selected(seen)) => match cycle_result(seen, fallback) {
            ControlFlow::Continue(None) => (Stage::Selecting, Action::Select),
            ControlFlow::Continue(Some(msg)) => (Stage::Handling, Action::Dispatch(msg)),
            ControlFlow::Break(reason) => match strategy {
                Terminate::Exit => (Stage::Terminating, Action::Terminate(reason)),
                Terminate::ProcessAll => (Stage::Draining(reason), Action::Drain),
            },
        },
        (Stage::Handling, Event::Handled) => (Stage::Selecting, Action::Select),
        (Stage::Draining(reason), Event::Drained(Some(msg))) => (
            Stage::DrainHandling(reason),
            Action::Dispatch(msg),
        ),
        (Stage::Draining(reason), Event::Drained(None)) => (
            Stage::Terminating,
            Action::Terminate(reason),
        ),
        (Stage::DrainHandling(reason), Event::Handled) => (Stage::Draining(reason), Action::Drain),
        (Stage::Terminating, Event::Terminated) => (Stage::Stopped, Action::Exit),
        (stage, _) => (stage, Action::Ignore),
    }
}

/// `fallback` is the reason that stands in where none was given: the
/// default value, asked for at `location`.
pub open spec fn is_fallback<C: Default>(fallback: CancelReason<C>, location: SourceLocation) -> bool {
    C::default.ensures((), fallback.value) && fallback.location == location
}

/// Decides what one cycle does with the event that ended its wait. A loop
/// that ends without a reason ends with the default reason, asked for at
/// `location`.
pub fn cycle<C: Default, M>(event: CycleEvent<C, M>, location: SourceLocation) -> (flow: ControlFlow<
    CancelReason<C>,
    Option<M>,
>)
    ensures
        exists|fallback: CancelReason<C>| #[trigger]
            is_fallback(fallback, location) && flow == cycle_result(event, fallback),
{
    let fallback = CancelReason::default_at(location);
    assert(is_fallback(fallback, location));
    cycle_with(event, fallback)
}

/// One step of an actor's life: from where it stands and what happened to
/// where it stands next and what the runtime is to do. A loop that ends
/// without a reason ends with the default reason, asked for at `location`.
pub fn advance<C: Default, M>(
    stage: Stage<C>,
    strategy: Terminate,
    event: Event<C, M>,
    location: SourceLocation,
) -> (step: (Stage<C>, Action<C, M>))
    ensures
        exists|fallback: CancelReason<C>| #[trigger]
            is_fallback(fallback, location) && step == next_step(stage, strategy, event, fallback),
{
    let fallback = CancelReason::default_at(location);
    assert(is_fallback(fallback, location));
    advance_with(stage, strategy, event, fallback)
}

/// Decides what one cycle does with the event that ended its wait, with
/// the reason for a loop that ends without one given by the caller.
pub fn cycle_with<C, M>(event: CycleEvent<C, M>, fallback: CancelReason<C>) -> (flow: ControlFlow<
    CancelReason<C>,
    Option<M>,
>)
    ensures
        flow == cycle_result(event, fallback),
{
    match event {
        CycleEvent::Cancelled(reason) => match reason {
            Some(reason) => ControlFlow::Break(reason),
            None => ControlFlow::Break(fallback),
        },
        CycleEvent::Tick => ControlFlow::Continue(None),
        CycleEvent::Message(msg) => match msg {
            Some(msg) => ControlFlow::Continue(Some(msg)),
            None => ControlFlow::Break(fallback),
        },
    }
}

/// One step of an actor's life, with the reason for a loop that ends
/// without one given by the caller.
pub fn advance_with<C, M>(
    stage: Stage<C>,
    strategy: Terminate,
    event: Event<C, M>,
    fallback: CancelReason<C>,
) -> (step: (Stage<C>, Action<C, M>))
    ensures
        step == next_step(stage, strategy, event, fallback),
{
    match stage {
        Stage::Starting => match event {
            Event::Initialized => (Stage::Selecting, Action::Select),
            Event::InitFailed(reason) => (Stage::Stopped, Action::CancelAndExit(reason)),
            _ => (Stage::Starting, Action::Ignore),
        },
        Stage::Selecting => match event {
            Event::Selected(seen) => match cycle_with(seen, fallback) {
                ControlFlow::Continue(None) => (Stage::Selecting, Action::Select),
                ControlFlow::Continue(Some(msg)) => (Stage::Handling, Action::Dispatch(msg)),
                ControlFlow::Break(reason) => match strategy {
                    Terminate::Exit => (Stage::Terminating, Action::Terminate(reason)),
                    Terminate::ProcessAll => (Stage::Draining(reason), Action::Drain),
                },
            },
            _ => (Stage::Selecting, Action::Ignore),
        },
        Stage::Handling => match event {
            Event::Handled => (Stage::Selecting, Action::Select),
            _ => (Stage::Handling, Action::Ignore),
        },
        Stage::Draining(reason) => match event {
            Event::Drained(Some(msg)) => (Stage::DrainHandling(reason), Action::Dispatch(msg)),
            Event::Drained(None) => (Stage::Terminating, Action::Terminate(reason)),
            _ => (Stage::Draining(reason), Action::Ignore),
        },
        Stage::DrainHandling(reason) => match event {
            Event::Handled => (Stage::Draining(reason), Action::Drain),
            _ => (Stage::DrainHandling(reason), Action::Ignore),
        },
        Stage::Terminating => match event {
            Event::Terminated => (Stage::Stopped, Action::Exit),
            _ => (Stage::Terminating, Action::Ignore),
        },
        Stage::Stopped => (Stage::Stopped, Action::Ignore),
    }
}

/// Whether a handler runs in the stage.
pub open spec fn handler_runs<C>(stage: Stage<C>) -> bool {
    stage is Handling || stage is DrainHandling
}

/// Handlers run one at a time: a handler is started only where none runs,
/// the actor is then in a stage where one runs, and it leaves that stage
/// by nothing but the handler's return.
pub proof fn law_one_handler_at_a_time<C, M>(
    stage: Stage<C>,
    strategy: Terminate,
    event: Event<C, M>,
    fallback: CancelReason<C>,
)
    ensures
        ({
            let (next, action) = next_step(stage, strategy, event, fallback);
            &&& action is Dispatch ==> !handler_runs(stage) && handler_runs(next)
            &&& handler_runs(stage) && !(event is Handled) ==> next == stage && action is Ignore
            &&& handler_runs(stage) && event is Handled ==> !handler_runs(next)
        }),
{
}

/// A cancellation that a cycle observes ends the loop: no message is
/// handled in that cycle, and the reason given to the termination hook is
/// the one observed, or `fallback` where the token was released without
/// one. With `Exit` the hook runs next; with `ProcessAll` the waiting
/// messages are taken first and the hook gets the same reason.
pub proof fn law_cancellation_ends_the_loop<C, M>(
    strategy: Terminate,
    seen: Option<CancelReason<C>>,
    fallback: CancelReason<C>,
)
    ensures
        ({
            let reason = match seen {
                Some(reason) => reason,
                None => fallback,
            };
            let step = next_step::<C, M>(
                Stage::Selecting,
                strategy,
                Event::Selected(CycleEvent::Cancelled(seen)),
                fallback,
            );
            match strategy {
                Terminate::Exit => step == (Stage::<C>::Terminating, Action::<C, M>::Terminate(reason)),
                Terminate::ProcessAll => step == (Stage::Draining(reason), Action::<C, M>::Drain)
                    && next_step::<C, M>(step.0, strategy, Event::Drained(None), fallback) == (
                    Stage::<C>::Terminating,
                    Action::<C, M>::Terminate(reason),
                ),
            }
        }),
        next_step::<C, M>(Stage::Terminating, strategy, Event::Terminated, fallback) == (
            Stage::<C>::Stopped,
            Action::<C, M>::Exit,
        ),
{
}

/// An actor that is gone stays gone.
pub proof fn law_stopped_is_final<C, M>(strategy: Terminate, event: Event<C, M>, fallback: CancelReason<C>)
    ensures
        next_step(Stage::Stopped, strategy, event, fallback) == (
            Stage::<C>::Stopped,
            Action::<C, M>::Ignore,
        ),
{
}

} // verus!
