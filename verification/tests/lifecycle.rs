use runy_actor::actor::advance;
use runy_actor::actor::advance_with;
use runy_actor::actor::cycle;
use runy_actor::actor::cycle_with;
use runy_actor::actor::Action;
use runy_actor::actor::CycleEvent;
use runy_actor::actor::Event;
use runy_actor::actor::Stage;
use runy_actor::actor::Terminate;
use runy_actor::cancel::CancelReason;
use runy_actor::cancel::SourceLocation;
use std::ops::ControlFlow;

fn reason(value: u32) -> CancelReason<u32> {
    CancelReason::new_with_loc(value, SourceLocation { file: "tests/lifecycle.rs", line: value, column: 1 })
}

#[test]
fn cycle_breaks_on_cancellation_with_its_reason() {
    let flow = cycle_with::<u32, &str>(CycleEvent::Cancelled(Some(reason(3))), reason(0));
    assert!(matches!(flow, ControlFlow::Break(r) if r == reason(3)));
}

#[test]
fn cycle_breaks_with_the_fallback_when_no_reason_came() {
    let flow = cycle_with::<u32, &str>(CycleEvent::Cancelled(None), reason(0));
    assert!(matches!(flow, ControlFlow::Break(r) if r == reason(0)));
    let flow = cycle_with::<u32, &str>(CycleEvent::Message(None), reason(0));
    assert!(matches!(flow, ControlFlow::Break(r) if r == reason(0)));
}

#[test]
fn cycle_goes_on_after_tick_and_message() {
    let flow = cycle_with::<u32, &str>(CycleEvent::Tick, reason(0));
    assert!(matches!(flow, ControlFlow::Continue(None)));
    let flow = cycle_with::<u32, &str>(CycleEvent::Message(Some("work")), reason(0));
    assert!(matches!(flow, ControlFlow::Continue(Some("work"))));
}

#[test]
fn failed_init_cancels_and_never_terminates() {
    let step = advance_with::<u32, &str>(Stage::Starting, Terminate::Exit, Event::InitFailed(9), reason(0));
    assert!(matches!(step, (Stage::Stopped, Action::CancelAndExit(9))));
    let step = advance_with::<u32, &str>(step.0, Terminate::Exit, Event::Terminated, reason(0));
    assert!(matches!(step, (Stage::Stopped, Action::Ignore)));
}

#[test]
fn an_actor_lives_through_messages_until_cancelled() {
    let exit = Terminate::Exit;
    let step = advance_with::<u32, &str>(Stage::Starting, exit, Event::Initialized, reason(0));
    assert!(matches!(step, (Stage::Selecting, Action::Select)));
    let step = advance_with(step.0, exit, Event::Selected(CycleEvent::Message(Some("a"))), reason(0));
    assert!(matches!(step, (Stage::Handling, Action::Dispatch("a"))));
    let step = advance_with::<u32, &str>(step.0, exit, Event::Handled, reason(0));
    assert!(matches!(step, (Stage::Selecting, Action::Select)));
    let step = advance_with::<u32, &str>(step.0, exit, Event::Selected(CycleEvent::Tick), reason(0));
    assert!(matches!(step, (Stage::Selecting, Action::Select)));
    let step = advance_with::<u32, &str>(
        step.0,
        exit,
        Event::Selected(CycleEvent::Cancelled(Some(reason(4)))),
        reason(0),
    );
    assert!(matches!(&step, (Stage::Terminating, Action::Terminate(r)) if *r == reason(4)));
    let step = advance_with::<u32, &str>(step.0, exit, Event::Terminated, reason(0));
    assert!(matches!(step, (Stage::Stopped, Action::Exit)));
}

#[test]
fn no_second_handler_starts_while_one_runs() {
    let step = advance_with::<u32, &str>(
        Stage::Handling,
        Terminate::Exit,
        Event::Selected(CycleEvent::Message(Some("b"))),
        reason(0),
    );
    assert!(matches!(step, (Stage::Handling, Action::Ignore)));
    let step = advance_with::<u32, &str>(
        Stage::DrainHandling(reason(1)),
        Terminate::ProcessAll,
        Event::Drained(Some("c")),
        reason(0),
    );
    assert!(matches!(&step, (Stage::DrainHandling(r), Action::Ignore) if *r == reason(1)));
}

#[test]
fn process_all_drains_the_inbox_before_terminating() {
    let all = Terminate::ProcessAll;
    let step = advance_with::<u32, &str>(
        Stage::Selecting,
        all,
        Event::Selected(CycleEvent::Message(None)),
        reason(0),
    );
    assert!(matches!(&step, (Stage::Draining(r), Action::Drain) if *r == reason(0)));
    let step = advance_with(step.0, all, Event::Drained(Some("left")), reason(0));
    assert!(matches!(&step, (Stage::DrainHandling(r), Action::Dispatch("left")) if *r == reason(0)));
    let step = advance_with::<u32, &str>(step.0, all, Event::Handled, reason(0));
    assert!(matches!(&step, (Stage::Draining(_), Action::Drain)));
    let step = advance_with::<u32, &str>(step.0, all, Event::Drained(None), reason(5));
    assert!(matches!(&step, (Stage::Terminating, Action::Terminate(r)) if *r == reason(0)));
    let step = advance_with::<u32, &str>(step.0, all, Event::Terminated, reason(0));
    assert!(matches!(step, (Stage::Stopped, Action::Exit)));
}

#[test]
fn events_out_of_place_change_nothing() {
    let step = advance_with::<u32, &str>(Stage::Starting, Terminate::Exit, Event::Handled, reason(0));
    assert!(matches!(step, (Stage::Starting, Action::Ignore)));
    let step = advance_with::<u32, &str>(Stage::Selecting, Terminate::Exit, Event::Initialized, reason(0));
    assert!(matches!(step, (Stage::Selecting, Action::Ignore)));
    let step = advance_with::<u32, &str>(Stage::Terminating, Terminate::Exit, Event::Drained(None), reason(0));
    assert!(matches!(step, (Stage::Terminating, Action::Ignore)));
    let step = advance_with::<u32, &str>(Stage::Stopped, Terminate::Exit, Event::Initialized, reason(0));
    assert!(matches!(step, (Stage::Stopped, Action::Ignore)));
}

#[test]
fn a_loop_that_ends_without_a_reason_ends_with_the_default() {
    let here = SourceLocation { file: "tests/lifecycle.rs", line: 150, column: 9 };
    let flow = cycle::<u32, &str>(CycleEvent::Message(None), here);
    assert!(matches!(flow, ControlFlow::Break(r) if r == CancelReason::new_with_loc(0, here)));
    let flow = cycle::<u32, &str>(CycleEvent::Cancelled(None), here);
    assert!(matches!(flow, ControlFlow::Break(r) if r == CancelReason::new_with_loc(0, here)));
    let flow = cycle::<u32, &str>(CycleEvent::Cancelled(Some(reason(2))), here);
    assert!(matches!(flow, ControlFlow::Break(r) if r == reason(2)));
    let step = advance::<String, &str>(
        Stage::Selecting,
        Terminate::Exit,
        Event::Selected(CycleEvent::Message(None)),
        here,
    );
    assert!(matches!(&step, (Stage::Terminating, Action::Terminate(r)) if r.value.is_empty() && r.location == here));
    assert_eq!(CancelReason::<u8>::default_at(here), CancelReason::new_with_loc(0, here));
}
