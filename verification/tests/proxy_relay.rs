use runy_actor::cancel::CancelToken;
use runy_actor::cancel::CancelTree;
use runy_actor::cancel::SourceLocation;
use runy_actor::proxy::Guards;
use runy_actor::proxy::ProxyAction;
use runy_actor::proxy::ProxyEvent;
use runy_actor::proxy::ProxyState;

#[test]
fn a_relay_that_was_not_started_takes_no_messages() {
    let mut tree: CancelTree<()> = CancelTree::new();
    let state: ProxyState<&str> = ProxyState::new(CancelToken::new(&mut tree));
    assert!(state.link.is_none());
    assert!(!state.shutdown_waits());
    assert_eq!(state.guards(false, true), Guards { cancellation: true, messages: false });
    assert_eq!(state.guards(true, false), Guards { cancellation: false, messages: false });
}

#[test]
fn a_started_relay_passes_messages_on() {
    let mut tree: CancelTree<()> = CancelTree::new();
    let idle: ProxyState<&str> = ProxyState::new(CancelToken::new(&mut tree));
    let started = idle.init(&mut tree, "backing");
    assert_ne!(started.token, idle.token);
    assert!(started.shutdown_waits());
    assert_eq!(started.guards(false, true), Guards { cancellation: true, messages: true });
    assert_eq!(started.guards(false, false), Guards { cancellation: true, messages: false });
    let state = match idle.step::<ProxyState<&str>, u32>(ProxyEvent::Update(Some(started))) {
        ProxyAction::Adopt(state) => state,
        _ => panic!("a new state is adopted"),
    };
    assert_eq!(state.link, Some("backing"));
    let action = state.step::<(), u32>(ProxyEvent::Message(Some(5u32)));
    assert!(matches!(action, ProxyAction::Relay(5)));
}

#[test]
fn cancellation_shuts_the_backing_actor_down() {
    let mut tree: CancelTree<()> = CancelTree::new();
    let idle: ProxyState<&str> = ProxyState::new(CancelToken::new(&mut tree));
    let action = idle.step::<(), u32>(ProxyEvent::Cancelled);
    assert!(matches!(action, ProxyAction::Notify));
    let started = idle.init(&mut tree, "backing");
    let action = started.step::<(), u32>(ProxyEvent::Cancelled);
    assert!(matches!(action, ProxyAction::Shutdown));
    assert_eq!(started.link, Some("backing"));
}

#[test]
fn closed_sources_stop_the_relay() {
    let mut tree: CancelTree<()> = CancelTree::new();
    let idle: ProxyState<&str> = ProxyState::new(CancelToken::new(&mut tree));
    let action = idle.step::<(), u32>(ProxyEvent::Update(None));
    assert!(matches!(action, ProxyAction::Stop));
    let action = idle.step::<(), u32>(ProxyEvent::Message(None));
    assert!(matches!(action, ProxyAction::Stop));
}

#[test]
fn reset_starts_again_with_a_new_token() {
    let mut tree: CancelTree<()> = CancelTree::new();
    let idle: ProxyState<&str> = ProxyState::new(CancelToken::new(&mut tree));
    let first = idle.init(&mut tree, "first");
    first.token.cancel(&mut tree, (), SourceLocation { file: "tests/proxy_relay.rs", line: 62, column: 1 });
    let second = first.reset(&mut tree, "second");
    assert_eq!(second.link, Some("second"));
    assert_ne!(second.token, first.token);
    assert!(!second.token.is_cancelled(&tree));
    assert!(first.token.is_cancelled(&tree));
    let other = CancelToken::new(&mut tree);
    assert_ne!(other, second.token);
}
