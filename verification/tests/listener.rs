use robert_core::listener::{listener_step, ListenerEvent, ListenerStep, IDLE_INTERVAL_MS};
use robert_core::state::AppState;

fn connected() -> AppState<u32> {
    let mut state = AppState::new();
    state.set_connection(1);
    state.confirm_connection();
    state
}

#[test]
fn listener_drains_a_connected_link() {
    assert_eq!(IDLE_INTERVAL_MS, 1_000);
    assert_eq!(listener_step(&connected(), ListenerEvent::Woken), ListenerStep::Drain);
}

#[test]
fn listener_sleeps_without_a_connected_link() {
    let mut state: AppState<u32> = AppState::new();
    assert_eq!(listener_step(&state, ListenerEvent::Woken), ListenerStep::Sleep(1_000));
    state.begin_connecting();
    assert_eq!(listener_step(&state, ListenerEvent::Woken), ListenerStep::Sleep(1_000));
    // A port that is open but has not answered the handshake is left alone.
    state.set_connection(3);
    assert_eq!(listener_step(&state, ListenerEvent::Woken), ListenerStep::Sleep(1_000));
}

#[test]
fn listener_publishes_what_it_drained() {
    assert_eq!(
        listener_step(&connected(), ListenerEvent::Drained(b"[STATE];J1_ENABLED;~".to_vec())),
        ListenerStep::Publish("[STATE];J1_ENABLED;~".to_string())
    );
    assert_eq!(
        listener_step(&connected(), ListenerEvent::Drained(b"J\xfe".to_vec())),
        ListenerStep::Publish("J\u{fffd}".to_string())
    );
}

#[test]
fn listener_sleeps_after_an_empty_or_failed_drain() {
    assert_eq!(
        listener_step(&connected(), ListenerEvent::Drained(vec![])),
        ListenerStep::Sleep(1_000)
    );
    assert_eq!(
        listener_step(&connected(), ListenerEvent::DrainFailed),
        ListenerStep::Sleep(1_000)
    );
    assert_eq!(
        listener_step(&connected(), ListenerEvent::Published),
        ListenerStep::Sleep(1_000)
    );
}
