use robert_core::error::RobotError;
use robert_core::state::{AppState, LinkState, DISCONNECTED_MESSAGE, DISCONNECT_GRACE_MS};

#[test]
fn new_state_is_disconnected() {
    let state: AppState<u32> = AppState::new();
    assert_eq!(state.link_state(), LinkState::Disconnected);
    assert_eq!(state.connection(), None);
}

#[test]
fn set_connection_stores_the_handle() {
    let mut state: AppState<u32> = AppState::new();
    state.set_connection(7);
    assert_eq!(state.connection(), Some(&7));
    assert_eq!(state.link_state(), LinkState::Connecting);
}

#[test]
fn set_connection_supersedes_the_handle_before() {
    let mut state: AppState<u32> = AppState::new();
    state.set_connection(7);
    state.confirm_connection();
    state.set_connection(8);
    assert_eq!(state.connection(), Some(&8));
    assert_eq!(state.link_state(), LinkState::Connecting);
}

#[test]
fn confirm_connection_needs_a_handle() {
    let mut state: AppState<u32> = AppState::new();
    state.confirm_connection();
    assert_eq!(state.link_state(), LinkState::Disconnected);
    state.begin_connecting();
    state.confirm_connection();
    assert_eq!(state.link_state(), LinkState::Connecting);
    state.set_connection(1);
    state.confirm_connection();
    assert_eq!(state.link_state(), LinkState::Connected);
    assert_eq!(state.connection(), Some(&1));
    state.confirm_connection();
    assert_eq!(state.link_state(), LinkState::Connected);
}

#[test]
fn begin_connecting_drops_the_handle() {
    let mut state: AppState<u32> = AppState::new();
    state.set_connection(7);
    state.confirm_connection();
    state.begin_connecting();
    assert_eq!(state.connection(), None);
    assert_eq!(state.link_state(), LinkState::Connecting);
}

#[test]
fn clear_connection_leaves_the_link_disconnected() {
    let mut state: AppState<u32> = AppState::new();
    state.set_connection(7);
    state.clear_connection();
    assert_eq!(state.connection(), None);
    assert_eq!(state.link_state(), LinkState::Disconnected);
    state.clear_connection();
    assert_eq!(state.link_state(), LinkState::Disconnected);
}

#[test]
fn disconnect_closes_the_connection() {
    let mut state: AppState<u32> = AppState::new();
    state.set_connection(7);
    state.confirm_connection();
    assert_eq!(state.disconnect(), Ok(()));
    assert_eq!(state.connection(), None);
    assert_eq!(state.link_state(), LinkState::Disconnected);
    assert_eq!(DISCONNECT_GRACE_MS, 200);
    assert_eq!(DISCONNECTED_MESSAGE, "Successfully disconnected from the port.");
}

#[test]
fn disconnect_without_a_connection_fails() {
    let mut state: AppState<u32> = AppState::new();
    assert_eq!(state.disconnect(), Err(RobotError::NotConnected));
    assert_eq!(state.link_state(), LinkState::Disconnected);
    state.begin_connecting();
    assert_eq!(state.disconnect(), Err(RobotError::NotConnected));
    assert_eq!(state.link_state(), LinkState::Connecting);
}

#[test]
fn disconnect_twice_fails_the_second_time() {
    let mut state: AppState<u32> = AppState::new();
    state.set_connection(7);
    assert_eq!(state.disconnect(), Ok(()));
    assert_eq!(state.disconnect(), Err(RobotError::NotConnected));
}
