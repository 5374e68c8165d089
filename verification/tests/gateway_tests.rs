use lightctl::config::Light;
use lightctl::dispatcher::RadioDispatcher;
use lightctl::gateway::{handle_command, hello_response, Session};
use lightctl::protocol::{Command, ModeType, ResponseType, State};
use lightctl::store::StateStore;

fn patch() -> State {
    State { mode: None, dim: None, ct: None, gm: None, hue: None, sat: None }
}

fn cct_command(idx: u16, dim: u16, ct: u16, gm: i16) -> Command {
    let mut state = patch();
    state.mode = Some(ModeType::CCT);
    state.dim = Some(dim);
    state.ct = Some(ct);
    state.gm = Some(gm);
    Command { idx, state }
}

#[test]
fn cct_scenario_light_zero_at_address_seven() {
    let lights = vec![Light { address: 7 }];
    let mut store = StateStore::new(1);
    let mut dispatcher = RadioDispatcher::new();
    let response = handle_command(&lights, &mut store, &mut dispatcher, &cct_command(0, 50, 2700, 0));
    assert!(matches!(response.response, ResponseType::OK));
    let sent = dispatcher.drain();
    assert_eq!(sent.len(), 1);
    assert_eq!(sent[0].pipe, [0, 0, 0, 0, 7]);
    assert_eq!(sent[0].frame, [50, 0, 50, 50]);
}

#[test]
fn hsi_scenario_expected_frame() {
    let lights = vec![Light { address: 7 }];
    let mut store = StateStore::new(1);
    let mut dispatcher = RadioDispatcher::new();
    let mut state = patch();
    state.mode = Some(ModeType::HSI);
    state.hue = Some(180);
    state.sat = Some(100);
    state.dim = Some(10);
    let response = handle_command(&lights, &mut store, &mut dispatcher, &Command { idx: 0, state });
    assert!(matches!(response.response, ResponseType::OK));
    let sent = dispatcher.drain();
    assert_eq!(sent.len(), 1);
    assert_eq!(sent[0].frame, [0xf0, 10, 180, 100]);
}

#[test]
fn incomplete_state_is_acknowledged_but_not_transmitted() {
    let lights = vec![Light { address: 9 }];
    let mut store = StateStore::new(1);
    let mut dispatcher = RadioDispatcher::new();
    let mut state = patch();
    state.mode = Some(ModeType::CCT);
    state.dim = Some(50);
    let response = handle_command(&lights, &mut store, &mut dispatcher, &Command { idx: 0, state });
    assert!(matches!(response.response, ResponseType::OK));
    assert_eq!(dispatcher.pending(), 0);
}

#[test]
fn fields_merge_across_commands_until_complete() {
    let lights = vec![Light { address: 5 }];
    let mut store = StateStore::new(1);
    let mut dispatcher = RadioDispatcher::new();
    let mut a = patch();
    a.mode = Some(ModeType::CCT);
    a.dim = Some(50);
    handle_command(&lights, &mut store, &mut dispatcher, &Command { idx: 0, state: a });
    assert_eq!(dispatcher.pending(), 0);
    let mut b = patch();
    b.ct = Some(2700);
    handle_command(&lights, &mut store, &mut dispatcher, &Command { idx: 0, state: b });
    assert_eq!(dispatcher.pending(), 0);
    let mut c = patch();
    c.gm = Some(0);
    handle_command(&lights, &mut store, &mut dispatcher, &Command { idx: 0, state: c });
    assert_eq!(dispatcher.pending(), 1);
    let sent = dispatcher.drain();
    assert_eq!(sent[0].frame, [50, 0, 50, 50]);
}

#[test]
fn out_of_range_idx_is_a_protocol_error() {
    let lights = vec![Light { address: 7 }];
    let mut store = StateStore::new(1);
    let mut dispatcher = RadioDispatcher::new();
    let response = handle_command(&lights, &mut store, &mut dispatcher, &cct_command(1, 50, 2700, 0));
    assert!(matches!(response.response, ResponseType::Error));
    assert!(response.error.is_some());
    assert_eq!(dispatcher.pending(), 0);
    for light in store.snapshot() {
        assert_eq!(light.dim, None);
    }
}

#[test]
fn hello_response_carries_the_full_snapshot() {
    let mut store = StateStore::new(2);
    let mut p = patch();
    p.dim = Some(12);
    store.merge(0, &p).unwrap();
    let response = hello_response(&store);
    assert!(matches!(response.response, ResponseType::State));
    let snapshot = response.state.unwrap();
    assert_eq!(snapshot.len(), 2);
    assert_eq!(snapshot[0].dim, Some(12));
    assert_eq!(snapshot[1].dim, None);
}

#[test]
fn new_connection_sees_state_before_any_ok() {
    let lights = vec![Light { address: 7 }];
    let mut store = StateStore::new(1);
    let mut dispatcher = RadioDispatcher::new();

    // Updates merged before the connection was accepted show up in its greeting.
    let mut early = patch();
    early.dim = Some(77);
    store.merge(0, &early).unwrap();

    let mut session = Session::new();
    let greeting = session.greet(&store);
    assert!(matches!(greeting.response, ResponseType::State));
    assert_eq!(greeting.state.unwrap()[0].dim, Some(77));

    let reply = session.handle_line(&lights, &mut store, &mut dispatcher, &cct_command(0, 50, 2700, 0));
    assert!(matches!(reply.response, ResponseType::OK));
    let reply = session.handle_line(&lights, &mut store, &mut dispatcher, &cct_command(9, 50, 2700, 0));
    assert!(matches!(reply.response, ResponseType::Error));
}
