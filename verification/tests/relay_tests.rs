use parser_proxy_ws::drain::DrainAction;
use parser_proxy_ws::drain::DrainInput;
use parser_proxy_ws::drain::DrainState;
use parser_proxy_ws::ws_server::WsServer;

use tokio::sync::mpsc::UnboundedReceiver;
use tokio::sync::mpsc::unbounded_channel;

fn connect(server: &mut WsServer) -> (u64, UnboundedReceiver<String>) {
    let (tx, rx) = unbounded_channel::<String>();
    let id = server.alloc_client_id();
    server.register(id, tx);
    (id, rx)
}

fn drain_all(rx: &mut UnboundedReceiver<String>) -> Vec<String> {
    let mut got = Vec::new();
    while let Ok(message) = rx.try_recv() {
        got.push(message);
    }
    got
}

/// The ids a delivery pass paired with a failed send.
fn failed_of(outcomes: &[(u64, bool)]) -> Vec<u64> {
    outcomes.iter().filter(|p| !p.1).map(|p| p.0).collect()
}

/// The ids a delivery pass attempted, in ascending order.
fn attempted_of(outcomes: &[(u64, bool)]) -> Vec<u64> {
    let mut ids: Vec<u64> = outcomes.iter().map(|p| p.0).collect();
    ids.sort();
    ids
}

/// Drive one already-encoded record through the drain policy and the
/// broadcaster, as the relay's drain loop does.
fn relay_text(state: &mut DrainState, server: &mut WsServer, text: &str) -> Vec<(u64, bool)> {
    match state.step(DrainInput::Encoded(String::from(text))) {
        DrainAction::Broadcast(message) => server.broadcast(&message),
        _ => panic!("an encoded record must be broadcast"),
    }
}

#[test]
fn one_client_receives_both_events_in_order() {
    let mut server = WsServer::new();
    let mut state = DrainState::new(1000);
    let (id, mut rx) = connect(&mut server);

    let outcomes = relay_text(&mut state, &mut server, "{\"e\":1}");
    assert_eq!(outcomes, vec![(id, true)]);
    let outcomes = relay_text(&mut state, &mut server, "{\"e\":2}");
    assert_eq!(outcomes, vec![(id, true)]);

    let got = drain_all(&mut rx);
    assert_eq!(got, vec![String::from("{\"e\":1}"), String::from("{\"e\":2}")]);
}

#[test]
fn surviving_client_keeps_receiving_after_peer_disconnects() {
    let mut server = WsServer::new();
    let mut state = DrainState::new(1000);
    let (c1, rx1) = connect(&mut server);
    let (c2, mut rx2) = connect(&mut server);

    let outcomes = relay_text(&mut state, &mut server, "{\"e\":1}");
    assert_eq!(attempted_of(&outcomes), vec![c1, c2]);
    assert!(failed_of(&outcomes).is_empty());

    drop(rx1);
    let outcomes = relay_text(&mut state, &mut server, "{\"e\":2}");
    assert_eq!(attempted_of(&outcomes), vec![c1, c2]);
    assert_eq!(failed_of(&outcomes), vec![c1]);

    let got = drain_all(&mut rx2);
    assert_eq!(got, vec![String::from("{\"e\":1}"), String::from("{\"e\":2}")]);
    assert!(server.contains_client(c2));
    assert!(!server.contains_client(c1));

    // the pruned client is no longer attempted, and nothing errs
    let outcomes = server.broadcast("{\"e\":3}");
    assert_eq!(attempted_of(&outcomes), vec![c2]);
    assert!(failed_of(&outcomes).is_empty());
    assert_eq!(drain_all(&mut rx2), vec![String::from("{\"e\":3}")]);
}

#[test]
fn broadcast_with_no_clients_delivers_nothing_and_succeeds() {
    let mut server = WsServer::new();
    assert_eq!(server.client_count(), 0);
    let outcomes = server.broadcast("{\"e\":1}");
    assert!(outcomes.is_empty());
    assert_eq!(server.client_count(), 0);
}

#[test]
fn dead_client_is_pruned_within_one_broadcast() {
    let mut server = WsServer::new();
    let (id, rx) = connect(&mut server);
    drop(rx);

    assert!(server.contains_client(id));
    let outcomes = server.broadcast("{\"e\":1}");
    assert_eq!(outcomes, vec![(id, false)]);
    assert!(!server.contains_client(id));

    // the next broadcast attempts no delivery to the pruned client
    let outcomes = server.broadcast("{\"e\":2}");
    assert!(outcomes.is_empty());
}

#[test]
fn closed_channel_does_not_block_delivery_to_others() {
    let mut server = WsServer::new();
    let (dead, dead_rx) = connect(&mut server);
    let (live, mut live_rx) = connect(&mut server);
    drop(dead_rx);

    let outcomes = server.broadcast("{\"e\":1}");
    assert_eq!(attempted_of(&outcomes), vec![dead, live]);
    assert_eq!(failed_of(&outcomes), vec![dead]);
    assert_eq!(drain_all(&mut live_rx), vec![String::from("{\"e\":1}")]);
    assert!(server.contains_client(live));
}

#[test]
fn registering_two_clients_keeps_both() {
    let mut server = WsServer::new();
    let (c1, _rx1) = connect(&mut server);
    let (c2, _rx2) = connect(&mut server);

    assert_ne!(c1, c2);
    assert!(server.contains_client(c1));
    assert!(server.contains_client(c2));
    assert_eq!(server.client_count(), 2);
}

#[test]
fn client_ids_increase_from_zero() {
    let mut server = WsServer::new();
    let (c1, _rx1) = connect(&mut server);
    let (c2, _rx2) = connect(&mut server);
    let (c3, _rx3) = connect(&mut server);
    assert_eq!((c1, c2, c3), (0, 1, 2));
}

#[test]
fn unregister_is_idempotent() {
    let mut server = WsServer::new();
    let (id, _rx) = connect(&mut server);
    server.unregister(id);
    assert!(!server.contains_client(id));
    server.unregister(id);
    assert!(!server.contains_client(id));
    assert_eq!(server.client_count(), 0);
}

#[test]
fn unregistered_client_receives_nothing_more() {
    let mut server = WsServer::new();
    let (id, mut rx) = connect(&mut server);
    server.broadcast("{\"e\":1}");
    server.unregister(id);
    let outcomes = server.broadcast("{\"e\":2}");
    assert!(outcomes.is_empty());
    assert_eq!(drain_all(&mut rx), vec![String::from("{\"e\":1}")]);
}
