use rendezvous::message::Msg;
use rendezvous::node::Node;
use rendezvous::registry::Snapshot;
use rendezvous::session::{perform_shared, Inbound, Session, SessionAction, SessionEvent};
use rendezvous::shared::SharedRegistry;
use tokio::sync::watch;

/// A stand-in for the caller's encoder: the identifiers on file, in order.
fn encode(snapshot: &Snapshot) -> Vec<u8> {
    let mut ids: Vec<u8> = snapshot.nodes().keys().map(|id| *id as u8).collect();
    ids.sort();
    ids
}

fn join(registry: &SharedRegistry, id: u32) -> (Session, Snapshot) {
    let node = Node::new(id, 1_000 + id as i64, Vec::new());
    let read = SessionEvent::Inbound(Inbound::Message(Msg::Register(node)));
    let (session, action) = Session::new().step(read);
    let snapshot = perform_shared(registry, action).publish.expect("a registration publishes");
    (session, snapshot)
}

#[test]
fn a_slow_subscriber_gets_only_the_latest_snapshot() {
    let registry = SharedRegistry::new();
    let (tx, rx) = watch::channel::<Vec<u8>>(Vec::new());

    let (slow, first) = join(&registry, 1);
    tx.send(encode(&first)).expect("the channel has a subscriber");
    let mut subscription = rx.clone();

    // Fifty more nodes register while the slow subscriber reads nothing. No
    // publish waits for it.
    for id in 2..=51u32 {
        let (_, snapshot) = join(&registry, id);
        tx.send(encode(&snapshot)).expect("the channel has a subscriber");
    }

    assert!(subscription.has_changed().expect("the sender lives"));
    let latest = subscription.borrow_and_update().clone();
    assert_eq!(latest, (1..=51u8).collect::<Vec<u8>>());
    assert!(!subscription.has_changed().expect("the sender lives"));

    let (next, action) = slow.step(SessionEvent::Snapshot(latest.clone()));
    assert_eq!(next, slow);
    assert_eq!(action, SessionAction::Forward(latest.clone()));
    assert_eq!(perform_shared(&registry, action).send, Some(Msg::NodeMapSerde(latest)));
}

#[test]
fn publishing_the_same_snapshot_again_counts_as_a_publish() {
    let registry = SharedRegistry::new();
    let (tx, mut rx) = watch::channel::<Vec<u8>>(Vec::new());
    let (_, snapshot) = join(&registry, 1);
    tx.send(encode(&snapshot)).expect("the channel has a subscriber");
    assert_eq!(*rx.borrow_and_update(), vec![1]);
    assert!(!rx.has_changed().expect("the sender lives"));
    tx.send(encode(&snapshot)).expect("the channel has a subscriber");
    assert!(rx.has_changed().expect("the sender lives"));
    assert_eq!(*rx.borrow_and_update(), vec![1]);
}

#[test]
fn a_new_subscriber_sees_the_snapshot_of_its_moment() {
    let registry = SharedRegistry::new();
    let (tx, rx) = watch::channel::<Vec<u8>>(Vec::new());
    let (_, one) = join(&registry, 1);
    tx.send(encode(&one)).expect("the channel has a subscriber");
    let (_, two) = join(&registry, 2);
    tx.send(encode(&two)).expect("the channel has a subscriber");
    let late = tx.subscribe();
    assert_eq!(*late.borrow(), vec![1, 2]);
    drop(rx);
}
