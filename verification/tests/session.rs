use rendezvous::address::Address;
use rendezvous::message::Msg;
use rendezvous::node::Node;
use rendezvous::registry::Registry;
use rendezvous::session::{
    perform, perform_shared, Inbound, Session, SessionAction, SessionError, SessionEvent,
};
use rendezvous::shared::SharedRegistry;

fn peer(id: u32, register_time: i64) -> Node {
    Node::new(id, register_time, vec![0x10, id as u8])
}

fn register(id: u32, register_time: i64) -> SessionEvent {
    SessionEvent::Inbound(Inbound::Message(Msg::Register(peer(id, register_time))))
}

fn active(id: u32, register_time: i64) -> Session {
    Session::Active { node_id: id, register_time }
}

#[test]
fn a_new_session_awaits_registration() {
    assert_eq!(Session::new(), Session::AwaitingRegistration);
}

#[test]
fn registration_makes_the_session_active() {
    let (next, action) = Session::new().step(register(7, 70));
    assert_eq!(next, active(7, 70));
    assert_eq!(action, SessionAction::Register(peer(7, 70)));
}

#[test]
fn any_other_first_message_is_a_protocol_error() {
    let (next, action) =
        Session::new().step(SessionEvent::Inbound(Inbound::Message(Msg::Heartbeat(7))));
    assert_eq!(next, Session::Closed);
    assert_eq!(action, SessionAction::Reject(SessionError::Protocol));
    let (next, action) = Session::new()
        .step(SessionEvent::Inbound(Inbound::Message(Msg::NodeMapSerde(vec![1, 2]))));
    assert_eq!(next, Session::Closed);
    assert_eq!(action, SessionAction::Reject(SessionError::Protocol));
}

#[test]
fn closing_before_registration_is_a_protocol_error() {
    let (next, action) = Session::new().step(SessionEvent::Inbound(Inbound::EndOfStream));
    assert_eq!(next, Session::Closed);
    assert_eq!(action, SessionAction::Reject(SessionError::Protocol));
}

#[test]
fn an_undecodable_first_message_is_a_protocol_error() {
    let (next, action) = Session::new().step(SessionEvent::Inbound(Inbound::Undecodable));
    assert_eq!(next, Session::Closed);
    assert_eq!(action, SessionAction::Reject(SessionError::Protocol));
}

#[test]
fn a_failed_first_read_is_a_transport_error() {
    let (next, action) = Session::new().step(SessionEvent::Inbound(Inbound::Failed));
    assert_eq!(next, Session::Closed);
    assert_eq!(action, SessionAction::Reject(SessionError::Transport));
}

#[test]
fn a_session_that_awaits_registration_ignores_the_subscription() {
    let (next, action) = Session::new().step(SessionEvent::Snapshot(vec![1]));
    assert_eq!(next, Session::AwaitingRegistration);
    assert_eq!(action, SessionAction::Ignore);
    let (next, action) = Session::new().step(SessionEvent::SendFailed);
    assert_eq!(next, Session::AwaitingRegistration);
    assert_eq!(action, SessionAction::Ignore);
    let (next, action) = Session::new().step(SessionEvent::BroadcastClosed);
    assert_eq!(next, Session::AwaitingRegistration);
    assert_eq!(action, SessionAction::Ignore);
}

#[test]
fn an_active_session_forwards_every_published_snapshot() {
    let (next, action) = active(7, 70).step(SessionEvent::Snapshot(vec![1, 2, 3]));
    assert_eq!(next, active(7, 70));
    assert_eq!(action, SessionAction::Forward(vec![1, 2, 3]));
    let (next, action) = next.step(SessionEvent::Snapshot(vec![1, 2, 3]));
    assert_eq!(next, active(7, 70));
    assert_eq!(action, SessionAction::Forward(vec![1, 2, 3]));
    let (next, action) = next.step(SessionEvent::Snapshot(Vec::new()));
    assert_eq!(next, active(7, 70));
    assert_eq!(action, SessionAction::Forward(Vec::new()));
}

#[test]
fn any_read_ends_an_active_session_with_a_teardown() {
    let regular = [
        SessionEvent::Inbound(Inbound::Message(Msg::Heartbeat(7))),
        SessionEvent::Inbound(Inbound::Message(Msg::Register(peer(7, 71)))),
        SessionEvent::Inbound(Inbound::Message(Msg::NodeMapSerde(vec![5]))),
        SessionEvent::Inbound(Inbound::EndOfStream),
        SessionEvent::BroadcastClosed,
    ];
    for event in regular {
        let (next, action) = active(7, 70).step(event);
        assert_eq!(next, Session::Closed);
        assert_eq!(
            action,
            SessionAction::Teardown { node_id: 7, register_time: 70, result: Ok(()) }
        );
    }
}

#[test]
fn failures_end_an_active_session_with_their_error() {
    let (next, action) = active(7, 70).step(SessionEvent::Inbound(Inbound::Failed));
    assert_eq!(next, Session::Closed);
    assert_eq!(
        action,
        SessionAction::Teardown {
            node_id: 7,
            register_time: 70,
            result: Err(SessionError::Transport)
        }
    );
    let (next, action) = active(7, 70).step(SessionEvent::SendFailed);
    assert_eq!(next, Session::Closed);
    assert_eq!(
        action,
        SessionAction::Teardown {
            node_id: 7,
            register_time: 70,
            result: Err(SessionError::Transport)
        }
    );
    let (next, action) = active(7, 70).step(SessionEvent::Inbound(Inbound::Undecodable));
    assert_eq!(next, Session::Closed);
    assert_eq!(
        action,
        SessionAction::Teardown {
            node_id: 7,
            register_time: 70,
            result: Err(SessionError::Protocol)
        }
    );
}

#[test]
fn a_closed_session_stays_closed() {
    let events = [
        register(7, 70),
        SessionEvent::Inbound(Inbound::EndOfStream),
        SessionEvent::Inbound(Inbound::Failed),
        SessionEvent::Snapshot(vec![1]),
        SessionEvent::SendFailed,
        SessionEvent::BroadcastClosed,
    ];
    for event in events {
        let (next, action) = Session::Closed.step(event);
        assert_eq!(next, Session::Closed);
        assert_eq!(action, SessionAction::Ignore);
    }
}

#[test]
fn performing_a_registration_publishes() {
    let mut registry = Registry::new();
    let effect = perform(&mut registry, SessionAction::Register(peer(7, 70)));
    let published = effect.publish.expect("a registration publishes");
    assert_eq!(published.len(), 1);
    assert_eq!(published.get(7), Some(&peer(7, 70)));
    assert_eq!(effect.send, None);
    assert_eq!(effect.close, None);
    assert_eq!(registry.get(7), Some(&peer(7, 70)));
}

#[test]
fn performing_a_forward_sends_the_snapshot_message() {
    let mut registry = Registry::new();
    registry.insert(peer(7, 70));
    let effect = perform(&mut registry, SessionAction::Forward(vec![4, 5, 6]));
    assert!(effect.publish.is_none());
    assert_eq!(effect.send, Some(Msg::NodeMapSerde(vec![4, 5, 6])));
    assert_eq!(effect.close, None);
    assert_eq!(registry.len(), 1);
}

#[test]
fn performing_a_teardown_removes_publishes_and_closes() {
    let mut registry = Registry::new();
    registry.insert(peer(7, 70));
    registry.insert(peer(8, 80));
    let effect = perform(
        &mut registry,
        SessionAction::Teardown {
            node_id: 7,
            register_time: 70,
            result: Err(SessionError::Transport),
        },
    );
    let published = effect.publish.expect("the record was removed");
    assert_eq!(published.len(), 1);
    assert_eq!(published.get(8), Some(&peer(8, 80)));
    assert_eq!(effect.send, None);
    assert_eq!(effect.close, Some(Err(SessionError::Transport)));
    assert!(!registry.contains(7));
}

#[test]
fn performing_a_stale_teardown_closes_without_publishing() {
    let mut registry = Registry::new();
    registry.insert(peer(7, 71));
    let effect = perform(
        &mut registry,
        SessionAction::Teardown { node_id: 7, register_time: 70, result: Ok(()) },
    );
    assert!(effect.publish.is_none());
    assert_eq!(effect.send, None);
    assert_eq!(effect.close, Some(Ok(())));
    assert_eq!(registry.get(7), Some(&peer(7, 71)));
}

#[test]
fn performing_a_reject_only_closes() {
    let mut registry = Registry::new();
    registry.insert(peer(7, 70));
    let effect = perform(&mut registry, SessionAction::Reject(SessionError::Protocol));
    assert!(effect.publish.is_none());
    assert_eq!(effect.send, None);
    assert_eq!(effect.close, Some(Err(SessionError::Protocol)));
    let effect = perform(&mut registry, SessionAction::Reject(SessionError::Transport));
    assert_eq!(effect.close, Some(Err(SessionError::Transport)));
    assert_eq!(registry.len(), 1);
}

#[test]
fn performing_ignore_does_nothing() {
    let mut registry = Registry::new();
    registry.insert(peer(7, 70));
    let effect = perform(&mut registry, SessionAction::Ignore);
    assert!(effect.publish.is_none());
    assert_eq!(effect.send, None);
    assert_eq!(effect.close, None);
    assert_eq!(registry.len(), 1);
}

#[test]
fn perform_shared_does_what_perform_does() {
    let shared = SharedRegistry::new();
    let effect = perform_shared(&shared, SessionAction::Register(peer(7, 70)));
    assert_eq!(effect.publish.expect("published").get(7), Some(&peer(7, 70)));
    assert_eq!(effect.send, None);
    assert_eq!(effect.close, None);

    let effect = perform_shared(&shared, SessionAction::Forward(vec![1]));
    assert!(effect.publish.is_none());
    assert_eq!(effect.send, Some(Msg::NodeMapSerde(vec![1])));
    assert_eq!(effect.close, None);

    let effect = perform_shared(
        &shared,
        SessionAction::Teardown { node_id: 7, register_time: 69, result: Ok(()) },
    );
    assert!(effect.publish.is_none());
    assert_eq!(effect.close, Some(Ok(())));
    assert_eq!(shared.get(7), Some(peer(7, 70)));

    let effect = perform_shared(&shared, SessionAction::Reject(SessionError::Protocol));
    assert!(effect.publish.is_none());
    assert_eq!(effect.close, Some(Err(SessionError::Protocol)));

    let effect = perform_shared(&shared, SessionAction::Ignore);
    assert!(effect.publish.is_none());
    assert_eq!(effect.send, None);
    assert_eq!(effect.close, None);

    let effect = perform_shared(
        &shared,
        SessionAction::Teardown {
            node_id: 7,
            register_time: 70,
            result: Err(SessionError::Transport),
        },
    );
    assert_eq!(effect.publish.expect("removed").len(), 0);
    assert_eq!(effect.close, Some(Err(SessionError::Transport)));
    assert_eq!(shared.get(7), None);
}

#[test]
fn reconnect_survives_the_teardown_of_the_earlier_session() {
    let shared = SharedRegistry::new();

    let (session_a, action) = Session::new().step(register(1, 1001));
    assert!(perform_shared(&shared, action).publish.is_some());

    // The connection of A drops, but B registers the same node before A's
    // teardown runs.
    let (session_a, teardown_a) = session_a.step(SessionEvent::Inbound(Inbound::EndOfStream));
    let (session_b, action) = Session::new().step(register(1, 1002));
    assert!(perform_shared(&shared, action).publish.is_some());

    let effect = perform_shared(&shared, teardown_a);
    assert!(effect.publish.is_none());
    assert_eq!(effect.close, Some(Ok(())));
    assert_eq!(session_a, Session::Closed);
    assert_eq!(session_b, active(1, 1002));
    assert_eq!(shared.snapshot().len(), 1);
    assert_eq!(shared.get(1), Some(peer(1, 1002)));

    let (_, teardown_b) = session_b.step(SessionEvent::Inbound(Inbound::EndOfStream));
    assert!(perform_shared(&shared, teardown_b).publish.is_some());
    assert_eq!(shared.get(1), None);
}

#[test]
fn two_sessions_both_get_the_snapshot_with_both_nodes() {
    let shared = SharedRegistry::new();
    let (session_a, action_a) = Session::new().step(register(0xA, 1));
    let first = perform_shared(&shared, action_a).publish.expect("published");
    assert_eq!(first.len(), 1);

    let (session_b, action_b) = Session::new().step(register(0xB, 2));
    let second = perform_shared(&shared, action_b).publish.expect("published");
    assert_eq!(second.len(), 2);
    assert_eq!(second.get(0xA), Some(&peer(0xA, 1)));
    assert_eq!(second.get(0xB), Some(&peer(0xB, 2)));

    // The caller encodes the snapshot and hands it to both sessions.
    let encoded = vec![0xA, 0xB];
    for session in [session_a, session_b] {
        let (next, action) = session.step(SessionEvent::Snapshot(encoded.clone()));
        assert_eq!(next, session);
        let effect = perform_shared(&shared, action);
        assert_eq!(effect.send, Some(Msg::NodeMapSerde(encoded.clone())));
        assert!(effect.publish.is_none());
        assert_eq!(effect.close, None);
    }
}

#[test]
fn a_peer_that_closes_is_removed_and_the_others_stay() {
    let shared = SharedRegistry::new();
    let (session_a, action_a) = Session::new().step(register(1, 10));
    perform_shared(&shared, action_a);
    let (session_b, action_b) = Session::new().step(register(2, 20));
    perform_shared(&shared, action_b);

    let (session_a, action) = session_a.step(SessionEvent::Inbound(Inbound::EndOfStream));
    let effect = perform_shared(&shared, action);
    let published = effect.publish.expect("own record removed");
    assert_eq!(published.len(), 1);
    assert_eq!(published.get(1), None);
    assert_eq!(published.get(2), Some(&peer(2, 20)));
    assert_eq!(effect.close, Some(Ok(())));
    assert_eq!(session_a, Session::Closed);

    assert_eq!(session_b, active(2, 20));
    let (next, action) = session_b.step(SessionEvent::Snapshot(vec![2]));
    assert_eq!(next, active(2, 20));
    assert_eq!(action, SessionAction::Forward(vec![2]));
}

#[test]
fn a_peer_that_closes_without_registering_leaves_the_registry_alone() {
    let shared = SharedRegistry::new();
    shared.register(peer(2, 20));
    let (next, action) = Session::new().step(SessionEvent::Inbound(Inbound::EndOfStream));
    let effect = perform_shared(&shared, action);
    assert_eq!(next, Session::Closed);
    assert!(effect.publish.is_none());
    assert_eq!(effect.close, Some(Err(SessionError::Protocol)));
    assert_eq!(shared.snapshot().len(), 1);
    assert_eq!(shared.get(2), Some(peer(2, 20)));
}

#[test]
fn a_heartbeat_between_register_and_teardown_does_not_hide_the_record() {
    let mut registry = Registry::new();
    let (session, action) = Session::new().step(register(3, 30));
    perform(&mut registry, action);
    assert!(registry.heartbeat(3, Address::V4 { host: 1, port: 2 }).is_some());
    let (_, action) = session.step(SessionEvent::SendFailed);
    let effect = perform(&mut registry, action);
    assert!(effect.publish.is_some());
    assert_eq!(effect.close, Some(Err(SessionError::Transport)));
    assert_eq!(registry.len(), 0);
}
