//! The tunnel session: the protocol of one connection, from registration to
//! teardown.
//!
//! A session is a state machine. The caller owns the connection and the
//! subscription to published snapshots; it reports what happens on them as
//! [`SessionEvent`]s, and [`Session::step`] answers each with the next state
//! and a [`SessionAction`]. [`perform`] carries an action out on the registry
//! and says what is left for the caller to do: publish, send, close.

use vstd::prelude::*;
use crate::message::Msg;
use crate::node::{Node, NodeId, RegisterTime};
use crate::registry::{
    is_current, registered, removed_if, well_keyed, Registry, Snapshot, Table,
};
use crate::shared::SharedRegistry;

verus! {

/// Why a session ended in failure.
#[derive(Clone, Copy, Debug, PartialEq, Eq, Structural)]
pub enum SessionError {
    /// The peer did not keep to the protocol: its first message was not a
    /// registration, it closed before registering, or it sent what does not
    /// decode.
    Protocol,
    /// The connection failed while reading or sending.
    Transport,
}

/// What one read on the connection gave.
#[derive(Debug, PartialEq, Eq)]
pub enum Inbound {
    /// A decoded message.
    Message(Msg),
    /// The peer closed the connection.
    EndOfStream,
    /// Bytes that do not decode to a message.
    Undecodable,
    /// The read failed.
    Failed,
}

/// Something that happened on the session's connection or subscription.
#[derive(Debug, PartialEq, Eq)]
pub enum SessionEvent {
    /// A read on the connection completed.
    Inbound(Inbound),
    /// The subscription yielded a newly published snapshot, encoded.
    Snapshot(Vec<u8>),
    /// Sending to the peer failed.
    SendFailed,
    /// The subscription ended: nothing will be published any more.
    BroadcastClosed,
}

/// The state of a session.
#[derive(Clone, Copy, Debug, PartialEq, Eq, Structural)]
pub enum Session {
    /// Connected; the registration has not arrived yet.
    AwaitingRegistration,
    /// Registered as `node_id`, by the registration `register_time`.
    Active { node_id: NodeId, register_time: RegisterTime },
    /// Ended. Nothing moves a session out of this state.
    Closed,
}

/// What the session asks for in answer to an event.
#[derive(Debug, PartialEq, Eq)]
pub enum SessionAction {
    /// Register the node and publish the new snapshot.
    Register(Node),
    /// Send the encoded snapshot to the peer.
    Forward(Vec<u8>),
    /// Tear down the registration `register_time` of `node_id`, publish if
    /// that removed the record, and close the connection with `result`.
    Teardown { node_id: NodeId, register_time: RegisterTime, result: Result<(), SessionError> },
    /// Close the connection with this error. Nothing was registered, so
    /// there is nothing to undo.
    Reject(SessionError),
    /// Nothing to do.
    Ignore,
}

/// How an active session that ends on `event` reports its end. A message
/// from the peer, the peer closing, and the end of the subscription are
/// regular ends; the rest are failures.
pub open spec fn termination_result(event: SessionEvent) -> Result<(), SessionError> {
    match event {
        SessionEvent::Inbound(Inbound::Undecodable) => Err(SessionError::Protocol),
        SessionEvent::Inbound(Inbound::Failed) => Err(SessionError::Transport),
        SessionEvent::SendFailed => Err(SessionError::Transport),
        _ => Ok(()),
    }
}

/// The session's transition function.
///
/// While awaiting registration, a read decides: a registration makes the
/// session active, anything else closes it. While active, a published
/// snapshot is forwarded and every other event ends the session with a
/// teardown that carries the identifier and the token of its registration.
pub open spec fn transition(session: Session, event: SessionEvent) -> (Session, SessionAction) {
    match session {
        Session::AwaitingRegistration => match event {
            SessionEvent::Inbound(Inbound::Message(Msg::Register(node))) => (
                Session::Active { node_id: node.id, register_time: node.register_time },
                SessionAction::Register(node),
            ),
            SessionEvent::Inbound(Inbound::Failed) => (
                Session::Closed,
                SessionAction::Reject(SessionError::Transport),
            ),
            SessionEvent::Inbound(_) => (
                Session::Closed,
                SessionAction::Reject(SessionError::Protocol),
            ),
            _ => (session, SessionAction::Ignore),
        },
        Session::Active { node_id, register_time } => match event {
            SessionEvent::Snapshot(encoded) => (session, SessionAction::Forward(encoded)),
            _ => (
                Session::Closed,
                SessionAction::Teardown {
                    node_id,
                    register_time,
                    result: termination_result(event),
                },
            ),
        },
        Session::Closed => (Session::Closed, SessionAction::Ignore),
    }
}

/// The state of a session that has seen all of `events`, first to last,
/// since its connection was accepted.
pub open spec fn state_after(events: Seq<SessionEvent>) -> Session
    decreases events.len(),
{
    if events.len() == 0 {
        Session::AwaitingRegistration
    } else {
        transition(state_after(events.drop_last()), events.last()).0
    }
}

/// The action with which a session that has seen `events` answers the last
/// of them.
pub open spec fn answer_to(events: Seq<SessionEvent>) -> SessionAction
    recommends
        events.len() > 0,
{
    transition(state_after(events.drop_last()), events.last()).1
}

/// The session registered `node_id` with the token `register_time` in answer
/// to the event at `at`.
pub open spec fn registers_at(
    events: Seq<SessionEvent>,
    at: int,
    node_id: NodeId,
    register_time: RegisterTime,
) -> bool {
    &&& 0 <= at < events.len()
    &&& answer_to(events.take(at + 1)) matches SessionAction::Register(node)
    &&& node.id == node_id
    &&& node.register_time == register_time
}

/// An active session is active by a registration of its own: the identifier
/// and the token in its state are those of a node that it registered.
pub proof fn lemma_active_by_own_registration(events: Seq<SessionEvent>)
    ensures
        state_after(events) matches Session::Active { node_id, register_time } ==> exists|at: int|
            registers_at(events, at, node_id, register_time),
    decreases events.len(),
{
    if let Session::Active { node_id, register_time } = state_after(events) {
        let earlier = events.drop_last();
        if state_after(earlier) == state_after(events) {
            lemma_active_by_own_registration(earlier);
            let at = choose|at: int| registers_at(earlier, at, node_id, register_time);
            assert(earlier.take(at + 1) =~= events.take(at + 1));
            assert(registers_at(events, at, node_id, register_time));
        } else {
            let at = events.len() - 1;
            assert(events.take(at + 1) =~= events);
            assert(registers_at(events, at, node_id, register_time));
        }
    }
}

/// A session tears down nothing but its own registration: every teardown
/// that it asks for carries the identifier and the token of a node that the
/// same session registered before.
pub proof fn lemma_teardown_of_own_registration(events: Seq<SessionEvent>, at: int)
    requires
        0 <= at < events.len(),
        answer_to(events.take(at + 1)) is Teardown,
    ensures
        exists|before: int|
            before < at && #[trigger] registers_at(
                events,
                before,
                answer_to(events.take(at + 1))->node_id,
                answer_to(events.take(at + 1))->register_time,
            ),
{
    let upto = events.take(at + 1);
    let earlier = events.take(at);
    assert(upto.drop_last() =~= earlier);
    let node_id = answer_to(upto)->node_id;
    let register_time = answer_to(upto)->register_time;
    assert(state_after(earlier) == Session::Active { node_id, register_time });
    lemma_active_by_own_registration(earlier);
    let before = choose|before: int| registers_at(earlier, before, node_id, register_time);
    assert(earlier.take(before + 1) =~= events.take(before + 1));
    assert(registers_at(events, before, node_id, register_time));
}

/// A closed session stays closed and asks for nothing more.
pub proof fn lemma_closed_is_final(events: Seq<SessionEvent>, more: Seq<SessionEvent>)
    requires
        state_after(events) == Session::Closed,
    ensures
        state_after(events + more) == Session::Closed,
        more.len() > 0 ==> answer_to(events + more) == SessionAction::Ignore,
    decreases more.len(),
{
    if more.len() == 0 {
        assert(events + more =~= events);
    } else {
        assert((events + more).drop_last() =~= events + more.drop_last());
        lemma_closed_is_final(events, more.drop_last());
    }
}

/// What is left for the caller to do once an action has been carried out on
/// the registry, in this order.
#[derive(Debug)]
pub struct Effect {
    /// Publish this snapshot to all subscribers.
    pub publish: Option<Snapshot>,
    /// Send this message to the peer.
    pub send: Option<Msg>,
    /// Close the connection and end the session with this result.
    pub close: Option<Result<(), SessionError>>,
}

/// The table after `action` has been carried out.
pub open spec fn performed(table: Table, action: SessionAction) -> Table {
    match action {
        SessionAction::Register(node) => registered(table, node@),
        SessionAction::Teardown { node_id, register_time, .. } => removed_if(
            table,
            node_id,
            register_time,
        ),
        _ => table,
    }
}

/// Carrying out `action` on `table` publishes a snapshot: a registration
/// always does, a teardown does if it removes the record, nothing else does.
pub open spec fn publishes(table: Table, action: SessionAction) -> bool {
    match action {
        SessionAction::Register(_) => true,
        SessionAction::Teardown { node_id, register_time, .. } => is_current(
            table,
            node_id,
            register_time,
        ),
        _ => false,
    }
}

/// The message that `action` sends to the peer, if any.
pub open spec fn message_for(action: SessionAction) -> Option<Msg> {
    match action {
        SessionAction::Forward(encoded) => Some(Msg::NodeMapSerde(encoded)),
        _ => None,
    }
}

/// The result with which `action` ends the session, if it ends it.
pub open spec fn closing(action: SessionAction) -> Option<Result<(), SessionError>> {
    match action {
        SessionAction::Teardown { result, .. } => Some(result),
        SessionAction::Reject(error) => Some(Err(error)),
        _ => None,
    }
}

/// `table` shows what `action` did: the registered node on file as it was
/// registered, or the torn-down node gone.
pub open spec fn shows(table: Table, action: SessionAction) -> bool {
    match action {
        SessionAction::Register(node) => table.contains_key(node.id) && table[node.id] == node@,
        SessionAction::Teardown { node_id, .. } => !table.contains_key(node_id),
        _ => true,
    }
}

/// Carries `action` out on `registry`.
///
/// The snapshot to publish, where there is one, is the registry as the
/// action left it.
pub fn perform(registry: &mut Registry, action: SessionAction) -> (effect: Effect)
    ensures
        final(registry)@ == performed(old(registry)@, action),
        effect.publish is Some <==> publishes(old(registry)@, action),
        effect.publish matches Some(snapshot) ==> snapshot@ == final(registry)@ && well_keyed(
            snapshot@,
        ),
        effect.send == message_for(action),
        effect.close == closing(action),
{
    match action {
        SessionAction::Register(node) => {
            let snapshot = registry.register(node);
            Effect { publish: Some(snapshot), send: None, close: None }
        },
        SessionAction::Forward(encoded) => Effect {
            publish: None,
            send: Some(Msg::NodeMapSerde(encoded)),
            close: None,
        },
        SessionAction::Teardown { node_id, register_time, result } => {
            let publish = registry.deregister(node_id, register_time);
            Effect { publish, send: None, close: Some(result) }
        },
        SessionAction::Reject(error) => Effect {
            publish: None,
            send: None,
            close: Some(Err(error)),
        },
        SessionAction::Ignore => Effect { publish: None, send: None, close: None },
    }
}

/// Carries `action` out on a shared registry.
///
/// What is sent and how the session closes depend on the action alone. So
/// does whether a registration publishes: it always does. Whether a
/// teardown publishes depends on what the registry holds when the lock is
/// taken; a snapshot that is published shows what the action did.
pub fn perform_shared(registry: &SharedRegistry, action: SessionAction) -> (effect: Effect)
    ensures
        effect.send == message_for(action),
        effect.close == closing(action),
        action is Register ==> effect.publish is Some,
        !(action is Register || action is Teardown) ==> effect.publish is None,
        effect.publish matches Some(snapshot) ==> shows(snapshot@, action) && well_keyed(
            snapshot@,
        ),
{
    match action {
        SessionAction::Register(node) => {
            let snapshot = registry.register(node);
            Effect { publish: Some(snapshot), send: None, close: None }
        },
        SessionAction::Forward(encoded) => Effect {
            publish: None,
            send: Some(Msg::NodeMapSerde(encoded)),
            close: None,
        },
        SessionAction::Teardown { node_id, register_time, result } => {
            let publish = registry.deregister(node_id, register_time);
            Effect { publish, send: None, close: Some(result) }
        },
        SessionAction::Reject(error) => Effect {
            publish: None,
            send: None,
            close: Some(Err(error)),
        },
        SessionAction::Ignore => Effect { publish: None, send: None, close: None },
    }
}

impl Session {
    /// The state of a session whose connection was just accepted.
    pub fn new() -> (session: Session)
        ensures
            session == Session::AwaitingRegistration,
    {
        Session::AwaitingRegistration
    }

    /// Answers `event`: the next state and what to do.
    pub fn step(self, event: SessionEvent) -> (next: (Session, SessionAction))
        ensures
            next == transition(self, event),
    {
        match self {
            Session::AwaitingRegistration => match event {
                SessionEvent::Inbound(Inbound::Message(Msg::Register(node))) => {
                    let node_id = node.id;
                    let register_time = node.register_time;
                    (Session::Active { node_id, register_time }, SessionAction::Register(node))
                },
                SessionEvent::Inbound(Inbound::Failed) => (
                    Session::Closed,
                    SessionAction::Reject(SessionError::Transport),
                ),
                SessionEvent::Inbound(_) => (
                    Session::Closed,
                    SessionAction::Reject(SessionError::Protocol),
                ),
                _ => (self, SessionAction::Ignore),
            },
            Session::Active { node_id, register_time } => match event {
                SessionEvent::Snapshot(encoded) => (self, SessionAction::Forward(encoded)),
                SessionEvent::Inbound(Inbound::Undecodable) => (
                    Session::Closed,
                    SessionAction::Teardown {
                        node_id,
                        register_time,
                        result: Err(SessionError::Protocol),
                    },
                ),
                SessionEvent::Inbound(Inbound::Failed) => (
                    Session::Closed,
                    SessionAction::Teardown {
                        node_id,
                        register_time,
                        result: Err(SessionError::Transport),
                    },
                ),
                SessionEvent::SendFailed => (
                    Session::Closed,
                    SessionAction::Teardown {
                        node_id,
                        register_time,
                        result: Err(SessionError::Transport),
                    },
                ),
                _ => (
                    Session::Closed,
                    SessionAction::Teardown { node_id, register_time, result: Ok(()) },
                ),
            },
            Session::Closed => (Session::Closed, SessionAction::Ignore),
        }
    }
}

} // verus!
