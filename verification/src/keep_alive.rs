//! A behaviour that does nothing but keep every connection open, and the
//! handler it puts on each connection.
//!
//! Both are without state. The handler denies every inbound substream and
//! never asks for an outbound one, so the events a handler usually exchanges
//! with its behaviour cannot occur; their type has no value.

use crate::behaviour::{swarm_event_steps, FromSwarm, NetworkBehaviour, NetworkBehaviourAction};
use crate::connection::ConnectionId;
use crate::foreign::{absurd, denied_upgrade};
use crate::handler::ConnectionHandler as _;
use crate::handler::{
    connection_event_steps, ConnectionEvent, ConnectionHandlerEvent, FullyNegotiatedInbound,
    FullyNegotiatedOutbound, KeepAlive, SubstreamProtocol,
};
use crate::task::Poll;
use crate::upgrade::UpgradeInfoSend;
use libp2p_core::upgrade::DeniedUpgrade;
use libp2p_identity::PeerId;
use std::task::Context;
use vstd::prelude::*;
use void::Void;

verus! {

/// A behaviour that keeps all connections alive and does nothing else.
///
/// Open connections take up resources, so this is mostly of use in tests.
pub struct Behaviour;

impl Default for Behaviour {
    fn default() -> (behaviour: Self)
        ensures
            behaviour == Behaviour,
    {
        Behaviour
    }
}

impl NetworkBehaviour for Behaviour {
    type ConnectionHandler = ConnectionHandler;

    type OutEvent = Void;

    /// An event of the swarm leaves the behaviour as it was.
    open spec fn swarm_event_step(
        before: Self,
        event: FromSwarm<ConnectionHandler>,
        after: Self,
    ) -> bool {
        after == before
    }

    /// An event of a handler leaves the behaviour as it was.
    open spec fn handler_event_step(
        before: Self,
        peer_id: PeerId,
        connection: ConnectionId,
        event: Void,
        after: Self,
    ) -> bool {
        after == before
    }

    /// A poll leaves the behaviour as it was and finds nothing.
    open spec fn poll_step(
        before: Self,
        after: Self,
        out: Poll<NetworkBehaviourAction<Void, ConnectionHandler>>,
    ) -> bool {
        after == before && out is Pending
    }

    /// Makes the handler for a new connection: one that keeps it alive.
    fn new_handler(&mut self) -> (handler: ConnectionHandler)
        ensures
            *final(self) == *old(self),
            handler == ConnectionHandler,
            handler.keep_alive_is(KeepAlive::Yes),
    {
        ConnectionHandler
    }

    /// The handler sends no events, so there is nothing to hand over.
    fn on_connection_handler_event(
        &mut self,
        peer_id: PeerId,
        connection: ConnectionId,
        event: Void,
    )
        ensures
            *final(self) == *old(self),
    {
        absurd(event)
    }

    /// Never has anything for the swarm to do, and leaves the waker alone.
    fn poll(&mut self, cx: &mut Context<'_>) -> (out: Poll<
        NetworkBehaviourAction<Void, ConnectionHandler>,
    >)
        ensures
            out is Pending,
            *final(self) == *old(self),
            *final(cx) == *old(cx),
    {
        Poll::Pending
    }

    /// Takes note of an event of the swarm, whichever it is, and does
    /// nothing.
    fn on_swarm_event(&mut self, event: FromSwarm<ConnectionHandler>)
        ensures
            *final(self) == *old(self),
    {
        match event {
            FromSwarm::ConnectionEstablished(_)
            | FromSwarm::ConnectionClosed(_)
            | FromSwarm::AddressChange(_)
            | FromSwarm::DialFailure(_)
            | FromSwarm::ListenFailure(_)
            | FromSwarm::NewListener(_)
            | FromSwarm::NewListenAddr(_)
            | FromSwarm::ExpiredListenAddr(_)
            | FromSwarm::ListenerError(_)
            | FromSwarm::ListenerClosed(_)
            | FromSwarm::NewExternalAddr(_)
            | FromSwarm::ExpiredExternalAddr(_) => {},
        }
    }
}

/// The behaviour can hear any events of the swarm, in any order.
pub proof fn lemma_behaviour_hears_all(
    behaviour: Behaviour,
    events: Seq<FromSwarm<ConnectionHandler>>,
)
    ensures
        swarm_event_steps(behaviour, events, behaviour),
    decreases events.len(),
{
    if events.len() > 0 {
        lemma_behaviour_hears_all(behaviour, events.drop_first());
        assert(Behaviour::swarm_event_step(behaviour, events[0], behaviour));
    }
}

/// Whatever the swarm tells the behaviour, and in whatever order, the
/// behaviour is afterwards as it was before, and a poll that follows leaves
/// it so and finds nothing for the swarm to do.
pub proof fn lemma_behaviour_ignores_swarm(
    behaviour: Behaviour,
    events: Seq<FromSwarm<ConnectionHandler>>,
    after: Behaviour,
)
    requires
        swarm_event_steps(behaviour, events, after),
    ensures
        after == behaviour,
        forall|next: Behaviour, out: Poll<NetworkBehaviourAction<Void, ConnectionHandler>>|
            #[trigger] Behaviour::poll_step(after, next, out) ==> out is Pending && next
                == behaviour,
{
}

/// A handler that handles nothing and keeps its connection alive. It has
/// one state, idle, and never leaves it.
#[derive(Debug)]
pub struct ConnectionHandler;

impl Clone for ConnectionHandler {
    fn clone(&self) -> (copy: Self)
        ensures
            copy == *self,
    {
        ConnectionHandler
    }
}

impl crate::handler::ConnectionHandler for ConnectionHandler {
    type InEvent = Void;

    type OutEvent = Void;

    type InboundProtocol = DeniedUpgrade;

    type OutboundProtocol = DeniedUpgrade;

    type InboundOpenInfo = ();

    type OutboundOpenInfo = Void;

    /// The answer is always to keep the connection open.
    open spec fn keep_alive_is(&self, verdict: KeepAlive) -> bool {
        verdict == KeepAlive::Yes
    }

    /// An event of the behaviour leaves the handler as it was.
    open spec fn behaviour_event_step(before: Self, event: Void, after: Self) -> bool {
        after == before
    }

    /// An event of the connection leaves the handler as it was.
    open spec fn connection_event_step(
        before: Self,
        event: ConnectionEvent<DeniedUpgrade, DeniedUpgrade, (), Void>,
        after: Self,
    ) -> bool {
        after == before
    }

    /// A poll leaves the handler as it was and finds nothing.
    open spec fn poll_step(
        before: Self,
        after: Self,
        out: Poll<ConnectionHandlerEvent<DeniedUpgrade, Void, Void>>,
    ) -> bool {
        after == before && out is Pending
    }

    /// Offers the upgrade that supports no protocol: it lists no name, so no
    /// inbound substream can be negotiated.
    fn listen_protocol(&self) -> (protocol: SubstreamProtocol<DeniedUpgrade, ()>)
        ensures
            protocol.info == (),
            forall|names: Seq<Seq<u8>>| #[trigger]
                protocol.upgrade.lists(names) ==> names == Seq::<Seq<u8>>::empty(),
    {
        SubstreamProtocol::new(denied_upgrade(), ())
    }

    /// The behaviour sends no events, so there is nothing to handle.
    fn on_behaviour_event(&mut self, event: Void)
        ensures
            *final(self) == *old(self),
    {
        absurd(event)
    }

    /// Always asks for the connection to stay open.
    fn connection_keep_alive(&self) -> (verdict: KeepAlive)
        ensures
            verdict == KeepAlive::Yes,
    {
        KeepAlive::Yes
    }

    /// Never has an event for the connection: it asks for no substream and
    /// sends nothing to the behaviour. It leaves the waker alone.
    fn poll(&mut self, cx: &mut Context<'_>) -> (out: Poll<
        ConnectionHandlerEvent<DeniedUpgrade, Void, Void>,
    >)
        ensures
            out is Pending,
            *final(self) == *old(self),
            *final(cx) == *old(cx),
    {
        Poll::Pending
    }

    /// Takes note of a failed negotiation or a changed address and does
    /// nothing. A negotiated substream cannot reach this handler: what the
    /// denied upgrade would yield has no value.
    fn on_connection_event(
        &mut self,
        event: ConnectionEvent<DeniedUpgrade, DeniedUpgrade, (), Void>,
    )
        ensures
            *final(self) == *old(self),
    {
        match event {
            ConnectionEvent::FullyNegotiatedInbound(FullyNegotiatedInbound { protocol, .. }) => {
                absurd(protocol)
            },
            ConnectionEvent::FullyNegotiatedOutbound(FullyNegotiatedOutbound { protocol, .. }) => {
                absurd(protocol)
            },
            ConnectionEvent::DialUpgradeError(_)
            | ConnectionEvent::ListenUpgradeError(_)
            | ConnectionEvent::AddressChange(_) => {},
        }
    }
}

/// The handler can hear any events of its connection, in any order.
pub proof fn lemma_handler_hears_all(
    handler: ConnectionHandler,
    events: Seq<ConnectionEvent<DeniedUpgrade, DeniedUpgrade, (), Void>>,
)
    ensures
        connection_event_steps(handler, events, handler),
    decreases events.len(),
{
    if events.len() > 0 {
        lemma_handler_hears_all(handler, events.drop_first());
        assert(<ConnectionHandler as crate::handler::ConnectionHandler>::connection_event_step(
            handler,
            events[0],
            handler,
        ));
    }
}

/// Whatever the connection tells the handler, and in whatever order, the
/// handler is afterwards as it was before, its only answer is to keep the
/// connection open, and a poll that follows leaves it so and finds no event.
pub proof fn lemma_handler_keeps_alive(
    handler: ConnectionHandler,
    events: Seq<ConnectionEvent<DeniedUpgrade, DeniedUpgrade, (), Void>>,
    after: ConnectionHandler,
)
    requires
        connection_event_steps(handler, events, after),
    ensures
        after == handler,
        forall|verdict: KeepAlive| #[trigger]
            after.keep_alive_is(verdict) <==> verdict == KeepAlive::Yes,
        forall|
            next: ConnectionHandler,
            out: Poll<ConnectionHandlerEvent<DeniedUpgrade, Void, Void>>,
        |
            #[trigger] <ConnectionHandler as crate::handler::ConnectionHandler>::poll_step(
                after,
                next,
                out,
            ) ==> out is Pending && next == handler,
{
}

} // verus!
