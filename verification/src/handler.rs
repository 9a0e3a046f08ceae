//! The vocabulary of a connection handler: the keep-alive verdict, the
//! descriptor of a substream to negotiate, the events that reach a handler and
//! those that leave it, and the trait that every handler implements.

use crate::task::Poll;
use crate::upgrade::{InboundUpgradeSend, OutboundUpgradeSend, UpgradeError};
use libp2p_core::Multiaddr;
use std::task::Context;
use vstd::prelude::*;

verus! {

/// How long a handler wants its connection kept open while no substream is
/// in use. A handler gives its verdict anew each time it is asked.
#[derive(Clone, Copy, Debug, PartialEq, Eq, Structural)]
pub enum KeepAlive {
    /// Keep the connection open until the supervisor's clock shows this
    /// deadline, then close it.
    Until(u64),
    /// Keep the connection open.
    Yes,
    /// Close the connection as soon as it is idle.
    No,
}

impl KeepAlive {
    /// Whether an idle connection under this verdict is due for closing when
    /// the clock shows `now`.
    pub open spec fn expired_at(self, now: u64) -> bool {
        match self {
            KeepAlive::Until(deadline) => deadline <= now,
            KeepAlive::Yes => false,
            KeepAlive::No => true,
        }
    }

    /// Whether this verdict keeps a connection open at least as long as
    /// `other` does.
    pub open spec fn outlasts(self, other: KeepAlive) -> bool {
        match (self, other) {
            (KeepAlive::Yes, _) => true,
            (_, KeepAlive::No) => true,
            (KeepAlive::Until(mine), KeepAlive::Until(theirs)) => mine >= theirs,
            _ => false,
        }
    }

    /// Of two verdicts, the one that keeps the connection open longer.
    pub open spec fn longer(self, other: KeepAlive) -> KeepAlive {
        if self.outlasts(other) {
            self
        } else {
            other
        }
    }

    /// Whether the verdict is `Yes`.
    pub fn is_yes(&self) -> (yes: bool)
        ensures
            yes == (*self is Yes),
    {
        match self {
            KeepAlive::Yes => true,
            _ => false,
        }
    }

    /// Whether an idle connection under this verdict is due for closing when
    /// the clock shows `now`.
    pub fn is_expired(&self, now: u64) -> (expired: bool)
        ensures
            expired == self.expired_at(now),
    {
        match self {
            KeepAlive::Until(deadline) => *deadline <= now,
            KeepAlive::Yes => false,
            KeepAlive::No => true,
        }
    }

    /// The verdict of two handlers that share one connection: the one that
    /// keeps it open longer.
    pub fn max(self, other: KeepAlive) -> (both: KeepAlive)
        ensures
            both == self.longer(other),
    {
        match (self, other) {
            (KeepAlive::Yes, _) => self,
            (_, KeepAlive::No) => self,
            (KeepAlive::Until(mine), KeepAlive::Until(theirs)) => if mine >= theirs {
                self
            } else {
                other
            },
            _ => other,
        }
    }
}

/// A connection shared by two handlers is due for closing exactly when both
/// of their verdicts allow it, and it does not matter which handler is asked
/// first.
pub proof fn lemma_shared_verdict(left: KeepAlive, right: KeepAlive, now: u64)
    ensures
        left.longer(right).expired_at(now) <==> left.expired_at(now) && right.expired_at(now),
        left.longer(right) == right.longer(left),
{
}

/// The protocol to negotiate on a substream, with data of the handler's own
/// that comes back unchanged when the negotiation has ended.
pub struct SubstreamProtocol<TUpgrade, TInfo> {
    /// The upgrade to negotiate.
    pub upgrade: TUpgrade,
    /// The handler's own data for this substream.
    pub info: TInfo,
}

impl<TUpgrade, TInfo> SubstreamProtocol<TUpgrade, TInfo> {
    /// Describes a substream on which `upgrade` is negotiated.
    pub fn new(upgrade: TUpgrade, info: TInfo) -> (protocol: Self)
        ensures
            protocol.upgrade == upgrade,
            protocol.info == info,
    {
        SubstreamProtocol { upgrade, info }
    }

    /// The upgrade to negotiate.
    pub fn upgrade(&self) -> (upgrade: &TUpgrade)
        ensures
            *upgrade == self.upgrade,
    {
        &self.upgrade
    }

    /// The handler's own data for this substream.
    pub fn info(&self) -> (info: &TInfo)
        ensures
            *info == self.info,
    {
        &self.info
    }

    /// Takes the descriptor apart.
    pub fn into_upgrade(self) -> (parts: (TUpgrade, TInfo))
        ensures
            parts.0 == self.upgrade,
            parts.1 == self.info,
    {
        (self.upgrade, self.info)
    }
}

/// Why a substream could not be brought to its protocol.
pub enum ConnectionHandlerUpgrErr<TUpgrErr> {
    /// The negotiation took longer than allowed.
    Timeout,
    /// The timer that watches the negotiation failed.
    Timer,
    /// The upgrade itself failed.
    Upgrade(UpgradeError<TUpgrErr>),
}

/// An inbound substream has been brought to its protocol.
pub struct FullyNegotiatedInbound<IP: InboundUpgradeSend, IOI> {
    /// What the upgrade yielded.
    pub protocol: IP::Output,
    /// The data that the handler gave when it offered the protocol.
    pub info: IOI,
}

/// An outbound substream has been brought to its protocol.
pub struct FullyNegotiatedOutbound<OP: OutboundUpgradeSend, OOI> {
    /// What the upgrade yielded.
    pub protocol: OP::Output,
    /// The data that the handler gave when it asked for the substream.
    pub info: OOI,
}

/// The remote's address has changed.
pub struct AddressChange {
    /// The address the remote is now reached at.
    pub new_address: Multiaddr,
}

/// An outbound substream could not be brought to its protocol.
pub struct DialUpgradeError<OOI, OP: OutboundUpgradeSend> {
    /// The data that the handler gave when it asked for the substream.
    pub info: OOI,
    /// Why it failed.
    pub error: ConnectionHandlerUpgrErr<OP::Error>,
}

/// An inbound substream could not be brought to its protocol.
pub struct ListenUpgradeError<IOI, IP: InboundUpgradeSend> {
    /// The data that the handler gave when it offered the protocol.
    pub info: IOI,
    /// Why it failed.
    pub error: ConnectionHandlerUpgrErr<IP::Error>,
}

/// What a connection tells its handler. The set of variants is closed: a
/// handler deals with every one of them.
pub enum ConnectionEvent<IP: InboundUpgradeSend, OP: OutboundUpgradeSend, IOI, OOI> {
    /// An inbound substream has been brought to its protocol.
    FullyNegotiatedInbound(FullyNegotiatedInbound<IP, IOI>),
    /// An outbound substream has been brought to its protocol.
    FullyNegotiatedOutbound(FullyNegotiatedOutbound<OP, OOI>),
    /// The remote's address has changed.
    AddressChange(AddressChange),
    /// An outbound substream could not be brought to its protocol.
    DialUpgradeError(DialUpgradeError<OOI, OP>),
    /// An inbound substream could not be brought to its protocol.
    ListenUpgradeError(ListenUpgradeError<IOI, IP>),
}

impl<IP: InboundUpgradeSend, OP: OutboundUpgradeSend, IOI, OOI> ConnectionEvent<IP, OP, IOI, OOI> {
    /// The data of an inbound substream whose negotiation this event ends.
    pub open spec fn inbound_open_info(self) -> Option<IOI> {
        match self {
            ConnectionEvent::FullyNegotiatedInbound(negotiated) => Some(negotiated.info),
            ConnectionEvent::ListenUpgradeError(failed) => Some(failed.info),
            _ => None,
        }
    }

    /// The data of an outbound substream whose negotiation this event ends.
    pub open spec fn outbound_open_info(self) -> Option<OOI> {
        match self {
            ConnectionEvent::FullyNegotiatedOutbound(negotiated) => Some(negotiated.info),
            ConnectionEvent::DialUpgradeError(failed) => Some(failed.info),
            _ => None,
        }
    }

    /// The event that ends the negotiation of an inbound substream offered
    /// with `info`.
    pub open spec fn inbound_ended(
        info: IOI,
        outcome: Result<IP::Output, ConnectionHandlerUpgrErr<IP::Error>>,
    ) -> Self {
        match outcome {
            Ok(protocol) => ConnectionEvent::FullyNegotiatedInbound(
                FullyNegotiatedInbound { protocol, info },
            ),
            Err(error) => ConnectionEvent::ListenUpgradeError(ListenUpgradeError { info, error }),
        }
    }

    /// The event that ends the negotiation of an outbound substream asked for
    /// with `info`.
    pub open spec fn outbound_ended(
        info: OOI,
        outcome: Result<OP::Output, ConnectionHandlerUpgrErr<OP::Error>>,
    ) -> Self {
        match outcome {
            Ok(protocol) => ConnectionEvent::FullyNegotiatedOutbound(
                FullyNegotiatedOutbound { protocol, info },
            ),
            Err(error) => ConnectionEvent::DialUpgradeError(DialUpgradeError { info, error }),
        }
    }

    /// Builds the event that tells a handler how the negotiation of an
    /// inbound substream ended. `info` is what the handler gave when it
    /// offered the protocol.
    pub fn from_inbound(
        info: IOI,
        outcome: Result<IP::Output, ConnectionHandlerUpgrErr<IP::Error>>,
    ) -> (event: Self)
        ensures
            event == Self::inbound_ended(info, outcome),
    {
        match outcome {
            Ok(protocol) => ConnectionEvent::FullyNegotiatedInbound(
                FullyNegotiatedInbound { protocol, info },
            ),
            Err(error) => ConnectionEvent::ListenUpgradeError(ListenUpgradeError { info, error }),
        }
    }

    /// Builds the event that tells a handler how the negotiation of an
    /// outbound substream ended. `info` is what the handler gave when it
    /// asked for the substream.
    pub fn from_outbound(
        info: OOI,
        outcome: Result<OP::Output, ConnectionHandlerUpgrErr<OP::Error>>,
    ) -> (event: Self)
        ensures
            event == Self::outbound_ended(info, outcome),
    {
        match outcome {
            Ok(protocol) => ConnectionEvent::FullyNegotiatedOutbound(
                FullyNegotiatedOutbound { protocol, info },
            ),
            Err(error) => ConnectionEvent::DialUpgradeError(DialUpgradeError { info, error }),
        }
    }
}

/// The data given with a request for an outbound substream comes back
/// unchanged in the event that ends the negotiation, whether the negotiation
/// succeeded or failed, and the event carries no data of an inbound substream.
pub proof fn lemma_outbound_info_round_trip<
    IP: InboundUpgradeSend,
    OP: OutboundUpgradeSend,
    IOI,
    OOI,
>(
    request: SubstreamProtocol<OP, OOI>,
    outcome: Result<OP::Output, ConnectionHandlerUpgrErr<OP::Error>>,
)
    ensures
        ConnectionEvent::<IP, OP, IOI, OOI>::outbound_ended(
            request.info,
            outcome,
        ).outbound_open_info() == Some(request.info),
        ConnectionEvent::<IP, OP, IOI, OOI>::outbound_ended(
            request.info,
            outcome,
        ).inbound_open_info() is None,
        outcome is Ok <==> ConnectionEvent::<IP, OP, IOI, OOI>::outbound_ended(
            request.info,
            outcome,
        ) is FullyNegotiatedOutbound,
{
}

/// The data given with the offer of an inbound protocol comes back unchanged
/// in the event that ends the negotiation, whether the negotiation succeeded
/// or failed, and the event carries no data of an outbound substream.
pub proof fn lemma_inbound_info_round_trip<
    IP: InboundUpgradeSend,
    OP: OutboundUpgradeSend,
    IOI,
    OOI,
>(
    offer: SubstreamProtocol<IP, IOI>,
    outcome: Result<IP::Output, ConnectionHandlerUpgrErr<IP::Error>>,
)
    ensures
        ConnectionEvent::<IP, OP, IOI, OOI>::inbound_ended(
            offer.info,
            outcome,
        ).inbound_open_info() == Some(offer.info),
        ConnectionEvent::<IP, OP, IOI, OOI>::inbound_ended(
            offer.info,
            outcome,
        ).outbound_open_info() is None,
        outcome is Ok <==> ConnectionEvent::<IP, OP, IOI, OOI>::inbound_ended(
            offer.info,
            outcome,
        ) is FullyNegotiatedInbound,
{
}

/// What a handler asks of its connection.
pub enum ConnectionHandlerEvent<TConnectionUpgrade, TOutboundOpenInfo, TCustom> {
    /// Open a substream and negotiate the protocol on it.
    OutboundSubstreamRequest {
        /// The protocol to negotiate, and the data to hand back with the
        /// outcome.
        protocol: SubstreamProtocol<TConnectionUpgrade, TOutboundOpenInfo>,
    },
    /// Hand an event to the behaviour.
    Custom(TCustom),
}

/// The state machine that runs on one connection. It is owned by that
/// connection alone, from the moment the connection is established until it
/// is closed.
///
/// For each method there is a relation that says what the method can answer
/// or do. The trait leaves every relation open; a handler that is verified
/// narrows them to what it does, and a handler written without proofs has
/// nothing to add.
pub trait ConnectionHandler: Sized {
    /// What the behaviour can send to the handler.
    type InEvent;

    /// What the handler can send to the behaviour.
    type OutEvent;

    /// The upgrade offered on substreams that the remote opens.
    type InboundProtocol: InboundUpgradeSend;

    /// The upgrade asked for on substreams that the handler opens.
    type OutboundProtocol: OutboundUpgradeSend;

    /// The handler's own data for an inbound substream.
    type InboundOpenInfo;

    /// The handler's own data for an outbound substream.
    type OutboundOpenInfo;

    /// Whether `verdict` can be the handler's answer in this state.
    open spec fn keep_alive_is(&self, verdict: KeepAlive) -> bool {
        true
    }

    /// Whether hearing `event` from the behaviour can take the handler from
    /// `before` to `after`.
    open spec fn behaviour_event_step(before: Self, event: Self::InEvent, after: Self) -> bool {
        true
    }

    /// Whether hearing `event` from its connection can take the handler from
    /// `before` to `after`.
    open spec fn connection_event_step(
        before: Self,
        event: ConnectionEvent<
            Self::InboundProtocol,
            Self::OutboundProtocol,
            Self::InboundOpenInfo,
            Self::OutboundOpenInfo,
        >,
        after: Self,
    ) -> bool {
        true
    }

    /// Whether a poll can take the handler from `before` to `after` and
    /// return `out`.
    open spec fn poll_step(
        before: Self,
        after: Self,
        out: Poll<
            ConnectionHandlerEvent<Self::OutboundProtocol, Self::OutboundOpenInfo, Self::OutEvent>,
        >,
    ) -> bool {
        true
    }

    /// The protocol to offer on the next inbound substream. Asking does not
    /// change the handler.
    fn listen_protocol(&self) -> SubstreamProtocol<Self::InboundProtocol, Self::InboundOpenInfo>;

    /// Tells the handler an event of the behaviour.
    fn on_behaviour_event(&mut self, event: Self::InEvent)
        ensures
            Self::behaviour_event_step(*old(self), event, *final(self)),
    ;

    /// Whether the connection should stay open while it is idle. Asking does
    /// not change the handler.
    fn connection_keep_alive(&self) -> (verdict: KeepAlive)
        ensures
            self.keep_alive_is(verdict),
    ;

    /// Asks the handler whether it has an event for its connection.
    fn poll(&mut self, cx: &mut Context<'_>) -> (out: Poll<
        ConnectionHandlerEvent<Self::OutboundProtocol, Self::OutboundOpenInfo, Self::OutEvent>,
    >)
        ensures
            Self::poll_step(*old(self), *final(self), out),
    ;

    /// Tells the handler an event of its connection.
    fn on_connection_event(
        &mut self,
        event: ConnectionEvent<
            Self::InboundProtocol,
            Self::OutboundProtocol,
            Self::InboundOpenInfo,
            Self::OutboundOpenInfo,
        >,
    )
        ensures
            Self::connection_event_step(*old(self), event, *final(self)),
    ;
}

/// Whether hearing `events` from its connection, first to last, can take a
/// handler from `before` to `after`.
pub open spec fn connection_event_steps<H: ConnectionHandler>(
    before: H,
    events: Seq<
        ConnectionEvent<
            H::InboundProtocol,
            H::OutboundProtocol,
            H::InboundOpenInfo,
            H::OutboundOpenInfo,
        >,
    >,
    after: H,
) -> bool
    decreases events.len(),
{
    if events.len() == 0 {
        after == before
    } else {
        exists|between: H| #[trigger]
            H::connection_event_step(before, events[0], between) && connection_event_steps(
                between,
                events.drop_first(),
                after,
            )
    }
}

} // verus!
