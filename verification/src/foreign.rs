//! Types and calls of other crates. Verus does not look inside any of them:
//! the types are opaque, and what is written under `ensures` here is believed,
//! not proved.

use libp2p_core::upgrade::DeniedUpgrade;
use libp2p_core::UpgradeInfo;
use vstd::prelude::*;
use void::Void;

verus! {

/// `void::Void`, the type that has no value. It marks an event that cannot
/// happen.
#[verifier::external_type_specification]
#[verifier::external_body]
pub struct ExVoid(void::Void);

/// `libp2p_core::upgrade::DeniedUpgrade`, the upgrade that supports no
/// protocol.
#[verifier::external_type_specification]
#[verifier::external_body]
pub struct ExDeniedUpgrade(libp2p_core::upgrade::DeniedUpgrade);

/// `libp2p_core::upgrade::NegotiationError`, the reason a protocol
/// negotiation failed.
#[verifier::external_type_specification]
#[verifier::external_body]
pub struct ExNegotiationError(libp2p_core::upgrade::NegotiationError);

/// `libp2p_identity::PeerId`, the identifier of a peer.
#[verifier::external_type_specification]
#[verifier::external_body]
pub struct ExPeerId(libp2p_identity::PeerId);

/// `libp2p_core::Multiaddr`, a network address.
#[verifier::external_type_specification]
#[verifier::external_body]
pub struct ExMultiaddr(libp2p_core::Multiaddr);

/// `libp2p_core::ConnectedPoint`, the two ends of an established connection
/// and which of them dialed.
#[verifier::external_type_specification]
#[verifier::external_body]
pub struct ExConnectedPoint(libp2p_core::ConnectedPoint);

/// `libp2p_core::transport::ListenerId`, the identifier of a listener.
#[verifier::external_type_specification]
#[verifier::external_body]
pub struct ExListenerId(libp2p_core::transport::ListenerId);

/// `std::task::Context`, which carries the waker of the task that polls.
#[verifier::external_type_specification]
#[verifier::external_body]
pub struct ExContext<'a>(std::task::Context<'a>);

/// Calls `void::unreachable`, which matches on a value of a type that has
/// none. Nothing is claimed of the call: it has no result, and no `Void`
/// exists to call it with.
#[verifier::external_body]
pub(crate) fn absurd(event: Void) {
    void::unreachable(event)
}

/// Makes a `DeniedUpgrade`, a struct without fields. Nothing is claimed of
/// the value.
#[verifier::external_body]
pub(crate) fn denied_upgrade() -> DeniedUpgrade {
    DeniedUpgrade
}

/// Calls `UpgradeInfo::protocol_info` on a `DeniedUpgrade` and hands out each
/// name as the bytes it is made of. Claimed: there is no name. The method
/// returns `std::iter::empty()`.
#[verifier::external_body]
pub(crate) fn denied_protocol_info(upgrade: &DeniedUpgrade) -> (names: Vec<Vec<u8>>)
    ensures
        names@.len() == 0,
{
    UpgradeInfo::protocol_info(upgrade).map(Vec::from).collect()
}

} // verus!
