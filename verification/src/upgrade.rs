//! What an upgrade puts on offer. Negotiating and running a protocol on a
//! substream is the transport's work; this module only answers which names
//! the negotiation could end on.

use crate::foreign::denied_protocol_info;
use libp2p_core::upgrade::{DeniedUpgrade, NegotiationError};
use vstd::prelude::*;
use void::Void;

verus! {

/// The names in a list, each as the bytes it is made of.
pub open spec fn names_of(list: Seq<Vec<u8>>) -> Seq<Seq<u8>> {
    Seq::new(list.len(), |i: int| list[i]@)
}

/// The names under which an upgrade can be negotiated.
pub trait UpgradeInfoSend {
    /// Whether `names` can be what the upgrade lists, most preferred first.
    /// An upgrade that does not say leaves every list possible.
    open spec fn lists(&self, names: Seq<Seq<u8>>) -> bool {
        true
    }

    /// Lists the protocol names on offer.
    fn protocol_info(&self) -> (names: Vec<Vec<u8>>)
        ensures
            self.lists(names_of(names@)),
    ;
}

/// An upgrade for substreams that the remote opens.
pub trait InboundUpgradeSend: UpgradeInfoSend {
    /// What a successful upgrade yields.
    type Output;

    /// Why the handshake after a successful negotiation can fail.
    type Error;
}

/// An upgrade for substreams that the local node opens.
pub trait OutboundUpgradeSend: UpgradeInfoSend {
    /// What a successful upgrade yields.
    type Output;

    /// Why the handshake after a successful negotiation can fail.
    type Error;
}

/// Why an upgrade failed.
pub enum UpgradeError<E> {
    /// No protocol could be agreed on.
    Select(NegotiationError),
    /// A protocol was agreed on, and the handshake that followed failed.
    Apply(E),
}

impl UpgradeInfoSend for DeniedUpgrade {
    /// A denied upgrade lists nothing.
    open spec fn lists(&self, names: Seq<Seq<u8>>) -> bool {
        names.len() == 0
    }

    fn protocol_info(&self) -> (names: Vec<Vec<u8>>) {
        denied_protocol_info(self)
    }
}

impl InboundUpgradeSend for DeniedUpgrade {
    type Output = Void;

    type Error = Void;
}

impl OutboundUpgradeSend for DeniedUpgrade {
    type Output = Void;

    type Error = Void;
}

/// Whether two names are the same bytes.
fn same_name(left: &Vec<u8>, right: &[u8]) -> (same: bool)
    ensures
        same == (left@ == right@),
{
    if left.len() != right.len() {
        return false;
    }
    let mut at: usize = 0;
    while at < left.len()
        invariant
            at <= left@.len(),
            left@.len() == right@.len(),
            forall|k: int| 0 <= k < at ==> left@[k] == right@[k],
        decreases left@.len() - at,
    {
        if left[at] != right[at] {
            return false;
        }
        at += 1;
    }
    assert(left@ =~= right@);
    true
}

/// Whether `name` is one of `names`.
pub fn is_listed(names: &Vec<Vec<u8>>, name: &[u8]) -> (listed: bool)
    ensures
        listed == names_of(names@).contains(name@),
{
    let mut at: usize = 0;
    while at < names.len()
        invariant
            at <= names@.len(),
            forall|k: int| 0 <= k < at ==> names_of(names@)[k] != name@,
        decreases names@.len() - at,
    {
        if same_name(&names[at], name) {
            assert(names_of(names@)[at as int] == name@);
            return true;
        }
        at += 1;
    }
    false
}

/// Whether `upgrade` offers the protocol `name`: whether the name is in the
/// list that the upgrade gives when asked. A negotiation can only end on a
/// name for which this holds.
pub fn offers<U: UpgradeInfoSend>(upgrade: &U, name: &[u8]) -> (offered: bool)
    ensures
        exists|names: Seq<Seq<u8>>| #[trigger]
            upgrade.lists(names) && offered == names.contains(name@),
{
    let names = upgrade.protocol_info();
    is_listed(&names, name)
}

/// A denied upgrade offers no protocol: whatever it lists holds no name, so
/// no negotiation against it can end on one.
pub proof fn lemma_denied_offers_nothing(upgrade: DeniedUpgrade, names: Seq<Seq<u8>>, name: Seq<u8>)
    requires
        upgrade.lists(names),
    ensures
        !names.contains(name),
{
}

} // verus!
