use libp2p_core::upgrade::NegotiationError;
use libp2p_core::Multiaddr;
use std::task::{Context, Waker};
use swarm::handler::{
    AddressChange, ConnectionEvent, ConnectionHandler, ConnectionHandlerEvent,
    ConnectionHandlerUpgrErr, KeepAlive, SubstreamProtocol,
};
use swarm::task::Poll;
use swarm::upgrade::{InboundUpgradeSend, OutboundUpgradeSend, UpgradeError, UpgradeInfoSend};

/// An upgrade that offers two names and yields the name agreed on.
struct Echo;

impl UpgradeInfoSend for Echo {
    fn protocol_info(&self) -> Vec<Vec<u8>> {
        vec![b"/echo/2.0.0".to_vec(), b"/echo/1.0.0".to_vec()]
    }
}

impl InboundUpgradeSend for Echo {
    type Output = String;
    type Error = u8;
}

impl OutboundUpgradeSend for Echo {
    type Output = String;
    type Error = u8;
}

type Event = ConnectionEvent<Echo, Echo, u16, u32>;

/// A handler that asks for one substream per event of the behaviour and
/// tells the behaviour the data that came back with each outcome: as it was
/// on success, raised by 1000 on failure.
struct Asking {
    requested: Vec<u32>,
    pending: usize,
    answered: Vec<u32>,
}

impl ConnectionHandler for Asking {
    type InEvent = u32;
    type OutEvent = u32;
    type InboundProtocol = Echo;
    type OutboundProtocol = Echo;
    type InboundOpenInfo = u16;
    type OutboundOpenInfo = u32;

    fn listen_protocol(&self) -> SubstreamProtocol<Echo, u16> {
        SubstreamProtocol::new(Echo, 16)
    }

    fn on_behaviour_event(&mut self, event: u32) {
        self.requested.push(event);
    }

    fn connection_keep_alive(&self) -> KeepAlive {
        if self.pending > 0 || !self.requested.is_empty() {
            KeepAlive::Yes
        } else {
            KeepAlive::No
        }
    }

    fn poll(&mut self, _: &mut Context<'_>) -> Poll<ConnectionHandlerEvent<Echo, u32, u32>> {
        if let Some(answer) = self.answered.pop() {
            return Poll::Ready(ConnectionHandlerEvent::Custom(answer));
        }
        match self.requested.pop() {
            Some(info) => {
                self.pending += 1;
                Poll::Ready(ConnectionHandlerEvent::OutboundSubstreamRequest {
                    protocol: SubstreamProtocol::new(Echo, info),
                })
            }
            None => Poll::Pending,
        }
    }

    fn on_connection_event(&mut self, event: Event) {
        match event {
            ConnectionEvent::FullyNegotiatedOutbound(negotiated) => {
                self.pending -= 1;
                self.answered.push(negotiated.info);
            }
            ConnectionEvent::DialUpgradeError(failed) => {
                self.pending -= 1;
                self.answered.push(failed.info + 1000);
            }
            ConnectionEvent::FullyNegotiatedInbound(_)
            | ConnectionEvent::ListenUpgradeError(_)
            | ConnectionEvent::AddressChange(_) => {}
        }
    }
}

fn request_of(out: Poll<ConnectionHandlerEvent<Echo, u32, u32>>) -> SubstreamProtocol<Echo, u32> {
    match out {
        Poll::Ready(ConnectionHandlerEvent::OutboundSubstreamRequest { protocol }) => protocol,
        _ => panic!("the handler asked for no substream"),
    }
}

fn answer_of(out: Poll<ConnectionHandlerEvent<Echo, u32, u32>>) -> u32 {
    match out {
        Poll::Ready(ConnectionHandlerEvent::Custom(answer)) => answer,
        _ => panic!("the handler had no event for the behaviour"),
    }
}

#[test]
fn keep_alive_is_yes_only_for_yes() {
    assert!(KeepAlive::Yes.is_yes());
    assert!(!KeepAlive::No.is_yes());
    assert!(!KeepAlive::Until(0).is_yes());
    assert!(!KeepAlive::Until(u64::MAX).is_yes());
}

#[test]
fn keep_alive_yes_never_expires() {
    assert!(!KeepAlive::Yes.is_expired(0));
    assert!(!KeepAlive::Yes.is_expired(u64::MAX));
}

#[test]
fn keep_alive_no_is_always_expired() {
    assert!(KeepAlive::No.is_expired(0));
    assert!(KeepAlive::No.is_expired(u64::MAX));
}

#[test]
fn keep_alive_until_expires_at_its_deadline() {
    assert!(!KeepAlive::Until(100).is_expired(0));
    assert!(!KeepAlive::Until(100).is_expired(99));
    assert!(KeepAlive::Until(100).is_expired(100));
    assert!(KeepAlive::Until(100).is_expired(101));
    assert!(KeepAlive::Until(0).is_expired(0));
    assert!(!KeepAlive::Until(u64::MAX).is_expired(u64::MAX - 1));
    assert!(KeepAlive::Until(u64::MAX).is_expired(u64::MAX));
}

#[test]
fn keep_alive_max_is_the_longer_verdict() {
    assert_eq!(KeepAlive::Yes.max(KeepAlive::No), KeepAlive::Yes);
    assert_eq!(KeepAlive::No.max(KeepAlive::Yes), KeepAlive::Yes);
    assert_eq!(KeepAlive::Yes.max(KeepAlive::Yes), KeepAlive::Yes);
    assert_eq!(KeepAlive::No.max(KeepAlive::No), KeepAlive::No);
    assert_eq!(KeepAlive::Yes.max(KeepAlive::Until(7)), KeepAlive::Yes);
    assert_eq!(KeepAlive::Until(7).max(KeepAlive::Yes), KeepAlive::Yes);
    assert_eq!(KeepAlive::No.max(KeepAlive::Until(7)), KeepAlive::Until(7));
    assert_eq!(KeepAlive::Until(7).max(KeepAlive::No), KeepAlive::Until(7));
    assert_eq!(KeepAlive::Until(5).max(KeepAlive::Until(9)), KeepAlive::Until(9));
    assert_eq!(KeepAlive::Until(9).max(KeepAlive::Until(5)), KeepAlive::Until(9));
    assert_eq!(KeepAlive::Until(5).max(KeepAlive::Until(5)), KeepAlive::Until(5));
}

#[test]
fn shared_connection_expires_when_both_verdicts_do() {
    let verdicts = vec![
        KeepAlive::Yes,
        KeepAlive::No,
        KeepAlive::Until(0),
        KeepAlive::Until(10),
        KeepAlive::Until(20),
        KeepAlive::Until(u64::MAX),
    ];
    let clock: Vec<u64> = vec![0, 9, 10, 11, 19, 20, 21, u64::MAX];
    for left in &verdicts {
        for right in &verdicts {
            assert_eq!(left.max(*right), right.max(*left));
            for now in &clock {
                assert_eq!(
                    left.max(*right).is_expired(*now),
                    left.is_expired(*now) && right.is_expired(*now)
                );
            }
        }
    }
}

#[test]
fn substream_protocol_keeps_its_parts() {
    let protocol = SubstreamProtocol::new(String::from("/echo/1.0.0"), 42u32);
    assert_eq!(protocol.upgrade(), "/echo/1.0.0");
    assert_eq!(*protocol.info(), 42);
    let (upgrade, info) = protocol.into_upgrade();
    assert_eq!(upgrade, "/echo/1.0.0");
    assert_eq!(info, 42);
}

#[test]
fn outbound_success_returns_the_open_info() {
    let request = SubstreamProtocol::new(Echo, 7u32);
    let (_, info) = request.into_upgrade();
    let event: Event = ConnectionEvent::from_outbound(info, Ok(String::from("/echo/2.0.0")));
    match event {
        ConnectionEvent::FullyNegotiatedOutbound(negotiated) => {
            assert_eq!(negotiated.info, 7);
            assert_eq!(negotiated.protocol, "/echo/2.0.0");
        }
        _ => panic!("a negotiated outbound substream was expected"),
    }
}

#[test]
fn outbound_failure_returns_the_open_info() {
    let request = SubstreamProtocol::new(Echo, u32::MAX);
    let (_, info) = request.into_upgrade();
    let event: Event = ConnectionEvent::from_outbound(info, Err(ConnectionHandlerUpgrErr::Timeout));
    match event {
        ConnectionEvent::DialUpgradeError(failed) => {
            assert_eq!(failed.info, u32::MAX);
            assert!(matches!(failed.error, ConnectionHandlerUpgrErr::Timeout));
        }
        _ => panic!("a failed outbound substream was expected"),
    }
}

#[test]
fn outbound_failure_keeps_its_reason() {
    let event: Event = ConnectionEvent::from_outbound(
        1,
        Err(ConnectionHandlerUpgrErr::Upgrade(UpgradeError::Apply(9))),
    );
    match event {
        ConnectionEvent::DialUpgradeError(failed) => {
            assert!(matches!(
                failed.error,
                ConnectionHandlerUpgrErr::Upgrade(UpgradeError::Apply(9))
            ));
        }
        _ => panic!("a failed outbound substream was expected"),
    }
    let event: Event = ConnectionEvent::from_outbound(
        1,
        Err(ConnectionHandlerUpgrErr::Upgrade(UpgradeError::Select(NegotiationError::Failed))),
    );
    match event {
        ConnectionEvent::DialUpgradeError(failed) => {
            assert!(matches!(
                failed.error,
                ConnectionHandlerUpgrErr::Upgrade(UpgradeError::Select(NegotiationError::Failed))
            ));
        }
        _ => panic!("a failed outbound substream was expected"),
    }
}

#[test]
fn inbound_success_returns_the_open_info() {
    let offer = SubstreamProtocol::new(Echo, 16u16);
    let (_, info) = offer.into_upgrade();
    let event: Event = ConnectionEvent::from_inbound(info, Ok(String::from("/echo/1.0.0")));
    match event {
        ConnectionEvent::FullyNegotiatedInbound(negotiated) => {
            assert_eq!(negotiated.info, 16);
            assert_eq!(negotiated.protocol, "/echo/1.0.0");
        }
        _ => panic!("a negotiated inbound substream was expected"),
    }
}

#[test]
fn inbound_failure_returns_the_open_info() {
    let event: Event = ConnectionEvent::from_inbound(0, Err(ConnectionHandlerUpgrErr::Timer));
    match event {
        ConnectionEvent::ListenUpgradeError(failed) => {
            assert_eq!(failed.info, 0);
            assert!(matches!(failed.error, ConnectionHandlerUpgrErr::Timer));
        }
        _ => panic!("a failed inbound substream was expected"),
    }
}

#[test]
fn handler_gets_back_what_it_gave_with_each_request() {
    let mut cx = Context::from_waker(Waker::noop());
    let mut handler = Asking { requested: vec![], pending: 0, answered: vec![] };
    assert!(handler.poll(&mut cx).is_pending());
    assert_eq!(handler.connection_keep_alive(), KeepAlive::No);

    handler.on_behaviour_event(7);
    handler.on_behaviour_event(8);
    assert_eq!(handler.connection_keep_alive(), KeepAlive::Yes);

    let second = request_of(handler.poll(&mut cx));
    let first = request_of(handler.poll(&mut cx));
    assert!(handler.poll(&mut cx).is_pending());
    assert_eq!(*second.info(), 8);
    assert_eq!(*first.info(), 7);

    let (_, info) = first.into_upgrade();
    handler.on_connection_event(ConnectionEvent::from_outbound(
        info,
        Ok(String::from("/echo/2.0.0")),
    ));
    assert_eq!(answer_of(handler.poll(&mut cx)), 7);
    assert_eq!(handler.connection_keep_alive(), KeepAlive::Yes);

    let (_, info) = second.into_upgrade();
    handler.on_connection_event(ConnectionEvent::from_outbound(
        info,
        Err(ConnectionHandlerUpgrErr::Timeout),
    ));
    assert_eq!(answer_of(handler.poll(&mut cx)), 1008);
    assert!(handler.poll(&mut cx).is_pending());
    assert_eq!(handler.connection_keep_alive(), KeepAlive::No);
}

#[test]
fn handler_takes_note_of_a_new_address() {
    let mut cx = Context::from_waker(Waker::noop());
    let mut handler = Asking { requested: vec![], pending: 0, answered: vec![] };
    let new_address: Multiaddr = "/ip4/10.0.0.7/tcp/4002".parse().unwrap();
    handler.on_connection_event(ConnectionEvent::AddressChange(AddressChange { new_address }));
    assert!(handler.poll(&mut cx).is_pending());
    assert_eq!(*handler.listen_protocol().info(), 16);
}

#[test]
fn poll_is_ready_or_pending() {
    let ready: Poll<u8> = Poll::Ready(3);
    let pending: Poll<u8> = Poll::Pending;
    assert!(ready.is_ready());
    assert!(!ready.is_pending());
    assert!(pending.is_pending());
    assert!(!pending.is_ready());
}
