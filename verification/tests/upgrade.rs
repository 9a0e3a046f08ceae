use libp2p_core::upgrade::DeniedUpgrade;
use libp2p_core::UpgradeInfo;
use swarm::upgrade::{is_listed, offers, UpgradeInfoSend};

/// An upgrade that offers two names.
struct Echo;

impl UpgradeInfoSend for Echo {
    fn protocol_info(&self) -> Vec<Vec<u8>> {
        vec![b"/echo/2.0.0".to_vec(), b"/echo/1.0.0".to_vec()]
    }
}

/// An upgrade that offers the empty name only.
struct Nameless;

impl UpgradeInfoSend for Nameless {
    fn protocol_info(&self) -> Vec<Vec<u8>> {
        vec![Vec::new()]
    }
}

#[test]
fn denied_upgrade_lists_no_protocol() {
    assert_eq!(UpgradeInfoSend::protocol_info(&DeniedUpgrade), Vec::<Vec<u8>>::new());
    assert_eq!(UpgradeInfo::protocol_info(&DeniedUpgrade).count(), 0);
}

#[test]
fn denied_upgrade_offers_no_name() {
    assert!(!offers(&DeniedUpgrade, b"/echo/1.0.0"));
    assert!(!offers(&DeniedUpgrade, b""));
}

#[test]
fn offers_each_listed_name() {
    assert!(offers(&Echo, b"/echo/2.0.0"));
    assert!(offers(&Echo, b"/echo/1.0.0"));
}

#[test]
fn offers_no_other_name() {
    assert!(!offers(&Echo, b"/echo/3.0.0"));
    assert!(!offers(&Echo, b"/echo/1.0."));
    assert!(!offers(&Echo, b"/echo/1.0.00"));
    assert!(!offers(&Echo, b"/ECHO/1.0.0"));
    assert!(!offers(&Echo, b""));
}

#[test]
fn offers_the_empty_name_when_listed() {
    assert!(offers(&Nameless, b""));
    assert!(!offers(&Nameless, b"/"));
}

#[test]
fn is_listed_finds_each_name_of_the_list() {
    let names = vec![b"/a".to_vec(), b"/b/1".to_vec(), Vec::new()];
    assert!(is_listed(&names, b"/a"));
    assert!(is_listed(&names, b"/b/1"));
    assert!(is_listed(&names, b""));
}

#[test]
fn is_listed_finds_no_other_name() {
    let names = vec![b"/a".to_vec(), b"/b/1".to_vec()];
    assert!(!is_listed(&names, b"/b"));
    assert!(!is_listed(&names, b"/a/"));
    assert!(!is_listed(&names, b"a"));
    assert!(!is_listed(&names, b""));
    assert!(!is_listed(&Vec::new(), b"/a"));
    assert!(!is_listed(&Vec::new(), b""));
}
