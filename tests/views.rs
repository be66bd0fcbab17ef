use bonsai_core::stats::{map_peers, NodeStats, PeerConnection, PeerDetailedInfo, PeerSnapshot};
use bonsai_core::transactions::{ChainPlace, WalletTransaction};

fn peer(address: &str, connection: PeerConnection) -> PeerSnapshot {
    PeerSnapshot {
        address: address.to_string(),
        user_agent: "/Satoshi:27.0.0/".to_string(),
        initial_height: 200_000,
        connection,
    }
}

#[test]
fn feelers_are_not_counted_as_inbound() {
    let p = PeerDetailedInfo::from_snapshot(&peer("1.2.3.4:38333", PeerConnection::Feeler));
    assert!(!p.is_inbound);
    let q = PeerDetailedInfo::from_snapshot(&peer("1.2.3.4:38333", PeerConnection::Regular));
    assert!(q.is_inbound);
    assert_eq!(q.address, "1.2.3.4:38333");
    assert_eq!(q.user_agent, "/Satoshi:27.0.0/");
    assert_eq!(q.height, 200_000);
}

#[test]
fn peers_map_in_order() {
    let peers = vec![
        peer("a:1", PeerConnection::Manual),
        peer("b:2", PeerConnection::Feeler),
        peer("c:3", PeerConnection::Extra),
    ];
    let mapped = map_peers(&peers);
    assert_eq!(mapped.len(), 3);
    assert_eq!(mapped[0].address, "a:1");
    assert!(mapped[0].is_inbound);
    assert!(!mapped[1].is_inbound);
    assert!(mapped[2].is_inbound);
}

#[test]
fn stats_carry_every_field() {
    let peers = vec![peer("a:1", PeerConnection::Regular), peer("b:2", PeerConnection::Feeler)];
    let s = NodeStats::from_snapshot(true, 1000, 900, "/floresta:0.7/".to_string(), 42, &peers);
    assert!(s.in_ibd);
    assert_eq!(s.headers, 1000);
    assert_eq!(s.blocks, 900);
    assert_eq!(s.user_agent, "/floresta:0.7/");
    assert_eq!(s.uptime_secs, 42);
    assert_eq!(s.peers_count, 2);
    assert_eq!(s.peers.len(), 2);
}

#[test]
fn stats_without_peers() {
    let s = NodeStats::from_snapshot(false, 0, 0, String::new(), 0, &Vec::new());
    assert_eq!(s.peers_count, 0);
    assert!(s.peers.is_empty());
}

#[test]
fn confirmed_transaction_has_height_and_no_timestamp() {
    let t = WalletTransaction::from_parts("ab".to_string(), 5, 7, Some(1), ChainPlace::Confirmed { height: 12 });
    assert!(t.is_confirmed);
    assert_eq!(t.confirmation_height, Some(12));
    assert_eq!(t.timestamp, None);
    assert_eq!(t.sent, 5);
    assert_eq!(t.received, 7);
    assert_eq!(t.fee, Some(1));
    let info = t.to_info();
    assert_eq!(info.txid, "ab");
    assert_eq!(info.confirmation_height, Some(12));
}

#[test]
fn unconfirmed_transaction_has_timestamp_and_no_height() {
    let t = WalletTransaction::from_parts(
        "cd".to_string(),
        0,
        3,
        None,
        ChainPlace::Unconfirmed { last_seen: Some(1_700_000_000) },
    );
    assert!(!t.is_confirmed);
    assert_eq!(t.confirmation_height, None);
    assert_eq!(t.timestamp, Some(1_700_000_000));
    assert_eq!(t.fee, None);
}
