use hylarana::discovery::{DiscoveryState, PingOutcome, OFFLINE_AFTER_NANOS};
use hylarana::net::IpAddress;

const SECOND: u64 = 1_000_000_000;

fn ip(last: u8) -> IpAddress {
    IpAddress::V4(u32::from_be_bytes([192, 168, 1, last]))
}

#[test]
fn new_registry_has_a_random_v4_identity() {
    let a = DiscoveryState::new();
    let b = DiscoveryState::new();
    let id = a.local_id();
    assert_eq!(id.len(), 36);
    for (i, c) in id.chars().enumerate() {
        if [8, 13, 18, 23].contains(&i) {
            assert_eq!(c, '-');
        } else {
            assert!(c.is_ascii_hexdigit() && !c.is_ascii_uppercase());
        }
    }
    assert_eq!(id.chars().nth(14), Some('4'));
    assert!(matches!(id.chars().nth(19), Some('8' | '9' | 'a' | 'b')));
    assert_ne!(a.local_id(), b.local_id());
    assert_eq!(a.sequence(), 0);
    assert!(a.metadata().is_none());
}

#[test]
fn metadata_bumps_the_sequence() {
    let mut s = DiscoveryState::from_local_id("me".to_string());
    assert_eq!(s.ping().id, "me");
    assert_eq!(s.ping().sequence, 0);
    s.set_metadata(vec![1, 2, 3]);
    assert_eq!(s.sequence(), 1);
    assert_eq!(s.metadata(), Some(&vec![1, 2, 3]));
    s.set_metadata(vec![4]);
    assert_eq!(s.ping().sequence, 2);
    assert_eq!(s.metadata(), Some(&vec![4]));
    assert_eq!(s.local_id(), "me");
}

#[test]
fn own_ping_is_ignored() {
    let mut s = DiscoveryState::from_local_id("me".to_string());
    assert_eq!(s.on_ping("me", 5, ip(2), 0), PingOutcome::FromSelf);
    assert!(s.on_tick(100 * SECOND).is_empty());
}

#[test]
fn peer_comes_online_once() {
    let mut s = DiscoveryState::from_local_id("me".to_string());
    assert_eq!(s.on_ping("peer", 0, ip(2), 0), PingOutcome::Online);
    assert_eq!(s.on_ping("peer", 0, ip(2), SECOND), PingOutcome::Refreshed);
    assert_eq!(s.on_ping("peer", 1, ip(2), 2 * SECOND), PingOutcome::MetadataChanged);
    assert_eq!(s.on_ping("peer", 1, ip(3), 3 * SECOND), PingOutcome::Refreshed);
}

#[test]
fn stale_peers_go_offline_once_with_their_first_address() {
    let mut s = DiscoveryState::from_local_id("me".to_string());
    s.on_ping("old", 0, ip(2), 0);
    s.on_ping("new", 0, ip(3), 2 * SECOND);
    s.on_ping("old", 0, ip(9), SECOND);
    let gone = s.on_tick(SECOND + OFFLINE_AFTER_NANOS);
    assert_eq!(gone.len(), 1);
    assert_eq!(gone[0].id, "old");
    assert_eq!(gone[0].ip, ip(2));
    assert!(s.on_tick(SECOND + OFFLINE_AFTER_NANOS).is_empty());
    // The recent peer survives; once gone, the old one comes online again.
    assert_eq!(s.on_ping("new", 0, ip(3), 4 * SECOND), PingOutcome::Refreshed);
    assert_eq!(s.on_ping("old", 0, ip(2), 4 * SECOND), PingOutcome::Online);
}

#[test]
fn tick_just_before_the_delay_keeps_the_peer() {
    let mut s = DiscoveryState::from_local_id("me".to_string());
    s.on_ping("peer", 0, ip(2), 10 * SECOND);
    assert!(s.on_tick(10 * SECOND + OFFLINE_AFTER_NANOS - 1).is_empty());
    // A clock reading earlier than the last ping counts no time at all.
    assert!(s.on_tick(0).is_empty());
    assert_eq!(s.on_tick(10 * SECOND + OFFLINE_AFTER_NANOS).len(), 1);
}

#[test]
fn new_metadata_is_fetched_again() {
    let mut ours = DiscoveryState::from_local_id("ours".to_string());
    let mut peer = DiscoveryState::from_local_id("peer".to_string());
    let ping = ours.ping();
    assert_eq!(peer.on_ping(&ping.id, ping.sequence, ip(2), 0), PingOutcome::Online);
    let ping = ours.ping();
    assert_eq!(peer.on_ping(&ping.id, ping.sequence, ip(2), SECOND), PingOutcome::Refreshed);
    ours.set_metadata(b"{}".to_vec());
    let ping = ours.ping();
    assert_eq!(peer.on_ping(&ping.id, ping.sequence, ip(2), 2 * SECOND), PingOutcome::MetadataChanged);
}
