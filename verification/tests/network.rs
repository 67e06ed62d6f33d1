use tetcore::kernel::network::{
    BlockRequest, ConnectionState, GossipProtocol, NetworkAddress, NetworkMessage, NetworkMessageType, PeerId, PeerInfo,
    PeerRole, PeerSet, TransportProtocol,
};
use tetcore::kernel::Hash32;

#[test]
fn test_network_message_creation() {
    let message = NetworkMessage::new_block_announce(Hash32::empty(), 1, PeerId::from_bytes([1u8; 32]));

    assert!(matches!(message.message_type, NetworkMessageType::BlockAnnounce));
}

#[test]
fn test_block_request() {
    let request = BlockRequest::new_by_hash(vec![Hash32::empty()]);

    assert_eq!(request.block_hashes.len(), 1);
}

#[test]
fn network_address_renders_endpoint() {
    let addr = NetworkAddress::new_ip("127.0.0.1".to_string(), 30333);
    assert_eq!(addr.to_string(), "127.0.0.1:30333:tcp");
    assert_eq!(TransportProtocol::Tcp.as_str(), "tcp");
}

#[test]
fn peer_id_zero_check() {
    assert!(PeerId::from_bytes([0u8; 32]).is_zero());
    assert!(!PeerId::from_bytes([1u8; 32]).is_zero());
}

#[test]
fn network_test_peer_info_creation() {
    let peer_id = PeerId::from_bytes([1u8; 32]);
    let addr = NetworkAddress::new_ip("127.0.0.1".to_string(), 30333);
    let peer = PeerInfo::new(peer_id, addr);

    assert!(!peer.is_validator());
    assert_eq!(peer.state, ConnectionState::Disconnected);
}

#[test]
fn network_test_peer_set_management() {
    let mut peer_set = PeerSet::new();

    let peer_id = PeerId::from_bytes([1u8; 32]);
    let addr = NetworkAddress::new_ip("127.0.0.1".to_string(), 30333);
    let peer = PeerInfo::new(peer_id, addr);

    peer_set.add_peer(peer);

    assert_eq!(peer_set.len(), 1);
    assert!(peer_set.get_peer(&peer_id).is_some());
}

#[test]
fn test_gossip_broadcast() {
    let mut gossip = GossipProtocol::new();

    let peer_id = PeerId::from_bytes([1u8; 32]);
    let peer = PeerInfo::new(peer_id, NetworkAddress::new_ip("127.0.0.1".to_string(), 30333));
    gossip.add_peer(peer);

    let message = NetworkMessage::new_block_announce(Hash32::empty(), 1, PeerId::from_bytes([2u8; 32]));

    let targets = gossip.broadcast(&message, None);
    assert!(targets.is_empty());
}

#[test]
fn tests_test_peer_info_creation() {
    let peer_id = PeerId::from_bytes([1u8; 32]);
    let addr = NetworkAddress::new_ip("127.0.0.1".to_string(), 30333);
    let peer = PeerInfo::new(peer_id, addr);

    assert!(!peer.is_validator());
}

#[test]
fn tests_test_peer_set_management() {
    let mut peer_set = PeerSet::new();

    let peer_id = PeerId::from_bytes([1u8; 32]);
    let addr = NetworkAddress::new_ip("127.0.0.1".to_string(), 30333);
    let peer = PeerInfo::new(peer_id, addr);

    peer_set.add_peer(peer);

    assert_eq!(peer_set.len(), 1);
}

#[test]
fn test_gossip_protocol_creation() {
    let gossip = GossipProtocol::new();
    assert!(gossip.peer_set.is_empty());
}

#[test]
fn gossip_relays_once_to_connected_peers() {
    let mut gossip = GossipProtocol::new();
    for i in 1..=3u8 {
        let mut peer = PeerInfo::new(PeerId::from_bytes([i; 32]), NetworkAddress::new_ip("h".to_string(), 1));
        peer.state = ConnectionState::Connected;
        gossip.add_peer(peer);
    }
    let message = NetworkMessage::new_block_announce(Hash32::empty(), 7, PeerId::from_bytes([9u8; 32]));
    let excluded = PeerId::from_bytes([2u8; 32]);
    let targets = gossip.broadcast(&message, Some(&excluded));
    assert_eq!(targets.len(), 2);
    assert_eq!(targets[0], PeerId::from_bytes([1u8; 32]));
    assert_eq!(targets[1], PeerId::from_bytes([3u8; 32]));
    assert!(gossip.broadcast(&message, None).is_empty());
    assert!(!gossip.receive_message(&message));
}

#[test]
fn receive_records_sender_and_send_counts() {
    let mut gossip = GossipProtocol::new();
    let sender = PeerId::from_bytes([4u8; 32]);
    let mut peer = PeerInfo::new(sender, NetworkAddress::new_ip("h".to_string(), 1));
    peer.state = ConnectionState::Connected;
    peer.role = PeerRole::Validator;
    gossip.add_peer(peer);
    let message = NetworkMessage::new_block_announce(Hash32::empty(), 1, sender);
    assert!(gossip.receive_message(&message));
    assert!(!gossip.receive_message(&message));
    assert_eq!(gossip.peer_set.get_peer(&sender).unwrap().messages_received, 1);
    assert!(gossip.send_to(&message, &sender));
    assert!(!gossip.send_to(&message, &PeerId::from_bytes([5u8; 32])));
    assert_eq!(gossip.peer_set.validators().len(), 1);
    gossip.peer_set.ban_peer(sender, 10);
    assert!(gossip.peer_set.is_banned(&sender));
    assert!(!gossip.send_to(&message, &sender));
    assert!(gossip.peer_set.unban_peer(&sender));
    assert!(!gossip.peer_set.unban_peer(&sender));
}
