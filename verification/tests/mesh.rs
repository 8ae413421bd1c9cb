use jarvis_kernel::ai::swarm::{test_swarm_logic, SwarmAgent, SwarmMessage};
use jarvis_kernel::net::mesh::{test_mesh_crypto, MeshNode, MeshPacket};

fn paired(a_id: u64, b_id: u64) -> (MeshNode, MeshNode) {
    let mut a = MeshNode::new(a_id);
    let mut b = MeshNode::new(b_id);
    let kb = b.public_key();
    a.add_peer(b_id, kb);
    let ka = a.public_key();
    b.add_peer(a_id, ka);
    (a, b)
}

#[test]
fn test_mesh_crypto_round_trip() {
    assert!(test_mesh_crypto());
}

#[test]
fn test_swarm_logic_single_intent() {
    assert!(test_swarm_logic());
}

#[test]
fn mesh_public_key_is_deterministic_and_not_the_seed() {
    let a = MeshNode::new(7);
    let b = MeshNode::new(7);
    let c = MeshNode::new(8);
    assert_eq!(a.public_key(), b.public_key());
    assert_ne!(a.public_key(), c.public_key());
    let mut seed = [0u8; 32];
    seed[0] = 7;
    assert_ne!(a.public_key(), seed);
}

#[test]
fn mesh_send_to_unknown_peer_is_none() {
    let mut a = MeshNode::new(1);
    assert!(a.send_to(2, b"hi").is_none());
}

#[test]
fn mesh_packet_layout() {
    let (mut a, _b) = paired(10, 20);
    let p0 = a.send_to(20, b"abc").unwrap();
    let p1 = a.send_to(20, b"abc").unwrap();
    assert_eq!(p0.sender_id, 10);
    assert_eq!(p0.nonce, [0, 0, 0, 0, 0, 0, 0, 0, 0, 0, 0, 0]);
    assert_eq!(p1.nonce, [1, 0, 0, 0, 0, 0, 0, 0, 0, 0, 0, 0]);
    assert_eq!(p0.payload.len(), 3 + 16);
    assert_ne!(&p0.payload[..3], b"abc");
    assert_ne!(p0.payload, p1.payload);
}

#[test]
fn mesh_round_trip_both_ways() {
    let (mut a, mut b) = paired(3, 4);
    let p = a.send_to(4, b"ping").unwrap();
    assert_eq!(b.receive_from(p).unwrap(), b"ping".to_vec());
    let q = b.send_to(3, b"pong").unwrap();
    assert_eq!(a.receive_from(q).unwrap(), b"pong".to_vec());
}

#[test]
fn mesh_tampered_packet_is_refused() {
    let (mut a, b) = paired(3, 4);
    let mut p = a.send_to(4, b"secret").unwrap();
    p.payload[0] ^= 1;
    assert!(b.receive_from(p).is_none());
}

#[test]
fn mesh_unknown_sender_and_short_packet_are_refused() {
    let (_a, b) = paired(3, 4);
    let stranger = MeshPacket { sender_id: 99, nonce: [0; 12], payload: vec![0; 20] };
    assert!(b.receive_from(stranger).is_none());
    let short = MeshPacket { sender_id: 3, nonce: [0; 12], payload: vec![0; 5] };
    assert!(b.receive_from(short).is_none());
}

#[test]
fn mesh_readding_a_peer_replaces_it() {
    let mut a = MeshNode::new(1);
    let b = MeshNode::new(2);
    let c = MeshNode::new(3);
    a.add_peer(2, c.public_key());
    a.add_peer(2, b.public_key());
    assert_eq!(a.get_peer_ids(), vec![2]);
    let mut b = b;
    b.add_peer(1, a.public_key());
    let p = a.send_to(2, b"x").unwrap();
    assert_eq!(b.receive_from(p).unwrap(), b"x".to_vec());
}

#[test]
fn swarm_broadcast_counts_peers() {
    let (mut a, _b) = paired(1, 2);
    let c = MeshNode::new(5);
    a.add_peer(5, c.public_key());
    let mut agent = SwarmAgent::new(1);
    assert_eq!(agent.broadcast_intent(&mut a, "lights", 90), 2);
    let mut ids = a.get_peer_ids();
    ids.sort();
    assert_eq!(ids, vec![2, 5]);
    agent.handle_message(2, SwarmMessage::TaskAccepted { intent_id: 1 });
}

#[test]
fn swarm_health_report_uses_one_sequence_number_per_peer() {
    let (mut a, b) = paired(1, 2);
    let c = MeshNode::new(5);
    a.add_peer(5, c.public_key());
    let agent = SwarmAgent::new(1);
    assert_eq!(agent.broadcast_health(&mut a, 42, 4096, 8192, 360), 2);
    let next = a.send_to(2, b"ping").unwrap();
    assert_eq!(next.nonce, [2, 0, 0, 0, 0, 0, 0, 0, 0, 0, 0, 0]);
    assert_eq!(b.receive_from(next), Some(b"ping".to_vec()));
}

#[test]
fn swarm_health_report_without_peers() {
    let mut a = MeshNode::new(9);
    let agent = SwarmAgent::new(9);
    assert_eq!(agent.broadcast_health(&mut a, 0, 0, 0, 0), 0);
    assert_eq!(a.send_to(9, b"x").map(|p| p.sender_id), None);
}
