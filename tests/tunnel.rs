use vx0net_daemon::addr::{IpAddress, SocketAddress};
use vx0net_daemon::config::create_test_config;
use vx0net_daemon::crypto::{EncryptionAlgorithm, HashAlgorithm, IKECrypto, IKEError, kdf, rand_bytes};
use vx0net_daemon::ike::{IKESession, IKEState, negotiate};
use vx0net_daemon::node::{NodeError, Vx0Node};
use vx0net_daemon::tier::NodeTier;
use vx0net_daemon::tunnels::{TunnelManager, TunnelStatus};

fn endpoint(port: u16) -> SocketAddress {
    SocketAddress { ip: IpAddress::v4(10, 0, 0, 2), port }
}

fn established_pair(psk_a: &[u8], psk_b: &[u8]) -> (IKESession, IKESession, Result<(), IKEError>) {
    let mut a = IKESession::new(endpoint(500), 19).unwrap();
    let mut b = IKESession::new(endpoint(500), 19).unwrap();
    let r = negotiate(&mut a, &mut b, &psk_a.to_vec(), &psk_b.to_vec());
    (a, b, r)
}

#[test]
fn aead_round_trip_and_tamper() {
    let crypto = IKECrypto::new();
    let key = vec![7u8; 32];
    let nonce = vec![1u8; 12];
    let sealed = crypto.encrypt(&key, b"hello", &nonce).unwrap();
    assert_eq!(sealed.len(), 5 + 16);
    assert_ne!(&sealed[..5], b"hello");
    assert_eq!(crypto.decrypt(&key, &sealed, &nonce).unwrap(), b"hello".to_vec());
    let mut flipped = sealed.clone();
    flipped[0] ^= 1;
    assert!(matches!(crypto.decrypt(&key, &flipped, &nonce), Err(IKEError::Crypto(_))));
    assert!(crypto.decrypt(&vec![8u8; 32], &sealed, &nonce).is_err());
}

#[test]
fn aead_argument_checks() {
    let crypto = IKECrypto::new();
    assert!(matches!(crypto.encrypt(&vec![0u8; 16], b"x", &vec![0u8; 12]), Err(IKEError::Crypto(_))));
    assert!(matches!(crypto.encrypt(&vec![0u8; 32], b"x", &vec![0u8; 8]), Err(IKEError::Crypto(_))));
    let aes128 = IKECrypto { encryption_algorithm: EncryptionAlgorithm::AES128, ..IKECrypto::new() };
    assert!(matches!(aes128.encrypt(&vec![0u8; 32], b"x", &vec![0u8; 12]), Err(IKEError::Crypto(_))));
}

#[test]
fn chacha_round_trip() {
    let crypto = IKECrypto { encryption_algorithm: EncryptionAlgorithm::ChaCha20Poly1305, ..IKECrypto::new() };
    let key = vec![3u8; 32];
    let nonce = vec![9u8; 12];
    let sealed = crypto.encrypt(&key, b"overlay", &nonce).unwrap();
    assert_eq!(crypto.decrypt(&key, &sealed, &nonce).unwrap(), b"overlay".to_vec());
    let aes = IKECrypto::new();
    assert_ne!(aes.encrypt(&key, b"overlay", &nonce).unwrap(), sealed);
}

#[test]
fn hmac_sign_and_verify() {
    let crypto = IKECrypto::new();
    let tag = crypto.hmac_sign(b"key", b"data").unwrap();
    assert_eq!(tag.len(), 32);
    assert!(crypto.hmac_verify(b"key", b"data", &tag).unwrap());
    assert!(!crypto.hmac_verify(b"key", b"datA", &tag).unwrap());
    let sha512 = IKECrypto { hash_algorithm: HashAlgorithm::SHA512, ..IKECrypto::new() };
    assert_eq!(sha512.hmac_sign(b"key", b"data").unwrap().len(), 64);
}

#[test]
fn key_derivation_is_deterministic_per_label() {
    let a = kdf(b"secret", b"enc").unwrap();
    assert_eq!(a.len(), 32);
    assert_eq!(a, kdf(b"secret", b"enc").unwrap());
    assert_ne!(a, kdf(b"secret", b"auth").unwrap());
    assert_ne!(a, b"secret".to_vec());
    assert_eq!(rand_bytes(17).unwrap().len(), 17);
}

#[test]
fn key_agreement_with_matching_psk() {
    let (a, b, r) = established_pair(b"shared", b"shared");
    assert!(r.is_ok());
    assert_eq!(a.state, IKEState::Established);
    assert_eq!(b.state, IKEState::Established);
    assert_eq!(a.shared_secret, b.shared_secret);
    assert_eq!(a.encryption_key, b.encryption_key);
    assert_ne!(a.encryption_key, a.authentication_key);
    assert_eq!(a.remote_spi, b.local_spi);
    assert_eq!(b.remote_spi, a.local_spi);
}

#[test]
fn key_agreement_with_wrong_psk_fails() {
    let (_a, b, r) = established_pair(b"shared", b"other");
    assert!(matches!(r, Err(IKEError::AuthenticationFailed)));
    assert_eq!(b.state, IKEState::Deleted);
}

#[test]
fn tunnel_round_trip() {
    let (a, b, r) = established_pair(b"psk", b"psk");
    r.unwrap();
    let mut left = TunnelManager::new();
    let mut right = TunnelManager::new();
    let id_l = left.create_tunnel(IpAddress::v4(10, 0, 0, 1), IpAddress::v4(10, 0, 0, 2), a).unwrap();
    let id_r = right.create_tunnel(IpAddress::v4(10, 0, 0, 2), IpAddress::v4(10, 0, 0, 1), b).unwrap();
    let wire = left.send_packet(id_l, b"hello").unwrap();
    assert_eq!(right.receive_packet(id_r, &wire).unwrap(), b"hello".to_vec());
    let stats = left.get_tunnel_stats(id_l).unwrap();
    assert_eq!(stats.packets_out, 1);
    assert_eq!(stats.bytes_out, 12 + 5 + 16);
    assert_eq!(wire.len(), 12 + 5 + 16);
    assert_eq!(right.get_tunnel_stats(id_r).unwrap().packets_in, 1);
    assert_eq!(right.get_tunnel_stats(id_r).unwrap().bytes_in, wire.len() as u64);
    // replies flow the other way under different nonces
    let reply = right.send_packet(id_r, b"hi").unwrap();
    assert_ne!(reply[0], wire[0]);
    assert_eq!(left.receive_packet(id_l, &reply).unwrap(), b"hi".to_vec());
    // consecutive packets never reuse a nonce
    let second = left.send_packet(id_l, b"hello").unwrap();
    assert_ne!(&second[..12], &wire[..12]);
}

#[test]
fn tunnel_rejects_flipped_byte_without_counting() {
    let (a, b, r) = established_pair(b"psk", b"psk");
    r.unwrap();
    let mut left = TunnelManager::new();
    let mut right = TunnelManager::new();
    let id_l = left.create_tunnel(IpAddress::v4(10, 0, 0, 1), IpAddress::v4(10, 0, 0, 2), a).unwrap();
    let id_r = right.create_tunnel(IpAddress::v4(10, 0, 0, 2), IpAddress::v4(10, 0, 0, 1), b).unwrap();
    let mut wire = left.send_packet(id_l, b"hello").unwrap();
    let last = wire.len() - 1;
    wire[last] ^= 0x01;
    assert!(matches!(right.receive_packet(id_r, &wire), Err(IKEError::AuthenticationFailed)));
    assert_eq!(right.get_tunnel_stats(id_r).unwrap().packets_in, 0);
    assert_eq!(right.get_tunnel(id_r).unwrap().status, TunnelStatus::Established);
    assert!(matches!(right.receive_packet(id_r, &[1, 2, 3]), Err(IKEError::Crypto(_))));
}

#[test]
fn tunnel_lifecycle() {
    let (a, _b, r) = established_pair(b"psk", b"psk");
    r.unwrap();
    let mut m = TunnelManager::new();
    let id = m.create_tunnel(IpAddress::v4(10, 0, 0, 1), IpAddress::v4(10, 0, 0, 2), a).unwrap();
    assert_eq!(m.list_tunnels(), vec![id]);
    assert!(matches!(m.send_packet(id.wrapping_add(1), b"x"), Err(IKEError::Protocol(_))));
    m.mark_failed(id);
    assert!(matches!(m.send_packet(id, b"x"), Err(IKEError::Protocol(_))));
    m.cleanup_failed_tunnels();
    assert!(m.get_tunnel(id).is_none());
    assert!(m.close_tunnel(id).is_ok());
}

#[test]
fn unestablished_session_cannot_carry_a_tunnel() {
    let s = IKESession::new(endpoint(500), 19).unwrap();
    let mut m = TunnelManager::new();
    assert!(matches!(m.create_tunnel(IpAddress::v4(1, 1, 1, 1), IpAddress::v4(2, 2, 2, 2), s), Err(IKEError::Protocol(_))));
}

#[test]
fn tunnel_rekey_installs_new_keys() {
    let (a, b, r) = established_pair(b"psk", b"psk");
    r.unwrap();
    let old_key = a.encryption_key.clone();
    let mut left = TunnelManager::new();
    let mut right = TunnelManager::new();
    let id_l = left.create_tunnel(IpAddress::v4(10, 0, 0, 1), IpAddress::v4(10, 0, 0, 2), a).unwrap();
    let id_r = right.create_tunnel(IpAddress::v4(10, 0, 0, 2), IpAddress::v4(10, 0, 0, 1), b).unwrap();
    left.send_packet(id_l, b"before").unwrap();
    let request = left.rekey_tunnel(id_l).unwrap();
    assert_eq!(left.get_tunnel(id_l).unwrap().status, TunnelStatus::Rekeying);
    assert!(left.send_packet(id_l, b"during").is_err());
    let response = right.answer_rekey(id_r, &request).unwrap();
    left.finish_rekey(id_l, &response).unwrap();
    let t = left.get_tunnel(id_l).unwrap();
    assert_eq!(t.status, TunnelStatus::Established);
    assert_eq!(t.next_nonce, 0);
    assert_ne!(t.ike_session.encryption_key, old_key);
    let wire = left.send_packet(id_l, b"after").unwrap();
    assert_eq!(right.receive_packet(id_r, &wire).unwrap(), b"after".to_vec());
}

#[test]
fn node_keeps_one_tunnel_per_peer() {
    let config = create_test_config("r1", 65101, "10.0.0.5", NodeTier::Regional);
    let mut n = Vx0Node::new(config, Some(0x0a000005), Some(1)).unwrap();
    assert!(matches!(n.send_secure_data(42, b"x"), Err(NodeError::IKE(_))));
    let (a, _b, r) = established_pair(b"psk", b"psk");
    r.unwrap();
    let tid = n.create_secure_tunnel(42, IpAddress::v4(10, 0, 0, 9), a).unwrap();
    assert_eq!(n.list_active_tunnels(), vec![(42, tid)]);
    assert!(n.send_secure_data(42, b"hello").is_ok());
    assert_eq!(n.get_tunnel_stats(42).unwrap().packets_out, 1);
    assert_eq!(n.tunnel_health_check().unwrap(), vec![(42, true)]);
    n.close_tunnel(42).unwrap();
    assert!(n.list_active_tunnels().is_empty());
    assert!(n.get_tunnel_stats(42).is_none());
}

#[test]
fn only_the_x25519_group_is_offered() {
    assert!(matches!(IKESession::new(endpoint(500), 14), Err(IKEError::Configuration(_))));
    assert!(matches!(IKESession::new(endpoint(500), 20), Err(IKEError::Configuration(_))));
    assert_eq!(IKECrypto::new().dh_group, vx0net_daemon::crypto::DHGroup::Group19);
}

#[test]
fn session_payload_sealing_needs_established_session() {
    let (a, _b, r) = established_pair(b"psk", b"psk");
    r.unwrap();
    let nonce = vec![0u8; 12];
    let c = a.encrypt_payload(&nonce, b"data").unwrap();
    assert_eq!(a.decrypt_payload(&nonce, &c).unwrap(), b"data".to_vec());
    let fresh = IKESession::new(endpoint(500), 19).unwrap();
    assert!(matches!(fresh.encrypt_payload(&nonce, b"data"), Err(IKEError::Protocol(_))));
}
