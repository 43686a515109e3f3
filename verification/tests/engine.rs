use hkdf::Hkdf;
use ml_dsa::{Generate, Keypair, MlDsa87, Signer, SigningKey};
use ml_kem::{Encapsulate, EncapsulationKey1024, TryKeyInit};
use pqc_chat::crypto_engine::{
    codes_match, read_peer_plaintext, read_server_plaintext, CryptoEngine, CryptoError,
    PeerSession,
};
use pqc_chat::protocol::{PeerEnvelope, PeerMessage, ServerEnvelope, ServerMessage};
use sha2::Sha512;

fn hex(bytes: &[u8]) -> String {
    bytes.iter().map(|byte| format!("{:02x}", byte)).collect()
}

fn state(text: &str) -> CryptoError {
    CryptoError::StateError(text.to_string())
}

fn with_peer(id: &str, key: u8, authenticated: bool) -> CryptoEngine {
    let mut engine = CryptoEngine::new();
    engine.peers.insert(
        id.to_string(),
        PeerSession {
            pending_kem_sk: None,
            session_key: Some([key; 32]),
            is_authenticated: authenticated,
        },
    );
    engine
}

#[test]
fn test_server_packing_unpacking() {
    let mut engine = CryptoEngine::new();
    engine.transport_key = Some([7u8; 32]);

    let msg = ServerMessage::JoinRoom {
        room_id: "test_room".to_string(),
    };

    let envelope = engine.encrypt_server_message(&msg).unwrap();
    let decrypted = engine.decrypt_server_message(&envelope).unwrap();

    assert_eq!(msg, decrypted);
}

#[test]
fn test_peer_kem_flow() {
    let mut client_a = CryptoEngine::new();
    let client_b = CryptoEngine::new();

    let target_id = "client_b";

    let pk_a = client_a.initiate_peer_key_exchange(target_id).unwrap();

    let (ct_b, secret_b) = client_b
        .accept_peer_key_exchange(&pk_a)
        .unwrap();

    let secret_a = client_a
        .finish_peer_key_exchange(target_id, &ct_b)
        .unwrap();

    assert_eq!(secret_a, secret_b);
}

#[test]
fn test_peer_packing_unpacking() {
    let mut client_a = CryptoEngine::new();
    let mut client_b = CryptoEngine::new();
    let target_id = "client_b";
    let sender_id = "client_a";

    client_a.peers.insert(
        target_id.to_string(),
        PeerSession {
            pending_kem_sk: None,
            session_key: Some([5u8; 32]),
            is_authenticated: true,
        },
    );

    client_b.peers.insert(
        sender_id.to_string(),
        PeerSession {
            pending_kem_sk: None,
            session_key: Some([5u8; 32]),
            is_authenticated: true,
        },
    );

    let msg = PeerMessage::ChatMessage {
        timestamp: 100,
        content: "Secret Message".to_string(),
    };

    let envelope = client_a.encrypt_peer_message(target_id, &msg).unwrap();
    let decrypted = client_b
        .decrypt_peer_message(sender_id, &envelope)
        .unwrap();

    assert_eq!(msg, decrypted);
}

#[test]
fn test_server_kem_flow() {
    let mut client_engine = CryptoEngine::new();

    let server_sk = SigningKey::<MlDsa87>::generate();
    let server_pk = server_sk.verifying_key().encode().to_vec();

    client_engine.verify_server_hello(&server_pk).unwrap();

    let client_pk = client_engine.generate_client_key_exchange().unwrap();

    let ek = EncapsulationKey1024::new_from_slice(client_pk.as_slice()).unwrap();
    let (ct, shared_secret_server) = ek.encapsulate();

    let signature = server_sk.sign(ct.as_ref());

    client_engine
        .establish_transport_key(ct.as_ref(), signature.encode().as_ref())
        .unwrap();

    let hk = Hkdf::<Sha512>::new(None, shared_secret_server.as_ref());
    let mut transport_key = [0u8; 32];
    hk.expand(b"c2s_flow", &mut transport_key).unwrap();

    assert_eq!(client_engine.transport_key.unwrap(), transport_key);
    assert!(client_engine.pending_transport_sk.is_none());
}

#[test]
fn a_new_engine_holds_nothing() {
    for engine in [CryptoEngine::new(), CryptoEngine::default()] {
        assert!(engine.server_dsa_pk.is_none());
        assert!(engine.pending_transport_sk.is_none());
        assert!(engine.transport_key.is_none());
        assert!(engine.peers.get("anyone").is_none());
    }
    for session in [PeerSession::new(), PeerSession::default()] {
        assert!(session.pending_kem_sk.is_none());
        assert!(session.session_key.is_none());
        assert!(!session.is_authenticated);
    }
}

#[test]
fn the_peer_table_keeps_one_session_per_id() {
    let mut engine = with_peer("a", 1, false);
    engine.peers.insert("b".to_string(), PeerSession::new());
    engine.peers.insert(
        "a".to_string(),
        PeerSession { pending_kem_sk: None, session_key: Some([2; 32]), is_authenticated: true },
    );
    assert_eq!(engine.peers.get("a").unwrap().session_key, Some([2; 32]));
    assert!(engine.peers.get("b").is_some());
    assert!(engine.peers.remove("a").is_some());
    assert!(engine.peers.get("a").is_none());
    assert!(engine.peers.remove("a").is_none());
    assert!(engine.peers.get("b").is_some());
}

#[test]
fn server_hello_takes_keys_of_the_right_length() {
    let mut engine = CryptoEngine::new();
    for len in [0usize, 32, 2591, 2593] {
        assert_eq!(
            engine.verify_server_hello(&vec![1; len]),
            Err(CryptoError::InvalidSignature)
        );
        assert!(engine.server_dsa_pk.is_none());
    }
    engine.verify_server_hello(&[1; 2592]).unwrap();
    assert_eq!(engine.server_dsa_pk, Some(vec![1; 2592]));
}

#[test]
fn transport_key_needs_a_known_server() {
    let mut engine = CryptoEngine::new();
    assert_eq!(
        engine.establish_transport_key(&[0; 1568], &[0; 4627]),
        Err(state("Server ML-DSA-87 PK not set"))
    );
}

#[test]
fn transport_key_needs_a_genuine_signature() {
    let server_sk = SigningKey::<MlDsa87>::generate();
    let mut engine = CryptoEngine::new();
    engine.verify_server_hello(&server_sk.verifying_key().encode().to_vec()).unwrap();
    engine.generate_client_key_exchange().unwrap();

    let signature = server_sk.sign(&[4u8; 1568]).encode().to_vec();
    assert_eq!(
        engine.establish_transport_key(&[5; 1568], &signature),
        Err(CryptoError::InvalidSignature)
    );
    assert_eq!(
        engine.establish_transport_key(&[4; 1568], &signature[1..]),
        Err(CryptoError::InvalidSignature)
    );
    let other = SigningKey::<MlDsa87>::generate().sign(&[4u8; 1568]).encode().to_vec();
    assert_eq!(
        engine.establish_transport_key(&[4; 1568], &other),
        Err(CryptoError::InvalidSignature)
    );
    assert!(engine.pending_transport_sk.is_some());
    assert!(engine.transport_key.is_none());

    engine.establish_transport_key(&[4; 1568], &signature).unwrap();
    assert!(engine.pending_transport_sk.is_none());
    assert!(engine.transport_key.is_some());
    assert_eq!(
        engine.establish_transport_key(&[4; 1568], &signature),
        Err(state("Missing pending transport KEM SK"))
    );
}

#[test]
fn concluding_the_transport_exchange_checks_key_and_ciphertext() {
    let mut engine = CryptoEngine::new();
    assert_eq!(
        engine.conclude_transport_exchange(&[0; 1568], false),
        Err(CryptoError::InvalidSignature)
    );
    assert_eq!(
        engine.conclude_transport_exchange(&[0; 1568], true),
        Err(state("Missing pending transport KEM SK"))
    );
    engine.pending_transport_sk = Some(vec![1; 63]);
    assert_eq!(
        engine.conclude_transport_exchange(&[0; 1568], true),
        Err(CryptoError::KeyExchangeFailed("Invalid transport SK format"))
    );
    assert!(engine.pending_transport_sk.is_none());
    engine.pending_transport_sk = Some(vec![1; 64]);
    assert_eq!(
        engine.conclude_transport_exchange(&[0; 1567], true),
        Err(CryptoError::KeyExchangeFailed("Invalid transport CT format"))
    );
    assert!(engine.pending_transport_sk.is_none());
    assert!(engine.transport_key.is_none());
}

#[test]
fn the_transport_key_is_derived_from_the_secret() {
    let mut engine = CryptoEngine::new();
    engine.install_transport_secret(&[9; 32]).unwrap();
    assert_eq!(
        hex(&engine.transport_key.unwrap()),
        "cfab098d1fe79eca97d3e90495ae1a0cfc9092dc0e06430e26f3cb69ebf449cd"
    );
}

#[test]
fn server_messages_need_a_transport_key() {
    let engine = CryptoEngine::new();
    let message = ServerMessage::JoinRoom { room_id: "r".to_string() };
    assert_eq!(
        engine.encrypt_server_message(&message),
        Err(state("Transport key not established"))
    );
    assert_eq!(
        engine.decrypt_server_message(&ServerEnvelope { nonce: [0; 12], ciphertext: vec![] }),
        Err(state("Transport key not established"))
    );
}

#[test]
fn sealing_for_the_server_is_aes_256_gcm() {
    let mut engine = CryptoEngine::new();
    engine.transport_key = Some([7; 32]);
    let message = ServerMessage::JoinRoom { room_id: "test_room".to_string() };
    let envelope = engine.seal_server_message(&message, [1; 12]).unwrap();
    assert_eq!(envelope.nonce, [1; 12]);
    assert_eq!(
        hex(&envelope.ciphertext),
        "76e189b799bfec0ed1d4dc2104520345f7897b9b75adf6f1359b10c847d1cbd91ed1369c5a"
    );
    assert_eq!(engine.decrypt_server_message(&envelope).unwrap(), message);
}

#[test]
fn another_engine_with_the_transport_key_reads_the_envelope() {
    let mut writer = CryptoEngine::new();
    let mut reader = CryptoEngine::new();
    writer.transport_key = Some([1; 32]);
    reader.transport_key = Some([1; 32]);
    let message = ServerMessage::RoomMembers { members: vec!["x".to_string(), "y".to_string()] };
    let first = writer.encrypt_server_message(&message).unwrap();
    let second = writer.encrypt_server_message(&message).unwrap();
    assert_ne!(first.nonce, second.nonce);
    assert_eq!(reader.decrypt_server_message(&first).unwrap(), message);
    assert_eq!(reader.decrypt_server_message(&second).unwrap(), message);
}

#[test]
fn tampered_server_envelopes_are_refused() {
    let mut engine = CryptoEngine::new();
    engine.transport_key = Some([7; 32]);
    let message = ServerMessage::JoinRoom { room_id: "test_room".to_string() };
    let tampered = Err(CryptoError::EncryptionFailed(
        "AES-GCM MAC validation failed (Data Tampered!)",
    ));
    let envelope = engine.encrypt_server_message(&message).unwrap();

    let mut changed = envelope.clone();
    changed.ciphertext[0] ^= 1;
    assert_eq!(engine.decrypt_server_message(&changed), tampered);
    let mut changed = envelope.clone();
    changed.nonce[11] ^= 1;
    assert_eq!(engine.decrypt_server_message(&changed), tampered);
    let mut changed = envelope.clone();
    changed.ciphertext.truncate(15);
    assert_eq!(engine.decrypt_server_message(&changed), tampered);
    engine.transport_key = Some([8; 32]);
    assert_eq!(engine.decrypt_server_message(&envelope), tampered);
}

#[test]
fn opened_plaintext_is_decoded() {
    assert_eq!(
        read_server_plaintext(Some(vec![1, 0, 0, 0, 0, 0, 0, 0, 0, 0, 0, 0])),
        Ok(ServerMessage::RoomMembers { members: vec![] })
    );
    assert!(matches!(
        read_server_plaintext(Some(vec![1])),
        Err(CryptoError::SerializationError(_))
    ));
    assert_eq!(
        read_server_plaintext(None),
        Err(CryptoError::EncryptionFailed("AES-GCM MAC validation failed (Data Tampered!)"))
    );
    assert_eq!(
        read_peer_plaintext(Some(vec![0; 20])),
        Ok(PeerMessage::AuthRequest { username: "".to_string(), auth_mac: vec![] })
    );
    assert!(matches!(
        read_peer_plaintext(Some(vec![])),
        Err(CryptoError::SerializationError(_))
    ));
    assert_eq!(
        read_peer_plaintext(None),
        Err(CryptoError::EncryptionFailed("XChaCha20 MAC verification failed (Data Tampered!)"))
    );
}

#[test]
fn initiating_keeps_the_session_and_replaces_the_pending_key() {
    let mut engine = with_peer("b", 3, true);
    let first = engine.initiate_peer_key_exchange("b").unwrap();
    assert_eq!(first.len(), 1568);
    let kept = engine.peers.get("b").unwrap().pending_kem_sk.clone().unwrap();
    assert_eq!(kept.len(), 64);
    let second = engine.initiate_peer_key_exchange("b").unwrap();
    assert_ne!(first, second);
    let peer = engine.peers.get("b").unwrap();
    assert_ne!(peer.pending_kem_sk, Some(kept));
    assert_eq!(peer.session_key, Some([3; 32]));
    assert!(peer.is_authenticated);
    engine.await_peer("c", vec![1, 2, 3]);
    assert_eq!(engine.peers.get("c").unwrap().pending_kem_sk, Some(vec![1, 2, 3]));
}

#[test]
fn malformed_peer_keys_are_refused() {
    let mut engine = CryptoEngine::new();
    let refused = Err(CryptoError::KeyExchangeFailed("Invalid Peer PK format"));
    let key = engine.initiate_peer_key_exchange("b").unwrap();
    assert_eq!(engine.accept_peer_key_exchange(&key[1..]), refused);
    assert_eq!(engine.accept_peer_key_exchange(&[]), refused);

    // The coefficient 3328 is the largest below the modulus.
    let mut key = vec![0u8; 1568];
    key[0] = 0x00;
    key[1] = 0x0d;
    assert!(engine.accept_peer_key_exchange(&key).is_ok());
    key[0] = 0x01;
    assert_eq!(engine.accept_peer_key_exchange(&key), refused);

    let mut key = vec![0u8; 1568];
    key[1534] = 0x00;
    key[1535] = 0xd0;
    assert!(engine.accept_peer_key_exchange(&key).is_ok());
    key[1534] = 0x10;
    assert_eq!(engine.accept_peer_key_exchange(&key), refused);
}

#[test]
fn finishing_needs_a_pending_key_and_a_ciphertext() {
    let mut engine = CryptoEngine::new();
    assert_eq!(
        engine.finish_peer_key_exchange("b", &[0; 1568]),
        Err(state("Target peer not found"))
    );
    engine.peers.insert("b".to_string(), PeerSession::new());
    assert_eq!(
        engine.finish_peer_key_exchange("b", &[0; 1568]),
        Err(state("Missing pending Peer KEM SK"))
    );
    engine.await_peer("b", vec![1; 65]);
    assert_eq!(
        engine.finish_peer_key_exchange("b", &[0; 1568]),
        Err(CryptoError::KeyExchangeFailed("Invalid Peer SK format"))
    );
    assert!(engine.peers.get("b").unwrap().pending_kem_sk.is_none());
    engine.await_peer("b", vec![1; 64]);
    assert_eq!(
        engine.finish_peer_key_exchange("b", &[0; 1569]),
        Err(CryptoError::KeyExchangeFailed("Invalid Peer CT format"))
    );
    assert!(engine.peers.get("b").unwrap().pending_kem_sk.is_none());
    engine.await_peer("b", vec![1; 64]);
    let first = engine.finish_peer_key_exchange("b", &[0; 1568]).unwrap();
    assert_eq!(first.len(), 32);
    engine.await_peer("b", vec![1; 64]);
    assert_eq!(engine.finish_peer_key_exchange("b", &[0; 1568]).unwrap(), first);
}

#[test]
fn the_session_key_mixes_secret_password_and_salt() {
    let mut engine = with_peer("b", 1, true);
    let salt = b"room1\0\0\0\0\0\0\0\0\0\0\0";
    engine.derive_peer_session_key("b", &[3; 32], "pass1", salt).unwrap();
    let peer = engine.peers.get("b").unwrap();
    assert_eq!(
        hex(&peer.session_key.unwrap()),
        "24937c6e36aa8aed891418216351516ab71e6a120125ba54453b72e18d08d3e1"
    );
    assert!(!peer.is_authenticated);

    let mut other = CryptoEngine::new();
    other.derive_peer_session_key("a", &[3; 32], "pass1", salt).unwrap();
    assert_eq!(
        other.peers.get("a").unwrap().session_key,
        engine.peers.get("b").unwrap().session_key
    );
    other.derive_peer_session_key("a", &[3; 32], "pass2", salt).unwrap();
    assert_ne!(
        other.peers.get("a").unwrap().session_key,
        engine.peers.get("b").unwrap().session_key
    );
}

#[test]
fn short_salts_are_refused() {
    let mut engine = with_peer("b", 1, true);
    assert_eq!(
        engine.derive_peer_session_key("b", &[3; 32], "pass1", &[0; 7]),
        Err(CryptoError::KeyDerivationFailed("Argon2id hashing failed"))
    );
    assert_eq!(engine.peers.get("b").unwrap().session_key, Some([1; 32]));
    assert!(engine.is_peer_authenticated("b"));
    engine.derive_peer_session_key("b", &[3; 32], "", &[0; 8]).unwrap();
    assert!(!engine.is_peer_authenticated("b"));
}

#[test]
fn installing_a_session_key_resets_authentication() {
    let mut engine = with_peer("b", 1, true);
    engine.await_peer("b", vec![7]);
    engine.install_session_key("b", [2; 32]);
    let peer = engine.peers.get("b").unwrap();
    assert_eq!(peer.session_key, Some([2; 32]));
    assert_eq!(peer.pending_kem_sk, Some(vec![7]));
    assert!(!peer.is_authenticated);
}

#[test]
fn auth_macs_are_hmac_sha256_of_name_and_roles() {
    let engine = with_peer("b1", 5, false);
    let mac = engine.compute_auth_mac("b1", "a1", "b1", "alice").unwrap();
    assert_eq!(hex(&mac), "403e6e2390cc19b554cd4313c2771d326108bdfbed962d253515e0902bfb8ee3");

    let other = with_peer("a1", 5, false);
    assert_eq!(other.verify_auth_mac("a1", "a1", "b1", "alice", &mac), Ok(true));
    assert_eq!(other.verify_auth_mac("a1", "b1", "a1", "alice", &mac), Ok(false));
    assert_eq!(other.verify_auth_mac("a1", "a1", "b1", "alicia", &mac), Ok(false));
    assert_eq!(other.verify_auth_mac("a1", "a1", "b1", "alice", &mac[1..]), Ok(false));
    let stranger = with_peer("a1", 6, false);
    assert_eq!(stranger.verify_auth_mac("a1", "a1", "b1", "alice", &mac), Ok(false));
}

#[test]
fn auth_macs_need_a_session_key() {
    let mut engine = CryptoEngine::new();
    assert_eq!(engine.compute_auth_mac("b", "a", "b", "n"), Err(state("Peer not found")));
    assert_eq!(engine.verify_auth_mac("b", "a", "b", "n", &[]), Err(state("Peer not found")));
    engine.peers.insert("b".to_string(), PeerSession::new());
    assert_eq!(engine.compute_auth_mac("b", "a", "b", "n"), Err(state("Session key missing")));
    assert_eq!(
        engine.verify_auth_mac("b", "a", "b", "n", &[]),
        Err(state("Session key missing"))
    );
}

#[test]
fn codes_match_when_they_are_the_same_bytes() {
    assert!(codes_match(&[], &[]));
    assert!(codes_match(&[1, 2], &[1, 2]));
    assert!(!codes_match(&[1, 2], &[1, 3]));
    assert!(!codes_match(&[1, 2], &[1, 2, 0]));
}

#[test]
fn only_known_peers_become_authenticated() {
    let mut engine = with_peer("b", 1, false);
    assert!(!engine.is_peer_authenticated("b"));
    engine.set_peer_authenticated("b").unwrap();
    assert!(engine.is_peer_authenticated("b"));
    assert_eq!(engine.peers.get("b").unwrap().session_key, Some([1; 32]));
    assert_eq!(engine.set_peer_authenticated("c"), Err(state("Peer not found")));
    assert!(!engine.is_peer_authenticated("c"));
}

#[test]
fn sealing_for_a_peer_is_xchacha20_poly1305() {
    let engine = with_peer("client_b", 5, true);
    let message =
        PeerMessage::ChatMessage { timestamp: 100, content: "Secret Message".to_string() };
    let envelope = engine.seal_peer_message("client_b", &message, [2; 24]).unwrap();
    assert_eq!(envelope.nonce, [2; 24]);
    assert_eq!(
        hex(&envelope.ciphertext),
        "7d175c65b063c18e36b66e355e52469bbb77bd0c257c7aabdaa232e06c1d82a634f01fcdc80a7918e4b1ed\
         c8a8a676f528e0"
    );
    let first = engine.encrypt_peer_message("client_b", &message).unwrap();
    let second = engine.encrypt_peer_message("client_b", &message).unwrap();
    assert_ne!(first.nonce, second.nonce);
}

#[test]
fn unauthenticated_peers_get_proofs_of_identity_only() {
    let engine = with_peer("b", 5, false);
    let chat = PeerMessage::ChatMessage { timestamp: 1, content: "hi".to_string() };
    assert_eq!(
        engine.encrypt_peer_message("b", &chat),
        Err(state("Cannot encrypt message for unauthenticated peer"))
    );
    let request = PeerMessage::AuthRequest { username: "a".to_string(), auth_mac: vec![1] };
    let response = PeerMessage::AuthResponse { username: "a".to_string(), auth_mac: vec![2] };
    for message in [request, response] {
        let envelope = engine.encrypt_peer_message("b", &message).unwrap();
        assert_eq!(engine.decrypt_peer_message("b", &envelope).unwrap(), message);
    }
}

#[test]
fn peer_messages_need_a_peer_and_a_session_key() {
    let mut engine = CryptoEngine::new();
    let request = PeerMessage::AuthRequest { username: "a".to_string(), auth_mac: vec![] };
    let envelope = PeerEnvelope { nonce: [0; 24], ciphertext: vec![0; 16] };
    assert_eq!(engine.encrypt_peer_message("b", &request), Err(state("Peer not found")));
    assert_eq!(engine.decrypt_peer_message("b", &envelope), Err(state("Peer not found")));
    engine.peers.insert("b".to_string(), PeerSession::new());
    assert_eq!(engine.encrypt_peer_message("b", &request), Err(state("Session key missing")));
    assert_eq!(engine.decrypt_peer_message("b", &envelope), Err(state("Session key missing")));
    let chat = PeerMessage::ChatMessage { timestamp: 1, content: "hi".to_string() };
    assert_eq!(
        engine.encrypt_peer_message("b", &chat),
        Err(state("Cannot encrypt message for unauthenticated peer"))
    );
}

#[test]
fn tampered_peer_envelopes_are_refused() {
    let writer = with_peer("b", 5, true);
    let reader = with_peer("a", 5, false);
    let stranger = with_peer("a", 6, false);
    let chat = PeerMessage::ChatMessage { timestamp: 1, content: "hi".to_string() };
    let tampered = Err(CryptoError::EncryptionFailed(
        "XChaCha20 MAC verification failed (Data Tampered!)",
    ));
    let envelope = writer.encrypt_peer_message("b", &chat).unwrap();
    assert_eq!(reader.decrypt_peer_message("a", &envelope).unwrap(), chat);
    assert_eq!(stranger.decrypt_peer_message("a", &envelope), tampered);
    let mut changed = envelope.clone();
    changed.ciphertext[3] ^= 128;
    assert_eq!(reader.decrypt_peer_message("a", &changed), tampered);
    changed.ciphertext.truncate(3);
    assert_eq!(reader.decrypt_peer_message("a", &changed), tampered);
}

#[test]
fn what_concerns_one_peer_leaves_the_others_alone() {
    let mut engine = with_peer("other", 9, true);
    engine.await_peer("other", vec![1, 2, 3]);
    engine.server_dsa_pk = Some(vec![4]);
    engine.pending_transport_sk = Some(vec![5]);
    engine.transport_key = Some([6; 32]);

    engine.initiate_peer_key_exchange("b").unwrap();
    let _ = engine.finish_peer_key_exchange("b", &[0; 1568]).unwrap();
    engine.derive_peer_session_key("b", &[1; 32], "pw", &[0; 16]).unwrap();
    engine.set_peer_authenticated("b").unwrap();

    let other = engine.peers.get("other").unwrap();
    assert_eq!(other.pending_kem_sk, Some(vec![1, 2, 3]));
    assert_eq!(other.session_key, Some([9; 32]));
    assert!(other.is_authenticated);
    assert_eq!(engine.server_dsa_pk, Some(vec![4]));
    assert_eq!(engine.pending_transport_sk, Some(vec![5]));
    assert_eq!(engine.transport_key, Some([6; 32]));
}
