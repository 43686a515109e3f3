use ml_dsa::{Generate, Keypair, MlDsa87, Signer, SigningKey};
use ml_kem::{Encapsulate, EncapsulationKey1024, TryKeyInit};
use pqc_chat::client::{timestamp_of, ChatClient, ClientState};
use pqc_chat::crypto_engine::{CryptoEngine, CryptoError, PeerSession};
use pqc_chat::protocol::{NetworkMessage, PeerMessage, ServerEnvelope, ServerMessage};

fn client(id: &str, password: &str) -> ChatClient {
    ChatClient::new(
        id.to_string(),
        format!("user-{}", id),
        "room1".to_string(),
        password.to_string(),
    )
}

fn connected(id: &str, password: &str, key: u8) -> ChatClient {
    let mut client = client(id, password);
    client.state = ClientState::Connected;
    client.crypto.transport_key = Some([key; 32]);
    client
}

fn server(key: u8) -> CryptoEngine {
    let mut engine = CryptoEngine::new();
    engine.transport_key = Some([key; 32]);
    engine
}

fn state(text: &str) -> CryptoError {
    CryptoError::StateError(text.to_string())
}

fn read(server: &CryptoEngine, message: &NetworkMessage) -> ServerMessage {
    match message {
        NetworkMessage::EncryptedPayload(envelope) => {
            server.decrypt_server_message(envelope).unwrap()
        }
        other => panic!("unexpected message: {:?}", other),
    }
}

fn payload(server: &CryptoEngine, message: &ServerMessage) -> NetworkMessage {
    NetworkMessage::EncryptedPayload(server.encrypt_server_message(message).unwrap())
}

fn members(ids: &[&str]) -> ServerMessage {
    ServerMessage::RoomMembers { members: ids.iter().map(|id| id.to_string()).collect() }
}

/// Runs the exchange that starts with `a` learning of `b`, and returns what `a` makes of the
/// last message.
fn exchange(
    a: &mut ChatClient,
    b: &mut ChatClient,
) -> Result<Vec<NetworkMessage>, CryptoError> {
    let (server_a, server_b) = (server(1), server(2));
    let list = members(&[&a.client_id, &b.client_id]);
    let offers = a.process_network_message(payload(&server_a, &list))?;
    assert_eq!(offers.len(), 1);
    let offer = read(&server_a, &offers[0]);
    let answers = b.process_network_message(payload(&server_b, &offer))?;
    assert_eq!(answers.len(), 1);
    let answer = read(&server_b, &answers[0]);
    let requests = a.process_network_message(payload(&server_a, &answer))?;
    assert_eq!(requests.len(), 1);
    let request = read(&server_a, &requests[0]);
    let replies = b.process_network_message(payload(&server_b, &request))?;
    assert_eq!(replies.len(), 1);
    let reply = read(&server_b, &replies[0]);
    a.process_network_message(payload(&server_a, &reply))
}

#[test]
fn test_client_state_machine_init() {
    let mut client = ChatClient::new(
        "client1".to_string(),
        "user1".to_string(),
        "room1".to_string(),
        "pass1".to_string(),
    );

    assert_eq!(client.state, ClientState::Disconnected);

    let server_sk = SigningKey::<MlDsa87>::generate();
    let server_pk = server_sk.verifying_key().encode().to_vec();

    let responses = client
        .process_network_message(NetworkMessage::ServerHello { server_pk })
        .unwrap();

    assert_eq!(client.state, ClientState::WaitingForServerKey);
    assert_eq!(responses.len(), 1);

    if let NetworkMessage::ClientKeyExchange { client_pk } = &responses[0] {
        let ek = EncapsulationKey1024::new_from_slice(client_pk.as_slice()).unwrap();
        let (ct, _) = ek.encapsulate();
        let sig = server_sk.sign(ct.as_ref());

        let responses2 = client
            .process_network_message(NetworkMessage::ServerKeyExchange {
                ciphertext: ct.to_vec(),
                signature: sig.encode().to_vec(),
            })
            .unwrap();

        assert_eq!(client.state, ClientState::Connected);
        assert_eq!(responses2.len(), 1);
    } else {
        panic!("Expected ClientKeyExchange");
    }
}

#[test]
fn test_send_chat_message_requires_room_joined() {
    let client = ChatClient::new(
        "client1".to_string(),
        "user1".to_string(),
        "room1".to_string(),
        "pass1".to_string(),
    );

    let result = client.send_chat_message("client2", "hello".to_string());
    assert!(result.is_err());
}

#[test]
fn a_new_client_is_disconnected() {
    let client = client("a", "pw");
    assert_eq!(client.client_id, "a");
    assert_eq!(client.username, "user-a");
    assert_eq!(client.room_id, "room1");
    assert_eq!(client.room_password, "pw");
    assert_eq!(client.state, ClientState::Disconnected);
    assert!(client.crypto.transport_key.is_none());
    assert!(client.chat_inbox.is_empty());
}

#[test]
fn room_salts_have_at_least_sixteen_bytes() {
    let mut client = client("a", "pw");
    assert_eq!(client.get_room_salt(), b"room1\0\0\0\0\0\0\0\0\0\0\0");
    client.room_id = "".to_string();
    assert_eq!(client.get_room_salt(), [0u8; 16]);
    client.room_id = "exactly-16-bytes".to_string();
    assert_eq!(client.get_room_salt(), b"exactly-16-bytes");
    client.room_id = "a room with a long name".to_string();
    assert_eq!(client.get_room_salt(), b"a room with a long name");
    client.room_id = "größe".to_string();
    assert_eq!(client.get_room_salt().len(), 16);
    assert_eq!(&client.get_room_salt()[..7], "größe".as_bytes());
}

#[test]
fn connecting_asks_to_join_the_room() {
    let server_sk = SigningKey::<MlDsa87>::generate();
    let mut client = client("a", "pw");
    let hello =
        NetworkMessage::ServerHello { server_pk: server_sk.verifying_key().encode().to_vec() };
    let offers = client.process_network_message(hello).unwrap();
    let (ciphertext, secret) = match &offers[0] {
        NetworkMessage::ClientKeyExchange { client_pk } => {
            EncapsulationKey1024::new_from_slice(client_pk).unwrap().encapsulate()
        }
        other => panic!("unexpected message: {:?}", other),
    };
    let signature = server_sk.sign(ciphertext.as_ref()).encode().to_vec();
    let joins = client
        .process_network_message(NetworkMessage::ServerKeyExchange {
            ciphertext: ciphertext.to_vec(),
            signature,
        })
        .unwrap();
    let mut server = CryptoEngine::new();
    server.install_transport_secret(secret.as_ref()).unwrap();
    assert_eq!(client.crypto.transport_key, server.transport_key);
    assert_eq!(
        read(&server, &joins[0]),
        ServerMessage::JoinRoom { room_id: "room1".to_string() }
    );
    assert!(client.process_network_message(payload(&server, &members(&["a"]))).unwrap().is_empty());
    assert_eq!(client.state, ClientState::RoomJoined);
}

#[test]
fn a_bad_server_key_leaves_the_client_disconnected() {
    let mut client = client("a", "pw");
    assert_eq!(
        client.process_network_message(NetworkMessage::ServerHello { server_pk: vec![1, 2, 3] }),
        Err(CryptoError::InvalidSignature)
    );
    assert_eq!(client.state, ClientState::Disconnected);
    assert!(client.crypto.server_dsa_pk.is_none());
}

#[test]
fn a_forged_key_exchange_leaves_the_client_waiting() {
    let server_sk = SigningKey::<MlDsa87>::generate();
    let mut client = client("a", "pw");
    let hello =
        NetworkMessage::ServerHello { server_pk: server_sk.verifying_key().encode().to_vec() };
    client.process_network_message(hello).unwrap();
    let forged =
        NetworkMessage::ServerKeyExchange { ciphertext: vec![0; 1568], signature: vec![0; 4627] };
    assert_eq!(client.process_network_message(forged), Err(CryptoError::InvalidSignature));
    assert_eq!(client.state, ClientState::WaitingForServerKey);
    assert!(client.crypto.pending_transport_sk.is_some());

    let short = vec![1; 7];
    let signature = server_sk.sign(&short).encode().to_vec();
    assert_eq!(
        client.process_network_message(NetworkMessage::ServerKeyExchange {
            ciphertext: short,
            signature,
        }),
        Err(CryptoError::KeyExchangeFailed("Invalid transport CT format"))
    );
    assert_eq!(client.state, ClientState::WaitingForServerKey);
    assert!(client.crypto.pending_transport_sk.is_none());
}

#[test]
fn messages_out_of_turn_are_refused() {
    let hello = NetworkMessage::ServerHello { server_pk: vec![0; 2592] };
    let answer = NetworkMessage::ServerKeyExchange { ciphertext: vec![], signature: vec![] };
    let offer = NetworkMessage::ClientKeyExchange { client_pk: vec![] };
    let sealed =
        NetworkMessage::EncryptedPayload(ServerEnvelope { nonce: [0; 12], ciphertext: vec![] });

    let hello_refused = Err(state("Unexpected ServerHello in current state"));
    let answer_refused = Err(state("Unexpected ServerKeyExchange in current state"));
    let offer_refused = Err(state("Client should not receive ClientKeyExchange"));
    let sealed_refused = Err(state("Transport layer not secured yet"));

    let mut fresh = client("a", "pw");
    assert_eq!(fresh.process_network_message(answer.clone()), answer_refused);
    assert_eq!(fresh.process_network_message(offer.clone()), offer_refused);
    assert_eq!(fresh.process_network_message(sealed.clone()), sealed_refused);
    assert_eq!(fresh.state, ClientState::Disconnected);

    fresh.process_network_message(hello.clone()).unwrap();
    assert_eq!(fresh.process_network_message(hello.clone()), hello_refused);
    assert_eq!(fresh.process_network_message(offer.clone()), offer_refused);
    assert_eq!(fresh.process_network_message(sealed.clone()), sealed_refused);
    assert_eq!(fresh.state, ClientState::WaitingForServerKey);

    let mut later = connected("a", "pw", 1);
    assert_eq!(later.process_network_message(hello), hello_refused);
    assert_eq!(later.process_network_message(answer), answer_refused);
    assert_eq!(later.process_network_message(offer), offer_refused);
    assert_eq!(
        later.process_network_message(sealed),
        Err(CryptoError::EncryptionFailed("AES-GCM MAC validation failed (Data Tampered!)"))
    );
    assert_eq!(later.state, ClientState::Connected);
}

#[test]
fn every_other_member_is_invited_once() {
    let mut a = connected("a", "pw", 1);
    let server = server(1);
    let sent = a
        .process_network_message(payload(&server, &members(&["b", "a", "c"])))
        .unwrap();
    assert_eq!(a.state, ClientState::RoomJoined);
    assert_eq!(sent.len(), 2);
    for (message, id) in sent.iter().zip(["b", "c"]) {
        match read(&server, message) {
            ServerMessage::PeerExchangeInit { target_client_id, sender_client_id, client_pk } => {
                assert_eq!(target_client_id, id);
                assert_eq!(sender_client_id, "a");
                assert!(EncapsulationKey1024::new_from_slice(&client_pk).is_ok());
            }
            other => panic!("unexpected message: {:?}", other),
        }
        assert!(a.crypto.peers.get(id).unwrap().pending_kem_sk.is_some());
    }
    assert!(a.crypto.peers.get("a").is_none());
}

#[test]
fn inviting_without_a_transport_key_fails() {
    let mut a = client("a", "pw");
    assert_eq!(
        a.handle_server_message(members(&["a", "b", "c"])),
        Err(state("Transport key not established"))
    );
    assert_eq!(a.state, ClientState::RoomJoined);
    assert!(a.crypto.peers.get("b").unwrap().pending_kem_sk.is_some());
    assert!(a.crypto.peers.get("c").is_none());
}

#[test]
fn an_invitation_authenticates_both_and_opens_the_chat() {
    let mut a = connected("a", "pw", 1);
    let mut b = connected("b", "pw", 2);
    assert_eq!(exchange(&mut a, &mut b), Ok(vec![]));
    assert!(a.crypto.is_peer_authenticated("b"));
    assert!(b.crypto.is_peer_authenticated("a"));
    assert_eq!(
        a.crypto.peers.get("b").unwrap().session_key,
        b.crypto.peers.get("a").unwrap().session_key
    );

    let sent = a.send_chat_message_at("b", "hello".to_string(), 42).unwrap();
    let relayed = read(&server(1), &sent);
    assert_eq!(b.process_network_message(payload(&server(2), &relayed)), Ok(vec![]));
    assert_eq!(b.chat_inbox, vec![("a".to_string(), 42, "hello".to_string())]);

    assert_eq!(
        b.send_chat_message("a", "early".to_string()),
        Err(state("Cannot send chat before joining a room"))
    );
    b.process_network_message(payload(&server(2), &members(&["b"]))).unwrap();
    let sent = b.send_chat_message("a", "hi".to_string()).unwrap();
    let relayed = read(&server(2), &sent);
    assert_eq!(a.process_network_message(payload(&server(1), &relayed)), Ok(vec![]));
    assert_eq!(a.chat_inbox.len(), 1);
    assert_eq!(a.chat_inbox[0].0, "b");
    assert_eq!(a.chat_inbox[0].2, "hi");
    let now = std::time::UNIX_EPOCH.elapsed().unwrap().as_secs();
    assert!(a.chat_inbox[0].1 <= now && now - a.chat_inbox[0].1 < 3600);
}

#[test]
fn different_passwords_do_not_authenticate() {
    let mut a = connected("a", "right", 1);
    let mut b = connected("b", "wrong", 2);
    assert_eq!(
        exchange(&mut a, &mut b),
        Err(CryptoError::EncryptionFailed("XChaCha20 MAC verification failed (Data Tampered!)"))
    );
    assert!(!a.crypto.is_peer_authenticated("b"));
    assert!(!b.crypto.is_peer_authenticated("a"));
}

#[test]
fn a_new_exchange_resets_authentication() {
    let mut a = connected("a", "pw", 1);
    let mut b = connected("b", "pw", 2);
    exchange(&mut a, &mut b).unwrap();
    let server = server(2);
    let offer = ServerMessage::PeerExchangeInit {
        target_client_id: "b".to_string(),
        sender_client_id: "a".to_string(),
        client_pk: CryptoEngine::new().initiate_peer_key_exchange("b").unwrap(),
    };
    assert_eq!(b.process_network_message(payload(&server, &offer)).unwrap().len(), 1);
    assert!(!b.crypto.is_peer_authenticated("a"));
}

#[test]
fn messages_for_others_are_ignored() {
    let mut a = connected("a", "pw", 1);
    let server = server(1);
    let envelope = {
        let mut engine = CryptoEngine::new();
        engine.install_session_key("x", [1; 32]);
        let message = PeerMessage::AuthRequest { username: "n".to_string(), auth_mac: vec![] };
        engine.encrypt_peer_message("x", &message).unwrap()
    };
    let messages = [
        ServerMessage::PeerExchangeInit {
            target_client_id: "c".to_string(),
            sender_client_id: "b".to_string(),
            client_pk: vec![],
        },
        ServerMessage::PeerExchangeResponse {
            target_client_id: "c".to_string(),
            sender_client_id: "b".to_string(),
            ciphertext: vec![],
        },
        ServerMessage::RelayPeerMessage {
            target_client_id: "c".to_string(),
            sender_client_id: "b".to_string(),
            peer_envelope: envelope,
        },
        ServerMessage::JoinRoom { room_id: "elsewhere".to_string() },
    ];
    for message in messages {
        assert_eq!(a.process_network_message(payload(&server, &message)), Ok(vec![]));
        assert!(a.crypto.peers.get("b").is_none());
        assert_eq!(a.state, ClientState::Connected);
        assert_eq!(a.room_id, "room1");
    }
}

#[test]
fn broken_key_exchanges_are_refused() {
    let mut a = connected("a", "pw", 1);
    assert_eq!(
        a.handle_server_message(ServerMessage::PeerExchangeInit {
            target_client_id: "a".to_string(),
            sender_client_id: "b".to_string(),
            client_pk: vec![0; 3],
        }),
        Err(CryptoError::KeyExchangeFailed("Invalid Peer PK format"))
    );
    assert!(a.crypto.peers.get("b").is_none());
    let answer = ServerMessage::PeerExchangeResponse {
        target_client_id: "a".to_string(),
        sender_client_id: "b".to_string(),
        ciphertext: vec![0; 3],
    };
    assert_eq!(a.handle_server_message(answer.clone()), Err(state("Target peer not found")));
    a.crypto.initiate_peer_key_exchange("b").unwrap();
    assert_eq!(
        a.handle_server_message(answer.clone()),
        Err(CryptoError::KeyExchangeFailed("Invalid Peer CT format"))
    );
    assert_eq!(a.handle_server_message(answer), Err(state("Missing pending Peer KEM SK")));
}

#[test]
fn agreeing_on_a_secret_sends_the_ciphertext_back() {
    let mut a = connected("a", "pw", 1);
    let sent = a.answer_key_exchange(&"b".to_string(), vec![4, 5], &[3; 32]).unwrap();
    assert_eq!(
        read(&server(1), &sent[0]),
        ServerMessage::PeerExchangeResponse {
            target_client_id: "b".to_string(),
            sender_client_id: "a".to_string(),
            ciphertext: vec![4, 5],
        }
    );
    assert!(a.crypto.peers.get("b").unwrap().session_key.is_some());
}

#[test]
fn proving_identity_sends_the_code_for_the_peer() {
    let mut a = connected("a", "pw", 1);
    let sent = a.prove_identity(&"b".to_string(), &[3; 32]).unwrap();
    let envelope = match read(&server(1), &sent[0]) {
        ServerMessage::RelayPeerMessage { target_client_id, sender_client_id, peer_envelope } => {
            assert_eq!(target_client_id, "b");
            assert_eq!(sender_client_id, "a");
            peer_envelope
        }
        other => panic!("unexpected message: {:?}", other),
    };
    assert_eq!(
        a.crypto.decrypt_peer_message("b", &envelope).unwrap(),
        PeerMessage::AuthRequest {
            username: "user-a".to_string(),
            auth_mac: a.crypto.compute_auth_mac("b", "a", "b", "user-a").unwrap(),
        }
    );
}

#[test]
fn proofs_of_identity_are_checked() {
    let mut b = connected("b", "pw", 2);
    b.crypto.install_session_key("a", [5; 32]);
    let genuine = b.crypto.compute_auth_mac("a", "a", "b", "alice").unwrap();
    let refused = Err(state("Peer authentication failed"));
    for bad in [vec![], vec![0; 32], genuine[..31].to_vec()] {
        let request =
            PeerMessage::AuthRequest { username: "alice".to_string(), auth_mac: bad.clone() };
        assert_eq!(b.handle_peer_message("a".to_string(), request), refused);
        let response = PeerMessage::AuthResponse { username: "alice".to_string(), auth_mac: bad };
        assert_eq!(b.handle_peer_message("a".to_string(), response), refused);
        assert!(!b.crypto.is_peer_authenticated("a"));
    }
    let response =
        PeerMessage::AuthResponse { username: "alice".to_string(), auth_mac: genuine.clone() };
    assert_eq!(b.handle_peer_message("a".to_string(), response), Ok(vec![]));
    assert!(b.crypto.is_peer_authenticated("a"));

    b.crypto.install_session_key("a", [5; 32]);
    let request = PeerMessage::AuthRequest { username: "alice".to_string(), auth_mac: genuine };
    let sent = b.handle_peer_message("a".to_string(), request).unwrap();
    assert_eq!(sent.len(), 1);
    assert!(b.crypto.is_peer_authenticated("a"));

    let stray = PeerMessage::AuthResponse { username: "x".to_string(), auth_mac: vec![] };
    assert_eq!(b.handle_peer_message("x".to_string(), stray), Err(state("Peer not found")));
}

#[test]
fn granting_and_accepting_depend_on_the_proof() {
    let mut b = connected("b", "pw", 2);
    let a = "a".to_string();
    assert_eq!(b.grant(&a, false), Err(state("Peer authentication failed")));
    assert_eq!(b.grant(&a, true), Err(state("Peer not found")));
    assert_eq!(b.accept(&a, true), Err(state("Peer not found")));
    b.crypto.peers.insert(a.clone(), PeerSession::new());
    assert_eq!(b.accept(&a, false), Err(state("Peer authentication failed")));
    assert!(!b.crypto.is_peer_authenticated("a"));
    assert_eq!(b.accept(&a, true), Ok(vec![]));
    assert!(b.crypto.is_peer_authenticated("a"));
    assert_eq!(b.grant(&a, true), Err(state("Session key missing")));
    b.crypto.install_session_key("a", [5; 32]);
    assert_eq!(b.grant(&a, true).unwrap().len(), 1);
}

#[test]
fn chat_from_unauthenticated_peers_is_refused() {
    let mut b = connected("b", "pw", 2);
    b.crypto.install_session_key("a", [5; 32]);
    let chat = PeerMessage::ChatMessage { timestamp: 7, content: "spam".to_string() };
    assert_eq!(
        b.handle_peer_message("a".to_string(), chat.clone()),
        Err(state("Received chat message from unauthenticated peer"))
    );
    assert!(b.chat_inbox.is_empty());
    b.crypto.set_peer_authenticated("a").unwrap();
    assert_eq!(b.handle_peer_message("a".to_string(), chat.clone()), Ok(vec![]));
    assert_eq!(b.handle_peer_message("a".to_string(), chat), Ok(vec![]));
    assert_eq!(b.chat_inbox, vec![("a".to_string(), 7, "spam".to_string()); 2]);
}

#[test]
fn chat_to_unauthenticated_peers_is_refused() {
    let mut a = connected("a", "pw", 1);
    assert_eq!(
        a.send_chat_message("b", "x".to_string()),
        Err(state("Cannot send chat before joining a room"))
    );
    a.state = ClientState::RoomJoined;
    assert_eq!(
        a.send_chat_message("b", "x".to_string()),
        Err(state("Cannot send chat to unauthenticated peer"))
    );
    a.crypto.install_session_key("b", [5; 32]);
    assert_eq!(
        a.send_chat_message_at("b", "x".to_string(), 1),
        Err(state("Cannot send chat to unauthenticated peer"))
    );
    assert_eq!(
        a.encapsulate_peer_message(
            "b",
            &PeerMessage::ChatMessage { timestamp: 1, content: "x".to_string() }
        ),
        Err(state("Cannot encrypt message for unauthenticated peer"))
    );
    a.crypto.set_peer_authenticated("b").unwrap();
    assert!(a.send_chat_message_at("b", "x".to_string(), 1).is_ok());
}

#[test]
fn tampered_relays_change_nothing() {
    let mut a = connected("a", "pw", 1);
    let mut b = connected("b", "pw", 2);
    exchange(&mut a, &mut b).unwrap();
    let sent = a.send_chat_message_at("b", "hello".to_string(), 1).unwrap();
    let mut relayed = read(&server(1), &sent);
    if let ServerMessage::RelayPeerMessage { peer_envelope, .. } = &mut relayed {
        peer_envelope.ciphertext[0] ^= 1;
    }
    assert_eq!(
        b.process_network_message(payload(&server(2), &relayed)),
        Err(CryptoError::EncryptionFailed("XChaCha20 MAC verification failed (Data Tampered!)"))
    );
    assert!(b.chat_inbox.is_empty());
    assert!(b.crypto.is_peer_authenticated("a"));
}

#[test]
fn a_client_keeps_its_identity_and_its_transport_key() {
    let mut a = connected("a", "pw", 1);
    let mut b = connected("b", "pw", 2);
    b.crypto.install_session_key("c", [3; 32]);
    b.crypto.set_peer_authenticated("c").unwrap();
    exchange(&mut a, &mut b).unwrap();
    assert_eq!(a.client_id, "a");
    assert_eq!(a.username, "user-a");
    assert_eq!(a.room_id, "room1");
    assert_eq!(a.room_password, "pw");
    assert_eq!(a.crypto.transport_key, Some([1; 32]));
    assert_eq!(b.crypto.transport_key, Some([2; 32]));
    assert_eq!(b.state, ClientState::Connected);
    assert_eq!(b.crypto.peers.get("c").unwrap().session_key, Some([3; 32]));
    assert!(b.crypto.is_peer_authenticated("c"));
}

#[test]
fn inviting_keeps_sessions_and_authenticates_nobody() {
    let mut a = connected("a", "pw", 1);
    a.crypto.install_session_key("b", [3; 32]);
    a.crypto.set_peer_authenticated("b").unwrap();
    let sent = a
        .process_network_message(payload(&server(1), &members(&["b", "c", "b"])))
        .unwrap();
    assert_eq!(sent.len(), 3);
    assert_eq!(a.crypto.peers.get("b").unwrap().session_key, Some([3; 32]));
    assert!(a.crypto.is_peer_authenticated("b"));
    assert!(!a.crypto.is_peer_authenticated("c"));
    assert!(a.chat_inbox.is_empty());
}

#[test]
fn a_clock_before_the_epoch_stamps_zero() {
    assert_eq!(timestamp_of(None), 0);
    assert_eq!(timestamp_of(Some(0)), 0);
    assert_eq!(timestamp_of(Some(1670000000)), 1670000000);
    assert_eq!(timestamp_of(Some(u64::MAX)), u64::MAX);
}
