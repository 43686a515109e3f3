use pqc_chat::crypto_engine::CryptoError;
use pqc_chat::protocol::{
    NetworkMessage, PeerEnvelope, PeerMessage, ServerEnvelope, ServerMessage,
};
use pqc_chat::wire::{
    decode_network_message, decode_peer_message, decode_server_message, encode_network_message,
    encode_peer_message, encode_server_message,
};

fn text(s: &str) -> Vec<u8> {
    let mut out = (s.len() as u64).to_le_bytes().to_vec();
    out.extend_from_slice(s.as_bytes());
    out
}

fn blob(b: &[u8]) -> Vec<u8> {
    let mut out = (b.len() as u64).to_le_bytes().to_vec();
    out.extend_from_slice(b);
    out
}

fn join(parts: &[Vec<u8>]) -> Vec<u8> {
    parts.concat()
}

#[test]
fn test_network_message_serialization() {
    let msg = NetworkMessage::ServerHello {
        server_pk: vec![1, 2, 3, 4],
    };
    let encoded = encode_network_message(&msg).unwrap();
    let decoded: NetworkMessage = decode_network_message(&encoded).unwrap();
    assert_eq!(msg, decoded);
}

#[test]
fn test_server_message_serialization() {
    let msg = ServerMessage::JoinRoom {
        room_id: "room_123".to_string(),
    };
    let encoded = encode_server_message(&msg).unwrap();
    let decoded: ServerMessage = decode_server_message(&encoded).unwrap();
    assert_eq!(msg, decoded);
}

#[test]
fn test_peer_message_serialization() {
    let msg = PeerMessage::ChatMessage {
        timestamp: 1670000000,
        content: "Hello PQC".to_string(),
    };
    let encoded = encode_peer_message(&msg).unwrap();
    let decoded: PeerMessage = decode_peer_message(&encoded).unwrap();
    assert_eq!(msg, decoded);
}

fn network_messages() -> Vec<(NetworkMessage, Vec<u8>)> {
    vec![
        (
            NetworkMessage::ServerHello { server_pk: vec![1, 2, 3, 4] },
            vec![0, 0, 0, 0, 4, 0, 0, 0, 0, 0, 0, 0, 1, 2, 3, 4],
        ),
        (
            NetworkMessage::ClientKeyExchange { client_pk: vec![9; 300] },
            join(&[vec![1, 0, 0, 0], vec![44, 1, 0, 0, 0, 0, 0, 0], vec![9; 300]]),
        ),
        (
            NetworkMessage::ServerKeyExchange { ciphertext: vec![7], signature: vec![] },
            join(&[vec![2, 0, 0, 0], blob(&[7]), blob(&[])]),
        ),
        (
            NetworkMessage::EncryptedPayload(ServerEnvelope {
                nonce: [3; 12],
                ciphertext: vec![8, 8],
            }),
            join(&[vec![3, 0, 0, 0], vec![3; 12], blob(&[8, 8])]),
        ),
    ]
}

fn server_messages() -> Vec<(ServerMessage, Vec<u8>)> {
    vec![
        (
            ServerMessage::JoinRoom { room_id: "room_123".to_string() },
            join(&[vec![0, 0, 0, 0], text("room_123")]),
        ),
        (
            ServerMessage::RoomMembers { members: vec![] },
            vec![1, 0, 0, 0, 0, 0, 0, 0, 0, 0, 0, 0],
        ),
        (
            ServerMessage::RoomMembers {
                members: vec!["a".to_string(), "".to_string(), "größe".to_string()],
            },
            join(&[
                vec![1, 0, 0, 0],
                vec![3, 0, 0, 0, 0, 0, 0, 0],
                text("a"),
                text(""),
                text("größe"),
            ]),
        ),
        (
            ServerMessage::PeerExchangeInit {
                target_client_id: "t".to_string(),
                sender_client_id: "sender".to_string(),
                client_pk: vec![1, 2],
            },
            join(&[vec![2, 0, 0, 0], text("t"), text("sender"), blob(&[1, 2])]),
        ),
        (
            ServerMessage::PeerExchangeResponse {
                target_client_id: "t".to_string(),
                sender_client_id: "sender".to_string(),
                ciphertext: vec![5],
            },
            join(&[vec![3, 0, 0, 0], text("t"), text("sender"), blob(&[5])]),
        ),
        (
            ServerMessage::RelayPeerMessage {
                target_client_id: "t".to_string(),
                sender_client_id: "sender".to_string(),
                peer_envelope: PeerEnvelope { nonce: [6; 24], ciphertext: vec![1, 1, 1] },
            },
            join(&[
                vec![4, 0, 0, 0],
                text("t"),
                text("sender"),
                vec![6; 24],
                blob(&[1, 1, 1]),
            ]),
        ),
    ]
}

fn peer_messages() -> Vec<(PeerMessage, Vec<u8>)> {
    vec![
        (
            PeerMessage::AuthRequest { username: "alice".to_string(), auth_mac: vec![1; 32] },
            join(&[vec![0, 0, 0, 0], text("alice"), blob(&[1; 32])]),
        ),
        (
            PeerMessage::AuthResponse { username: "bob".to_string(), auth_mac: vec![2; 32] },
            join(&[vec![1, 0, 0, 0], text("bob"), blob(&[2; 32])]),
        ),
        (
            PeerMessage::ChatMessage {
                timestamp: 1670000000,
                content: "Hello PQC".to_string(),
            },
            join(&[
                vec![2, 0, 0, 0],
                vec![0x80, 0x2d, 0x8a, 0x63, 0, 0, 0, 0],
                text("Hello PQC"),
            ]),
        ),
        (
            PeerMessage::ChatMessage { timestamp: u64::MAX, content: "".to_string() },
            join(&[vec![2, 0, 0, 0], vec![255; 8], vec![0; 8]]),
        ),
    ]
}

#[test]
fn network_messages_have_their_bytes_and_come_back() {
    for (message, bytes) in network_messages() {
        assert_eq!(encode_network_message(&message).unwrap(), bytes);
        assert_eq!(decode_network_message(&bytes).unwrap(), message);
    }
}

#[test]
fn server_messages_have_their_bytes_and_come_back() {
    for (message, bytes) in server_messages() {
        assert_eq!(encode_server_message(&message).unwrap(), bytes);
        assert_eq!(decode_server_message(&bytes).unwrap(), message);
    }
}

#[test]
fn peer_messages_have_their_bytes_and_come_back() {
    for (message, bytes) in peer_messages() {
        assert_eq!(encode_peer_message(&message).unwrap(), bytes);
        assert_eq!(decode_peer_message(&bytes).unwrap(), message);
    }
}

#[test]
fn trailing_bytes_are_ignored() {
    for (message, bytes) in network_messages() {
        assert_eq!(decode_network_message(&join(&[bytes, vec![1, 2, 3]])).unwrap(), message);
    }
    for (message, bytes) in server_messages() {
        assert_eq!(decode_server_message(&join(&[bytes, vec![0; 9]])).unwrap(), message);
    }
    for (message, bytes) in peer_messages() {
        assert_eq!(decode_peer_message(&join(&[bytes, vec![255]])).unwrap(), message);
    }
}

#[test]
fn truncated_messages_are_refused() {
    for (_, bytes) in network_messages() {
        for end in 0..bytes.len() {
            assert!(matches!(
                decode_network_message(&bytes[..end]),
                Err(CryptoError::SerializationError(_))
            ));
        }
    }
    for (_, bytes) in server_messages() {
        for end in 0..bytes.len() {
            assert!(matches!(
                decode_server_message(&bytes[..end]),
                Err(CryptoError::SerializationError(_))
            ));
        }
    }
    for (_, bytes) in peer_messages() {
        for end in 0..bytes.len() {
            assert!(matches!(
                decode_peer_message(&bytes[..end]),
                Err(CryptoError::SerializationError(_))
            ));
        }
    }
}

#[test]
fn truncation_is_reported_as_bincode_reports_it() {
    let reason = bincode::deserialize::<u32>(&[0, 0]).unwrap_err().to_string();
    assert_eq!(
        decode_server_message(&[0, 0]),
        Err(CryptoError::SerializationError(reason.clone()))
    );
    assert!(reason.starts_with("io error: "));

    let input = [0, 0, 0, 0, 9, 0, 0, 0, 0, 0, 0, 0, 65];
    let reason = bincode::deserialize::<String>(&input[4..]).unwrap_err().to_string();
    assert_eq!(decode_server_message(&input), Err(CryptoError::SerializationError(reason)));

    let input = join(&[vec![3, 0, 0, 0], vec![3; 11]]);
    let reason = bincode::deserialize::<[u8; 12]>(&input[4..]).unwrap_err().to_string();
    assert_eq!(decode_network_message(&input), Err(CryptoError::SerializationError(reason)));

    let input = join(&[vec![1, 0, 0, 0], vec![2, 0, 0, 0, 0, 0, 0, 0], text("a")]);
    let reason = bincode::deserialize::<Vec<String>>(&input[4..]).unwrap_err().to_string();
    assert_eq!(decode_server_message(&input), Err(CryptoError::SerializationError(reason)));

    let input = [2, 0, 0, 0, 1, 2, 3];
    let reason = bincode::deserialize::<u64>(&input[4..]).unwrap_err().to_string();
    assert_eq!(decode_peer_message(&input), Err(CryptoError::SerializationError(reason)));

    let input = [0, 0, 0, 0, 2, 0, 0, 0, 0, 0, 0, 0, 65];
    assert_eq!(
        decode_network_message(&input),
        Err(CryptoError::SerializationError("io error: ".to_string()))
    );
}

#[test]
fn unknown_variants_are_refused() {
    assert_eq!(
        decode_network_message(&[4, 0, 0, 0]),
        Err(CryptoError::SerializationError(
            "invalid value: integer `4`, expected variant index 0 <= i < 4".to_string()
        ))
    );
    assert_eq!(
        decode_server_message(&[5, 0, 0, 0]),
        Err(CryptoError::SerializationError(
            "invalid value: integer `5`, expected variant index 0 <= i < 5".to_string()
        ))
    );
    assert_eq!(
        decode_peer_message(&[0, 1, 0, 0]),
        Err(CryptoError::SerializationError(
            "invalid value: integer `256`, expected variant index 0 <= i < 3".to_string()
        ))
    );
}

#[test]
fn unknown_variants_are_named_in_decimal() {
    for variant in [10u32, 99, 100, 1000000007, u32::MAX] {
        assert_eq!(
            decode_peer_message(&variant.to_le_bytes()),
            Err(CryptoError::SerializationError(format!(
                "invalid value: integer `{}`, expected variant index 0 <= i < 3",
                variant
            )))
        );
    }
}

#[test]
fn invalid_utf8_is_refused() {
    let input = join(&[vec![0, 0, 0, 0], blob(&[0xff, 0xfe])]);
    match decode_server_message(&input) {
        Err(CryptoError::SerializationError(reason)) => {
            assert!(reason.starts_with("string is not valid utf8: "))
        }
        other => panic!("unexpected outcome: {:?}", other),
    }
}

#[test]
fn errors_are_shown_with_their_quoted_text() {
    assert_eq!(CryptoError::InvalidSignature.to_string(), "InvalidSignature");
    assert_eq!(
        CryptoError::KeyExchangeFailed("Invalid Peer PK format").to_string(),
        "KeyExchangeFailed(\"Invalid Peer PK format\")"
    );
    assert_eq!(
        CryptoError::EncryptionFailed("AES-GCM encryption failed").to_string(),
        "EncryptionFailed(\"AES-GCM encryption failed\")"
    );
    assert_eq!(
        CryptoError::KeyDerivationFailed("HKDF expand failed").to_string(),
        "KeyDerivationFailed(\"HKDF expand failed\")"
    );
    for text in ["Peer not found", "a \"quoted\" word\n", "tab\t and \\ and ß"] {
        let error = CryptoError::StateError(text.to_string());
        assert_eq!(error.to_string(), format!("{:?}", error));
        let error = CryptoError::SerializationError(text.to_string());
        assert_eq!(error.to_string(), format!("{:?}", error));
    }
}
