//! What an engine computes, put directly in terms of the ciphers, the key derivation and the key
//! encapsulation.
use crate::crypto_engine::{self, EngineView};
use crate::error::ErrorView;
use crate::peers::PeerView;
use crate::primitives::{aead, kdf, kem, signature};
use crate::protocol::{
    EnvelopeView, PeerMessageView, ServerMessageView,
};
use crate::wire;
use vstd::prelude::*;

verus! {

/// A peer's session key is HKDF-SHA-512 of the whole secret, salted with the Argon2id hash of the
/// whole password under the whole salt. The peer keeps the key pair that waits for its answer, has
/// to prove itself anew, and nothing else changes. Only lengths that Argon2id does not take are
/// refused.
pub proof fn session_key_is_derived_from_everything(
    engine: EngineView,
    id: Seq<char>,
    secret: Seq<u8>,
    password: Seq<char>,
    salt: Seq<u8>,
)
    ensures
        vstd::utf8::encode_utf8(password).len() <= 0xffff_ffff && 8 <= salt.len() <= 0xffff_ffff
            ==> engine.deriving_session_key(id, secret, password, salt) == Ok::<
            EngineView,
            ErrorView,
        >(
            EngineView {
                peers: engine.peers.insert(
                    id,
                    PeerView {
                        pending_kem_sk: if engine.peers.contains_key(id) {
                            engine.peers[id].pending_kem_sk
                        } else {
                            None
                        },
                        session_key: Some(
                            kdf::hkdf_sha512(
                                Some(kdf::argon2id(vstd::utf8::encode_utf8(password), salt)),
                                secret,
                                vstd::utf8::encode_utf8("c2c_session_key"@),
                            ),
                        ),
                        is_authenticated: false,
                    },
                ),
                ..engine
            },
        ),
        !(vstd::utf8::encode_utf8(password).len() <= 0xffff_ffff && 8 <= salt.len() <= 0xffff_ffff)
            ==> engine.deriving_session_key(id, secret, password, salt) == Err::<
            EngineView,
            ErrorView,
        >(ErrorView::KeyDerivationFailed("Argon2id hashing failed"@)),
{
}

/// A given session key becomes the peer's, which keeps its pending key pair and has to prove
/// itself anew.
pub proof fn session_key_is_installed(engine: EngineView, id: Seq<char>, key: Seq<u8>)
    ensures
        engine.with_session_key(id, key) == (EngineView {
            peers: engine.peers.insert(
                id,
                PeerView {
                    pending_kem_sk: if engine.peers.contains_key(id) {
                        engine.peers[id].pending_kem_sk
                    } else {
                        None
                    },
                    session_key: Some(key),
                    is_authenticated: false,
                },
            ),
            ..engine
        }),
{
}

/// The code for an identity is HMAC-SHA-256, under the peer's session key, of the whole username,
/// the whole id of the sender, the whole id of the receiver and a fixed label.
pub proof fn auth_mac_covers_everything(
    engine: EngineView,
    peer_id: Seq<char>,
    sender_id: Seq<char>,
    receiver_id: Seq<char>,
    username: Seq<char>,
)
    ensures
        !engine.peers.contains_key(peer_id) ==> engine.auth_mac(
            peer_id,
            sender_id,
            receiver_id,
            username,
        ) == Err::<Seq<u8>, ErrorView>(ErrorView::StateError("Peer not found"@)),
        engine.peers.contains_key(peer_id) ==> engine.auth_mac(
            peer_id,
            sender_id,
            receiver_id,
            username,
        ) == match engine.peers[peer_id].session_key {
            None => Err::<Seq<u8>, ErrorView>(ErrorView::StateError("Session key missing"@)),
            Some(key) => Ok(
                kdf::hmac_sha256(
                    key,
                    vstd::utf8::encode_utf8(username) + vstd::utf8::encode_utf8(sender_id)
                        + vstd::utf8::encode_utf8(receiver_id) + vstd::utf8::encode_utf8(
                        "peer_auth_proof"@,
                    ),
                ),
            ),
        },
{
}

/// The transport key is HKDF-SHA-512 of the whole secret, without a salt, and nothing else
/// changes.
pub proof fn transport_key_is_derived_from_the_secret(engine: EngineView, secret: Seq<u8>)
    ensures
        engine.with_transport_secret(secret) == (EngineView {
            transport_key: Some(
                kdf::hkdf_sha512(None, secret, vstd::utf8::encode_utf8("c2s_flow"@)),
            ),
            ..engine
        }),
{
}

/// Once it is known whether the server's signature is genuine: a forged one changes nothing, a
/// genuine one spends the pending secret key, and a key and a ciphertext of the right lengths give
/// the transport key.
pub proof fn transport_exchange_concludes(engine: EngineView, ciphertext: Seq<u8>)
    ensures
        engine.concluding_transport(ciphertext, false) == (
            engine,
            Err::<(), ErrorView>(ErrorView::InvalidSignature),
        ),
        engine.pending_transport_sk is None ==> engine.concluding_transport(ciphertext, true) == (
            engine,
            Err::<(), ErrorView>(ErrorView::StateError("Missing pending transport KEM SK"@)),
        ),
        engine.pending_transport_sk matches Some(sk) ==> engine.concluding_transport(
            ciphertext,
            true,
        ) == if sk.len() != 64 {
            (
                EngineView { pending_transport_sk: None, ..engine },
                Err::<(), ErrorView>(ErrorView::KeyExchangeFailed("Invalid transport SK format"@)),
            )
        } else if ciphertext.len() != 1568 {
            (
                EngineView { pending_transport_sk: None, ..engine },
                Err::<(), ErrorView>(ErrorView::KeyExchangeFailed("Invalid transport CT format"@)),
            )
        } else {
            (
                EngineView {
                    pending_transport_sk: None,
                    transport_key: Some(
                        kdf::hkdf_sha512(
                            None,
                            kem::ml_kem_1024_decapsulation(sk, ciphertext),
                            vstd::utf8::encode_utf8("c2s_flow"@),
                        ),
                    ),
                    ..engine
                },
                Ok::<(), ErrorView>(()),
            )
        },
{
}

/// The signature that counts is one over the whole ciphertext, under the key that the server
/// greeted with.
pub proof fn transport_exchange_rests_on_the_signature(
    engine: EngineView,
    ciphertext: Seq<u8>,
    signature: Seq<u8>,
)
    ensures
        engine.server_dsa_pk is None ==> engine.establishing_transport(ciphertext, signature) == (
            engine,
            Err::<(), ErrorView>(ErrorView::StateError("Server ML-DSA-87 PK not set"@)),
        ),
        engine.server_dsa_pk matches Some(key) ==> engine.establishing_transport(
            ciphertext,
            signature,
        ) == engine.concluding_transport(
            ciphertext,
            signature::ml_dsa_87_verifies(key, ciphertext, signature),
        ),
{
}

/// Where a shared secret comes from: one that a key encapsulation under this very key hid in this
/// very ciphertext.
pub proof fn shared_secrets_come_from_the_key(
    key: Seq<u8>,
    ciphertext: Seq<u8>,
    secret: Seq<u8>,
)
    ensures
        kem::is_encapsulation(key, ciphertext, secret) <==> ciphertext.len() == 1568
            && secret.len() == 32 && exists|message: Seq<u8>|
            message.len() == 32 && (ciphertext, secret) == #[trigger]
                kem::ml_kem_1024_encapsulation(key, message),
{
}

/// A key pair that waits for a peer's answer is kept with the peer, whose session stays.
pub proof fn pending_key_is_kept_with_the_peer(engine: EngineView, id: Seq<char>, sk: Seq<u8>)
    ensures
        engine.awaiting_peer(id, sk) == (EngineView {
            peers: engine.peers.insert(
                id,
                if engine.peers.contains_key(id) {
                    PeerView { pending_kem_sk: Some(sk), ..engine.peers[id] }
                } else {
                    PeerView {
                        pending_kem_sk: Some(sk),
                        session_key: None,
                        is_authenticated: false,
                    }
                },
            ),
            ..engine
        }),
{
}

/// A peer's answer spends the key pair that waited for it, and a key and a ciphertext of the right
/// lengths give the secret that decapsulation finds. Nothing else changes.
pub proof fn peer_exchange_finishes(engine: EngineView, id: Seq<char>, ciphertext: Seq<u8>)
    ensures
        !engine.peers.contains_key(id) ==> engine.finishing_peer_exchange(id, ciphertext) == (
            engine,
            Err::<Seq<u8>, ErrorView>(ErrorView::StateError("Target peer not found"@)),
        ),
        engine.peers.contains_key(id) ==> match engine.peers[id].pending_kem_sk {
            None => engine.finishing_peer_exchange(id, ciphertext) == (
                engine,
                Err::<Seq<u8>, ErrorView>(ErrorView::StateError("Missing pending Peer KEM SK"@)),
            ),
            Some(sk) => engine.finishing_peer_exchange(id, ciphertext) == (
                EngineView {
                    peers: engine.peers.insert(
                        id,
                        PeerView { pending_kem_sk: None, ..engine.peers[id] },
                    ),
                    ..engine
                },
                if sk.len() != 64 {
                    Err::<Seq<u8>, ErrorView>(
                        ErrorView::KeyExchangeFailed("Invalid Peer SK format"@),
                    )
                } else if ciphertext.len() != 1568 {
                    Err(ErrorView::KeyExchangeFailed("Invalid Peer CT format"@))
                } else {
                    Ok(kem::ml_kem_1024_decapsulation(sk, ciphertext))
                },
            ),
        },
{
}

/// A peer counts as authenticated exactly where it is known and marked so, and marking it changes
/// nothing else.
pub proof fn authentication_is_a_mark_on_the_peer(engine: EngineView, id: Seq<char>)
    ensures
        engine.authenticated(id) <==> engine.peers.contains_key(id)
            && engine.peers[id].is_authenticated,
        engine.peers.contains_key(id) ==> engine.with_authenticated(id) == (EngineView {
            peers: engine.peers.insert(
                id,
                PeerView { is_authenticated: true, ..engine.peers[id] },
            ),
            ..engine
        }),
{
}

/// A message for the server is AES-256-GCM of its whole binary form, under the transport key and
/// the nonce that goes with it; only a missing key or too long a message is refused.
pub proof fn server_messages_are_sealed(
    engine: EngineView,
    message: ServerMessageView,
    nonce: Seq<u8>,
)
    ensures
        engine.server_sealing(message, nonce) == match engine.transport_key {
            None => Err::<EnvelopeView, ErrorView>(
                ErrorView::StateError("Transport key not established"@),
            ),
            Some(key) => if wire::server_message_bytes(message).len() > 68719476736 {
                Err(ErrorView::EncryptionFailed("AES-GCM encryption failed"@))
            } else {
                Ok(
                    EnvelopeView {
                        nonce,
                        ciphertext: aead::aes256gcm_seal(
                            key,
                            nonce,
                            wire::server_message_bytes(message),
                        ),
                    },
                )
            },
        },
{
}

/// Sealing for the server under a fresh nonce does the same with some nonce of twelve bytes, and
/// the envelope opens to the message's whole binary form.
pub proof fn server_envelopes_hold_the_message(
    engine: EngineView,
    message: ServerMessageView,
    res: Result<EnvelopeView, ErrorView>,
)
    requires
        engine.seals_for_server(message, res),
    ensures
        engine.transport_key is None ==> res == Err::<EnvelopeView, ErrorView>(
            ErrorView::StateError("Transport key not established"@),
        ),
        engine.transport_key matches Some(key) ==> if wire::server_message_bytes(message).len()
            > 68719476736 {
            res == Err::<EnvelopeView, ErrorView>(
                ErrorView::EncryptionFailed("AES-GCM encryption failed"@),
            )
        } else {
            &&& res matches Ok(envelope)
            &&& envelope.nonce.len() == 12
            &&& envelope.ciphertext == aead::aes256gcm_seal(
                key,
                envelope.nonce,
                wire::server_message_bytes(message),
            )
            &&& engine.server_opening(envelope) == Ok::<ServerMessageView, ErrorView>(message)
        },
{
}

/// What is read in a server envelope is what AES-256-GCM finds in it under the transport key.
pub proof fn server_envelopes_are_opened(engine: EngineView, envelope: EnvelopeView)
    ensures
        engine.server_opening(envelope) == match engine.transport_key {
            None => Err::<ServerMessageView, ErrorView>(
                ErrorView::StateError("Transport key not established"@),
            ),
            Some(key) => match aead::aes256gcm_open(key, envelope.nonce, envelope.ciphertext) {
                None => Err(
                    ErrorView::EncryptionFailed("AES-GCM MAC validation failed (Data Tampered!)"@),
                ),
                Some(plaintext) => match wire::server_message_at(plaintext) {
                    Ok(message) => Ok(message),
                    Err(reason) => Err(ErrorView::SerializationError(reason)),
                },
            },
        },
{
}

/// A message for a peer is XChaCha20-Poly1305 of its whole binary form, under the session key and
/// the nonce that goes with it. The peer has to be known, chat asks that it is authenticated, and
/// a missing key or too long a message is refused, in this order.
pub proof fn peer_messages_are_sealed(
    engine: EngineView,
    id: Seq<char>,
    message: PeerMessageView,
    nonce: Seq<u8>,
)
    ensures
        engine.peer_sealing(id, message, nonce) == if !engine.peers.contains_key(id) {
            Err::<EnvelopeView, ErrorView>(ErrorView::StateError("Peer not found"@))
        } else if message is ChatMessage && !engine.peers[id].is_authenticated {
            Err(ErrorView::StateError("Cannot encrypt message for unauthenticated peer"@))
        } else {
            match engine.peers[id].session_key {
                None => Err(ErrorView::StateError("Session key missing"@)),
                Some(key) => if wire::peer_message_bytes(message).len() > 274877906816 {
                    Err(ErrorView::EncryptionFailed("XChaCha20 encryption failed"@))
                } else {
                    Ok(
                        EnvelopeView {
                            nonce,
                            ciphertext: aead::xchacha20poly1305_seal(
                                key,
                                nonce,
                                wire::peer_message_bytes(message),
                            ),
                        },
                    )
                },
            }
        },
{
}

/// Sealing for a peer under a fresh nonce does the same with some nonce of twenty-four bytes, and
/// the envelope opens to the message.
pub proof fn peer_envelopes_hold_the_message(
    engine: EngineView,
    id: Seq<char>,
    message: PeerMessageView,
    res: Result<EnvelopeView, ErrorView>,
)
    requires
        engine.seals_for_peer(id, message, res),
    ensures
        !engine.peers.contains_key(id) ==> res == Err::<EnvelopeView, ErrorView>(
            ErrorView::StateError("Peer not found"@),
        ),
        engine.peers.contains_key(id) && message is ChatMessage
            && !engine.peers[id].is_authenticated ==> res == Err::<EnvelopeView, ErrorView>(
            ErrorView::StateError("Cannot encrypt message for unauthenticated peer"@),
        ),
        engine.peers.contains_key(id) && (message !is ChatMessage
            || engine.peers[id].is_authenticated) ==> match engine.peers[id].session_key {
            None => res == Err::<EnvelopeView, ErrorView>(
                ErrorView::StateError("Session key missing"@),
            ),
            Some(key) => if wire::peer_message_bytes(message).len() > 274877906816 {
                res == Err::<EnvelopeView, ErrorView>(
                    ErrorView::EncryptionFailed("XChaCha20 encryption failed"@),
                )
            } else {
                &&& res matches Ok(envelope)
                &&& envelope.nonce.len() == 24
                &&& envelope.ciphertext == aead::xchacha20poly1305_seal(
                    key,
                    envelope.nonce,
                    wire::peer_message_bytes(message),
                )
                &&& engine.peer_opening(id, envelope) == Ok::<PeerMessageView, ErrorView>(message)
            },
        },
{
}

/// What is read in a peer envelope is what XChaCha20-Poly1305 finds in it under the session key of
/// its sender.
pub proof fn peer_envelopes_are_opened(engine: EngineView, id: Seq<char>, envelope: EnvelopeView)
    ensures
        engine.peer_opening(id, envelope) == if !engine.peers.contains_key(id) {
            Err::<PeerMessageView, ErrorView>(ErrorView::StateError("Peer not found"@))
        } else {
            match engine.peers[id].session_key {
                None => Err(ErrorView::StateError("Session key missing"@)),
                Some(key) => match aead::xchacha20poly1305_open(
                    key,
                    envelope.nonce,
                    envelope.ciphertext,
                ) {
                    Some(plaintext) if envelope.ciphertext.len() <= 274877906832 => {
                        match wire::peer_message_at(plaintext) {
                            Ok(message) => Ok(message),
                            Err(reason) => Err(ErrorView::SerializationError(reason)),
                        }
                    },
                    _ => Err(
                        ErrorView::EncryptionFailed(
                            "XChaCha20 MAC verification failed (Data Tampered!)"@,
                        ),
                    ),
                },
            }
        },
{
}

/// What becomes of opened bytes: the message that they hold, or why they hold none.
pub proof fn opened_bytes_are_read(plaintext: Seq<u8>)
    ensures
        crypto_engine::server_message_of(None) == Err::<ServerMessageView, ErrorView>(
            ErrorView::EncryptionFailed("AES-GCM MAC validation failed (Data Tampered!)"@),
        ),
        crypto_engine::server_message_of(Some(plaintext)) == match wire::server_message_at(
            plaintext,
        ) {
            Ok(message) => Ok::<ServerMessageView, ErrorView>(message),
            Err(reason) => Err(ErrorView::SerializationError(reason)),
        },
        crypto_engine::peer_message_of(None) == Err::<PeerMessageView, ErrorView>(
            ErrorView::EncryptionFailed("XChaCha20 MAC verification failed (Data Tampered!)"@),
        ),
        crypto_engine::peer_message_of(Some(plaintext)) == match wire::peer_message_at(plaintext) {
            Ok(message) => Ok::<PeerMessageView, ErrorView>(message),
            Err(reason) => Err(ErrorView::SerializationError(reason)),
        },
{
}

} // verus!
