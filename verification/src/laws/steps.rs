//! What each message makes of a client, put directly in terms of the bytes that are sealed, the
//! ciphers that seal them and the keys that are kept.
use crate::client::{self, Answer, ClientState, ClientView};
use crate::crypto_engine::EngineView;
use crate::error::ErrorView;
use crate::peers::PeerView;
use crate::primitives::{aead, codec, kdf, kem, signature, system};
use crate::protocol::{
    EnvelopeView, NetworkMessageView, PeerMessageView, ServerMessageView,
};
use vstd::prelude::*;

verus! {

broadcast use {codec::u32_takes_four_bytes, codec::u64_takes_eight_bytes};

/// Whether these bytes went out to the server, sealed with AES-256-GCM under the transport key and
/// a nonce that was drawn, so that they open again, or were refused for want of a key or for their length.
pub open spec fn went_to_server(
    transport_key: Option<Seq<u8>>,
    plaintext: Seq<u8>,
    res: Result<NetworkMessageView, ErrorView>,
) -> bool {
    match transport_key {
        None => res == Err::<NetworkMessageView, ErrorView>(
            ErrorView::StateError("Transport key not established"@),
        ),
        Some(key) => if plaintext.len() > 68719476736 {
            res == Err::<NetworkMessageView, ErrorView>(
                ErrorView::EncryptionFailed("AES-GCM encryption failed"@),
            )
        } else {
            &&& res matches Ok(NetworkMessageView::EncryptedPayload(envelope))
            &&& envelope.nonce.len() == 12
            &&& system::is_random_draw(envelope.nonce)
            &&& envelope.ciphertext == aead::aes256gcm_seal(key, envelope.nonce, plaintext)
            &&& aead::aes256gcm_open(key, envelope.nonce, envelope.ciphertext) == Some(plaintext)
        },
    }
}

/// Whether these bytes went out to a peer, sealed with XChaCha20-Poly1305 under the session key
/// and a nonce that was drawn, so that they open again, in a message that asks the server to pass them on from
/// one client to another.
pub open spec fn went_to_peer(
    transport_key: Option<Seq<u8>>,
    session_key: Seq<u8>,
    target: Seq<char>,
    sender: Seq<char>,
    plaintext: Seq<u8>,
    res: Result<NetworkMessageView, ErrorView>,
) -> bool {
    if plaintext.len() > 274877906816 {
        res == Err::<NetworkMessageView, ErrorView>(
            ErrorView::EncryptionFailed("XChaCha20 encryption failed"@),
        )
    } else {
        exists|nonce: Seq<u8>|
            nonce.len() == 24 && system::is_random_draw(nonce) && aead::xchacha20poly1305_open(
                session_key,
                nonce,
                aead::xchacha20poly1305_seal(session_key, nonce, plaintext),
            ) == Some(plaintext) && went_to_server(
                transport_key,
                codec::u32_bytes(4) + codec::text_bytes(target) + codec::text_bytes(sender) + nonce
                    + codec::blob_bytes(
                    #[trigger] aead::xchacha20poly1305_seal(session_key, nonce, plaintext),
                ),
                res,
            )
    }
}

/// The answer that consists of what was sent, if anything was.
pub open spec fn is_only(res: Answer, sent: Result<NetworkMessageView, ErrorView>) -> bool {
    match sent {
        Ok(message) => res matches Ok(messages) && messages.len() == 1 && messages[0] == message,
        Err(error) => res == Err::<Seq<NetworkMessageView>, ErrorView>(error),
    }
}

/// Sealing a message for the server sends the message's binary form.
pub proof fn server_message_goes_out(
    client: ClientView,
    message: ServerMessageView,
    res: Result<NetworkMessageView, ErrorView>,
)
    requires
        client.sends(message, res),
    ensures
        went_to_server(
            client.crypto.transport_key,
            crate::wire::server_message_bytes(message),
            res,
        ),
        res matches Ok(NetworkMessageView::EncryptedPayload(envelope))
            ==> client.crypto.server_opening(envelope) == Ok::<ServerMessageView, ErrorView>(
            message,
        ),
{
}

/// Sealing a message for a peer, and the result for the server, names the peer as the receiver and
/// the client as the sender, and holds the message's binary form. The peer has to be known and to
/// have a session key, and chat asks that it is authenticated.
pub proof fn peer_message_goes_out(
    client: ClientView,
    target: Seq<char>,
    message: PeerMessageView,
    res: Result<NetworkMessageView, ErrorView>,
)
    requires
        client.relays(target, message, res),
    ensures
        !client.crypto.peers.contains_key(target) ==> res == Err::<NetworkMessageView, ErrorView>(
            ErrorView::StateError("Peer not found"@),
        ),
        client.crypto.peers.contains_key(target) && message is ChatMessage
            && !client.crypto.peers[target].is_authenticated ==> res == Err::<
            NetworkMessageView,
            ErrorView,
        >(ErrorView::StateError("Cannot encrypt message for unauthenticated peer"@)),
        client.crypto.peers.contains_key(target) && (message !is ChatMessage
            || client.crypto.peers[target].is_authenticated)
            ==> match client.crypto.peers[target].session_key {
            None => res == Err::<NetworkMessageView, ErrorView>(
                ErrorView::StateError("Session key missing"@),
            ),
            Some(key) => went_to_peer(
                client.crypto.transport_key,
                key,
                target,
                client.client_id,
                crate::wire::peer_message_bytes(message),
                res,
            ),
        },
{
    if client.crypto.peer_refusal(target, message) is None {
        let envelope = choose|envelope: EnvelopeView| #[trigger]
            client.crypto.seals_for_peer(target, message, Ok(envelope)) && system::is_random_draw(
                envelope.nonce,
            ) && client.sends(
                ServerMessageView::RelayPeerMessage {
                    target_client_id: target,
                    sender_client_id: client.client_id,
                    peer_envelope: envelope,
                },
                res,
            );
        let key = client.crypto.peers[target].session_key->0;
        let plaintext = crate::wire::peer_message_bytes(message);
        assert(envelope.ciphertext == aead::xchacha20poly1305_seal(
            key,
            envelope.nonce,
            plaintext,
        ));
    }
}

/// The salt of a room starts with all of the room's id and is filled up with zeros to sixteen
/// bytes, or is the id alone where that is as long.
pub proof fn room_salt_is_the_padded_id(room_id: Seq<char>)
    ensures
        ({
            let id = vstd::utf8::encode_utf8(room_id);
            let salt = client::room_salt(room_id);
            &&& salt.len() == if id.len() < 16 {
                16
            } else {
                id.len()
            }
            &&& forall|i: int| 0 <= i < id.len() ==> #[trigger] salt[i] == id[i]
            &&& forall|i: int| id.len() <= i < salt.len() ==> #[trigger] salt[i] == 0
        }),
{
}

/// A message is stamped with the seconds that the clock gave, whatever they are, and with zero
/// only where it gave none or zero.
pub proof fn stamp_is_what_the_clock_gave(seconds: u64)
    ensures
        client::stamp_of(Some(seconds)) == seconds,
        client::stamp_of(None) == 0,
{
}

/// The server's greeting: a fresh client keeps the server's verifying key and offers it the public
/// half of a key pair whose secret half it keeps. A key of the wrong length, or a greeting out of
/// turn, is refused and changes nothing.
pub proof fn server_hello_step(
    client: ClientView,
    server_pk: Seq<u8>,
    end: ClientView,
    res: Answer,
)
    requires
        client.processes(NetworkMessageView::ServerHello { server_pk }, end, res),
    ensures
        client.state != ClientState::Disconnected ==> end == client && res == Err::<
            Seq<NetworkMessageView>,
            ErrorView,
        >(ErrorView::StateError("Unexpected ServerHello in current state"@)),
        client.state == ClientState::Disconnected && server_pk.len() != 2592 ==> end == client
            && res == Err::<Seq<NetworkMessageView>, ErrorView>(ErrorView::InvalidSignature),
        client.state == ClientState::Disconnected && server_pk.len() == 2592 ==> {
            &&& end.crypto.pending_transport_sk matches Some(sk)
            &&& sk.len() == 64
            &&& end == (ClientView {
                state: ClientState::WaitingForServerKey,
                crypto: EngineView {
                    server_dsa_pk: Some(server_pk),
                    pending_transport_sk: Some(sk),
                    transport_key: client.crypto.transport_key,
                    peers: client.crypto.peers,
                },
                ..client
            })
            &&& is_only(
                res,
                Ok(
                    NetworkMessageView::ClientKeyExchange {
                        client_pk: kem::ml_kem_1024_encapsulation_key(sk),
                    },
                ),
            )
        },
{
}

/// The server's half of the key exchange: a client that waits for it, and finds it signed by the
/// server's key, spends its secret key, derives the transport key from the secret that it finds,
/// is connected and asks to join its room. Whatever is wrong with it is told apart.
pub proof fn server_key_exchange_step(
    client: ClientView,
    ciphertext: Seq<u8>,
    signature: Seq<u8>,
    end: ClientView,
    res: Answer,
)
    requires
        client.processes(
            NetworkMessageView::ServerKeyExchange { ciphertext, signature },
            end,
            res,
        ),
    ensures
        client.state != ClientState::WaitingForServerKey ==> end == client && res == Err::<
            Seq<NetworkMessageView>,
            ErrorView,
        >(ErrorView::StateError("Unexpected ServerKeyExchange in current state"@)),
        client.state == ClientState::WaitingForServerKey ==> match client.crypto.server_dsa_pk {
            None => end == client && res == Err::<Seq<NetworkMessageView>, ErrorView>(
                ErrorView::StateError("Server ML-DSA-87 PK not set"@),
            ),
            Some(key) => if !signature::ml_dsa_87_verifies(key, ciphertext, signature) {
                end == client && res == Err::<Seq<NetworkMessageView>, ErrorView>(
                    ErrorView::InvalidSignature,
                )
            } else {
                match client.crypto.pending_transport_sk {
                    None => end == client && res == Err::<Seq<NetworkMessageView>, ErrorView>(
                        ErrorView::StateError("Missing pending transport KEM SK"@),
                    ),
                    Some(sk) => {
                        let spent = EngineView { pending_transport_sk: None, ..client.crypto };
                        if sk.len() != 64 {
                            end == (ClientView { crypto: spent, ..client }) && res == Err::<
                                Seq<NetworkMessageView>,
                                ErrorView,
                            >(ErrorView::KeyExchangeFailed("Invalid transport SK format"@))
                        } else if ciphertext.len() != 1568 {
                            end == (ClientView { crypto: spent, ..client }) && res == Err::<
                                Seq<NetworkMessageView>,
                                ErrorView,
                            >(ErrorView::KeyExchangeFailed("Invalid transport CT format"@))
                        } else {
                            let transport_key = kdf::hkdf_sha512(
                                None,
                                kem::ml_kem_1024_decapsulation(sk, ciphertext),
                                vstd::utf8::encode_utf8("c2s_flow"@),
                            );
                            &&& end == (ClientView {
                                state: ClientState::Connected,
                                crypto: EngineView {
                                    transport_key: Some(transport_key),
                                    ..spent
                                },
                                ..client
                            })
                            &&& exists|sent: Result<NetworkMessageView, ErrorView>|
                                is_only(res, sent) && #[trigger] went_to_server(
                                    Some(transport_key),
                                    codec::u32_bytes(0) + codec::text_bytes(client.room_id),
                                    sent,
                                )
                        }
                    },
                }
            },
        },
{
    if client.state == ClientState::WaitingForServerKey {
        if client.crypto.establishing_transport(ciphertext, signature).1 is Ok {
            let sent = choose|sent: Result<NetworkMessageView, ErrorView>|
                res == client::lone(sent) && #[trigger] end.sends(
                    ServerMessageView::JoinRoom { room_id: client.room_id },
                    sent,
                );
            server_message_goes_out(
                end,
                ServerMessageView::JoinRoom { room_id: client.room_id },
                sent,
            );
            assert(went_to_server(
                end.crypto.transport_key,
                codec::u32_bytes(0) + codec::text_bytes(client.room_id),
                sent,
            ));
        }
    }
}

/// A client takes no offer of a key exchange from the network.
pub proof fn client_key_exchange_step(
    client: ClientView,
    client_pk: Seq<u8>,
    end: ClientView,
    res: Answer,
)
    requires
        client.processes(NetworkMessageView::ClientKeyExchange { client_pk }, end, res),
    ensures
        end == client,
        res == Err::<Seq<NetworkMessageView>, ErrorView>(
            ErrorView::StateError("Client should not receive ClientKeyExchange"@),
        ),
{
}

/// A sealed payload: before the transport is secured it is refused; afterwards it is opened with
/// the transport key, and the message in it is handled.
pub proof fn payload_step(
    client: ClientView,
    nonce: Seq<u8>,
    ciphertext: Seq<u8>,
    end: ClientView,
    res: Answer,
)
    requires
        client.processes(
            NetworkMessageView::EncryptedPayload(EnvelopeView { nonce, ciphertext }),
            end,
            res,
        ),
    ensures
        client.state == ClientState::Disconnected || client.state
            == ClientState::WaitingForServerKey ==> end == client && res == Err::<
            Seq<NetworkMessageView>,
            ErrorView,
        >(ErrorView::StateError("Transport layer not secured yet"@)),
        client.state == ClientState::Connected || client.state == ClientState::RoomJoined
            ==> match client.crypto.transport_key {
            None => end == client && res == Err::<Seq<NetworkMessageView>, ErrorView>(
                ErrorView::StateError("Transport key not established"@),
            ),
            Some(key) => match aead::aes256gcm_open(key, nonce, ciphertext) {
                None => end == client && res == Err::<Seq<NetworkMessageView>, ErrorView>(
                    ErrorView::EncryptionFailed("AES-GCM MAC validation failed (Data Tampered!)"@),
                ),
                Some(plaintext) => match crate::wire::server_message_at(plaintext) {
                    Err(reason) => end == client && res == Err::<
                        Seq<NetworkMessageView>,
                        ErrorView,
                    >(ErrorView::SerializationError(reason)),
                    Ok(message) => client.handles(message, end, res),
                },
            },
        },
{
}

/// A request to join that comes back from the server says nothing to a client.
pub proof fn join_room_step(client: ClientView, room_id: Seq<char>, end: ClientView, res: Answer)
    requires
        client.handles(ServerMessageView::JoinRoom { room_id }, end, res),
    ensures
        end == client,
        res matches Ok(sent) && sent.len() == 0,
{
}

/// Agreeing with a peer on a secret: the session key is derived from the whole secret, the room's
/// password and the room's salt, and the peer is sent the ciphertext that holds the secret.
pub proof fn answering_step(
    client: ClientView,
    sender: Seq<char>,
    ciphertext: Seq<u8>,
    secret: Seq<u8>,
    end: ClientView,
    res: Answer,
)
    requires
        client.answers_with(sender, ciphertext, secret, end, res),
    ensures
        if vstd::utf8::encode_utf8(client.room_password).len() > 0xffff_ffff || client::room_salt(
            client.room_id,
        ).len() > 0xffff_ffff {
            end == client && res == Err::<Seq<NetworkMessageView>, ErrorView>(
                ErrorView::KeyDerivationFailed("Argon2id hashing failed"@),
            )
        } else {
            &&& holds_new_session(client, sender, secret, end)
            &&& exists|sent: Result<NetworkMessageView, ErrorView>|
                is_only(res, sent) && #[trigger] went_to_server(
                    client.crypto.transport_key,
                    codec::u32_bytes(3) + codec::text_bytes(sender) + codec::text_bytes(
                        client.client_id,
                    ) + codec::blob_bytes(ciphertext),
                    sent,
                )
        },
{
    room_salt_is_the_padded_id(client.room_id);
    if !(vstd::utf8::encode_utf8(client.room_password).len() > 0xffff_ffff || client::room_salt(
        client.room_id,
    ).len() > 0xffff_ffff) {
        let message = ServerMessageView::PeerExchangeResponse {
            target_client_id: sender,
            sender_client_id: client.client_id,
            ciphertext,
        };
        let sent = choose|sent: Result<NetworkMessageView, ErrorView>|
            res == client::lone(sent) && #[trigger] end.sends(message, sent);
        server_message_goes_out(end, message, sent);
        assert(went_to_server(
            client.crypto.transport_key,
            codec::u32_bytes(3) + codec::text_bytes(sender) + codec::text_bytes(client.client_id)
                + codec::blob_bytes(ciphertext),
            sent,
        ));
    }
}

/// The key that clients of a room derive from a shared secret.
pub open spec fn key_in_room(client: ClientView, secret: Seq<u8>) -> Seq<u8> {
    kdf::hkdf_sha512(
        Some(
            kdf::argon2id(
                vstd::utf8::encode_utf8(client.room_password),
                client::room_salt(client.room_id),
            ),
        ),
        secret,
        vstd::utf8::encode_utf8("c2c_session_key"@),
    )
}

/// Whether a client differs from an earlier one in nothing but that it holds, for one peer, the
/// session key that a secret stands for, which the peer has yet to prove that it holds too.
pub open spec fn holds_new_session(
    before: ClientView,
    id: Seq<char>,
    secret: Seq<u8>,
    after: ClientView,
) -> bool {
    after == ClientView {
        crypto: EngineView {
            peers: before.crypto.peers.insert(
                id,
                PeerView {
                    pending_kem_sk: if before.crypto.peers.contains_key(id) {
                        before.crypto.peers[id].pending_kem_sk
                    } else {
                        None
                    },
                    session_key: Some(key_in_room(before, secret)),
                    is_authenticated: false,
                },
            ),
            ..before.crypto
        },
        ..before
    }
}

/// A peer's offer of a key exchange: what is for another client is ignored, a malformed key is
/// refused, and otherwise the client agrees on a secret that encapsulation under that key hid in
/// the ciphertext that it sends back.
pub proof fn offer_step(
    client: ClientView,
    target: Seq<char>,
    sender: Seq<char>,
    client_pk: Seq<u8>,
    end: ClientView,
    res: Answer,
)
    requires
        client.handles(
            ServerMessageView::PeerExchangeInit {
                target_client_id: target,
                sender_client_id: sender,
                client_pk,
            },
            end,
            res,
        ),
    ensures
        target != client.client_id ==> end == client && (res matches Ok(sent) && sent.len() == 0),
        target == client.client_id && !kem::is_encapsulation_key(client_pk) ==> end == client
            && res == Err::<Seq<NetworkMessageView>, ErrorView>(
            ErrorView::KeyExchangeFailed("Invalid Peer PK format"@),
        ),
        target == client.client_id && kem::is_encapsulation_key(client_pk) ==> exists|
            message: Seq<u8>,
        |
            message.len() == 32 && client.answers_with(
                sender,
                (#[trigger] kem::ml_kem_1024_encapsulation(client_pk, message)).0,
                kem::ml_kem_1024_encapsulation(client_pk, message).1,
                end,
                res,
            ),
{
    if target == client.client_id && kem::is_encapsulation_key(client_pk) {
        let (ciphertext, secret) = choose|ciphertext: Seq<u8>, secret: Seq<u8>| #[trigger]
            kem::is_encapsulation(client_pk, ciphertext, secret) && client.answers_with(
                sender,
                ciphertext,
                secret,
                end,
                res,
            );
        let message = choose|message: Seq<u8>|
            message.len() == 32 && (ciphertext, secret) == #[trigger]
                kem::ml_kem_1024_encapsulation(client_pk, message);
        assert(kem::ml_kem_1024_encapsulation(client_pk, message) == (ciphertext, secret));
    }
}

/// Agreeing with a peer on a secret and proving it: the session key is derived as by the other
/// side, and the peer is sent the client's name with the code over that name, the client's id and
/// the peer's id.
pub proof fn proving_step(
    client: ClientView,
    sender: Seq<char>,
    secret: Seq<u8>,
    end: ClientView,
    res: Answer,
)
    requires
        client.proves_identity(sender, secret, end, res),
    ensures
        if vstd::utf8::encode_utf8(client.room_password).len() > 0xffff_ffff || client::room_salt(
            client.room_id,
        ).len() > 0xffff_ffff {
            end == client && res == Err::<Seq<NetworkMessageView>, ErrorView>(
                ErrorView::KeyDerivationFailed("Argon2id hashing failed"@),
            )
        } else {
            &&& holds_new_session(client, sender, secret, end)
            &&& exists|sent: Result<NetworkMessageView, ErrorView>|
                is_only(res, sent) && #[trigger] went_to_peer(
                    client.crypto.transport_key,
                    key_in_room(client, secret),
                    sender,
                    client.client_id,
                    codec::u32_bytes(0) + codec::text_bytes(client.username) + codec::blob_bytes(
                        code_for(
                            key_in_room(client, secret),
                            client.username,
                            client.client_id,
                            sender,
                        ),
                    ),
                    sent,
                )
        },
{
    room_salt_is_the_padded_id(client.room_id);
    if !(vstd::utf8::encode_utf8(client.room_password).len() > 0xffff_ffff || client::room_salt(
        client.room_id,
    ).len() > 0xffff_ffff) {
        let code = code_for(
            key_in_room(client, secret),
            client.username,
            client.client_id,
            sender,
        );
        let message = PeerMessageView::AuthRequest { username: client.username, auth_mac: code };
        let sent = choose|sent: Result<NetworkMessageView, ErrorView>|
            res == client::lone(sent) && #[trigger] end.relays(sender, message, sent);
        peer_message_goes_out(end, sender, message, sent);
        assert(went_to_peer(
            client.crypto.transport_key,
            key_in_room(client, secret),
            sender,
            client.client_id,
            codec::u32_bytes(0) + codec::text_bytes(client.username) + codec::blob_bytes(code),
            sent,
        ));
    }
}

/// The code that vouches for a name between two ids.
pub open spec fn code_for(
    key: Seq<u8>,
    username: Seq<char>,
    sender: Seq<char>,
    receiver: Seq<char>,
) -> Seq<u8> {
    kdf::hmac_sha256(
        key,
        vstd::utf8::encode_utf8(username) + vstd::utf8::encode_utf8(sender)
            + vstd::utf8::encode_utf8(receiver) + vstd::utf8::encode_utf8("peer_auth_proof"@),
    )
}

/// A peer's answer to a key exchange: what is for another client is ignored, the secret key that
/// waited for the answer is spent, and the secret that decapsulation finds is agreed on and proved.
pub proof fn answer_step(
    client: ClientView,
    target: Seq<char>,
    sender: Seq<char>,
    ciphertext: Seq<u8>,
    end: ClientView,
    res: Answer,
)
    requires
        client.handles(
            ServerMessageView::PeerExchangeResponse {
                target_client_id: target,
                sender_client_id: sender,
                ciphertext,
            },
            end,
            res,
        ),
    ensures
        target != client.client_id ==> end == client && (res matches Ok(sent) && sent.len() == 0),
        target == client.client_id && !client.crypto.peers.contains_key(sender) ==> end == client
            && res == Err::<Seq<NetworkMessageView>, ErrorView>(
            ErrorView::StateError("Target peer not found"@),
        ),
        target == client.client_id && client.crypto.peers.contains_key(sender)
            ==> match client.crypto.peers[sender].pending_kem_sk {
            None => end == client && res == Err::<Seq<NetworkMessageView>, ErrorView>(
                ErrorView::StateError("Missing pending Peer KEM SK"@),
            ),
            Some(sk) => {
                let spent = ClientView {
                    crypto: EngineView {
                        peers: client.crypto.peers.insert(
                            sender,
                            PeerView { pending_kem_sk: None, ..client.crypto.peers[sender] },
                        ),
                        ..client.crypto
                    },
                    ..client
                };
                if sk.len() != 64 {
                    end == spent && res == Err::<Seq<NetworkMessageView>, ErrorView>(
                        ErrorView::KeyExchangeFailed("Invalid Peer SK format"@),
                    )
                } else if ciphertext.len() != 1568 {
                    end == spent && res == Err::<Seq<NetworkMessageView>, ErrorView>(
                        ErrorView::KeyExchangeFailed("Invalid Peer CT format"@),
                    )
                } else {
                    spent.proves_identity(
                        sender,
                        kem::ml_kem_1024_decapsulation(sk, ciphertext),
                        end,
                        res,
                    )
                }
            },
        },
{
}

/// A relayed message: what is for another client is ignored, and otherwise it is opened with the
/// session key of its sender and heard.
pub proof fn relay_step(
    client: ClientView,
    target: Seq<char>,
    sender: Seq<char>,
    nonce: Seq<u8>,
    ciphertext: Seq<u8>,
    end: ClientView,
    res: Answer,
)
    requires
        client.handles(
            ServerMessageView::RelayPeerMessage {
                target_client_id: target,
                sender_client_id: sender,
                peer_envelope: EnvelopeView { nonce, ciphertext },
            },
            end,
            res,
        ),
    ensures
        target != client.client_id ==> end == client && (res matches Ok(sent) && sent.len() == 0),
        target == client.client_id && !client.crypto.peers.contains_key(sender) ==> end == client
            && res == Err::<Seq<NetworkMessageView>, ErrorView>(
            ErrorView::StateError("Peer not found"@),
        ),
        target == client.client_id && client.crypto.peers.contains_key(sender)
            ==> match client.crypto.peers[sender].session_key {
            None => end == client && res == Err::<Seq<NetworkMessageView>, ErrorView>(
                ErrorView::StateError("Session key missing"@),
            ),
            Some(key) => match aead::xchacha20poly1305_open(key, nonce, ciphertext) {
                Some(plaintext) if ciphertext.len() <= 274877906832 => {
                    match crate::wire::peer_message_at(plaintext) {
                        Err(reason) => end == client && res == Err::<
                            Seq<NetworkMessageView>,
                            ErrorView,
                        >(ErrorView::SerializationError(reason)),
                        Ok(message) => client.hears(sender, message, end, res),
                    }
                },
                _ => end == client && res == Err::<Seq<NetworkMessageView>, ErrorView>(
                    ErrorView::EncryptionFailed(
                        "XChaCha20 MAC verification failed (Data Tampered!)"@,
                    ),
                ),
            },
        },
{
}

/// The client with a peer marked as authenticated.
pub open spec fn trusting(client: ClientView, id: Seq<char>) -> ClientView {
    ClientView {
        crypto: EngineView {
            peers: client.crypto.peers.insert(
                id,
                PeerView { is_authenticated: true, ..client.crypto.peers[id] },
            ),
            ..client.crypto
        },
        ..client
    }
}

/// A request to be authenticated, once it is known whether its proof is genuine: a forged one
/// changes nothing; a genuine one marks the peer, who is sent the client's own name with the code
/// over that name, the client's id and the peer's id.
pub proof fn granting_step(
    client: ClientView,
    sender: Seq<char>,
    genuine: bool,
    end: ClientView,
    res: Answer,
)
    requires
        client.grants(sender, genuine, end, res),
    ensures
        !genuine ==> end == client && res == Err::<Seq<NetworkMessageView>, ErrorView>(
            ErrorView::StateError("Peer authentication failed"@),
        ),
        genuine && !client.crypto.peers.contains_key(sender) ==> end == client && res == Err::<
            Seq<NetworkMessageView>,
            ErrorView,
        >(ErrorView::StateError("Peer not found"@)),
        genuine && client.crypto.peers.contains_key(sender) ==> end == trusting(client, sender)
            && match client.crypto.peers[sender].session_key {
            None => res == Err::<Seq<NetworkMessageView>, ErrorView>(
                ErrorView::StateError("Session key missing"@),
            ),
            Some(key) => exists|sent: Result<NetworkMessageView, ErrorView>|
                is_only(res, sent) && #[trigger] went_to_peer(
                    client.crypto.transport_key,
                    key,
                    sender,
                    client.client_id,
                    codec::u32_bytes(1) + codec::text_bytes(client.username) + codec::blob_bytes(
                        code_for(key, client.username, client.client_id, sender),
                    ),
                    sent,
                ),
        },
{
    if genuine && client.crypto.peers.contains_key(sender) {
        if let Some(key) = client.crypto.peers[sender].session_key {
            let code = code_for(key, client.username, client.client_id, sender);
            let message = PeerMessageView::AuthResponse {
                username: client.username,
                auth_mac: code,
            };
            let sent = choose|sent: Result<NetworkMessageView, ErrorView>|
                res == client::lone(sent) && #[trigger] end.relays(sender, message, sent);
            peer_message_goes_out(end, sender, message, sent);
            assert(went_to_peer(
                client.crypto.transport_key,
                key,
                sender,
                client.client_id,
                codec::u32_bytes(1) + codec::text_bytes(client.username) + codec::blob_bytes(code),
                sent,
            ));
        }
    }
}

/// A reply to the client's own proof, once it is known whether the peer's is genuine: a forged one
/// changes nothing; a genuine one marks the peer, and nothing is sent.
pub proof fn accepting_step(client: ClientView, sender: Seq<char>, genuine: bool)
    ensures
        !genuine ==> client.accepting(sender, genuine) == (
            client,
            Err::<Seq<NetworkMessageView>, ErrorView>(
                ErrorView::StateError("Peer authentication failed"@),
            ),
        ),
        genuine && !client.crypto.peers.contains_key(sender) ==> client.accepting(sender, genuine)
            == (
            client,
            Err::<Seq<NetworkMessageView>, ErrorView>(ErrorView::StateError("Peer not found"@)),
        ),
        genuine && client.crypto.peers.contains_key(sender) ==> client.accepting(sender, genuine)
            == (
            trusting(client, sender),
            Ok::<Seq<NetworkMessageView>, ErrorView>(Seq::empty()),
        ),
{
}

/// A proof of identity that is heard is genuine exactly where its code is the one over the whole
/// name that it gives, the sender's id and the client's id, under their session key.
pub proof fn proof_of_identity_step(
    client: ClientView,
    sender: Seq<char>,
    username: Seq<char>,
    auth_mac: Seq<u8>,
    end: ClientView,
    res: Answer,
    asks: bool,
)
    requires
        client.hears(
            sender,
            if asks {
                PeerMessageView::AuthRequest { username, auth_mac }
            } else {
                PeerMessageView::AuthResponse { username, auth_mac }
            },
            end,
            res,
        ),
    ensures
        !client.crypto.peers.contains_key(sender) ==> end == client && res == Err::<
            Seq<NetworkMessageView>,
            ErrorView,
        >(ErrorView::StateError("Peer not found"@)),
        client.crypto.peers.contains_key(sender) ==> match client.crypto.peers[sender].session_key {
            None => end == client && res == Err::<Seq<NetworkMessageView>, ErrorView>(
                ErrorView::StateError("Session key missing"@),
            ),
            Some(key) => {
                let genuine = auth_mac == code_for(key, username, sender, client.client_id);
                &&& !genuine ==> end == client && res == Err::<Seq<NetworkMessageView>, ErrorView>(
                    ErrorView::StateError("Peer authentication failed"@),
                )
                &&& genuine ==> end == trusting(client, sender)
                &&& genuine && asks ==> client.grants(sender, true, end, res)
                &&& genuine && !asks ==> res == Ok::<Seq<NetworkMessageView>, ErrorView>(
                    Seq::empty(),
                )
            },
        },
{
}

/// Chat that is heard goes to the end of the inbox as it was sent, with its sender, where the
/// sender is authenticated, and is refused where it is not. Nothing is sent in return.
pub proof fn chat_step(
    client: ClientView,
    sender: Seq<char>,
    timestamp: u64,
    content: Seq<char>,
    end: ClientView,
    res: Answer,
)
    requires
        client.hears(sender, PeerMessageView::ChatMessage { timestamp, content }, end, res),
    ensures
        if client.crypto.peers.contains_key(sender) && client.crypto.peers[sender].is_authenticated {
            &&& end == (ClientView {
                chat_inbox: client.chat_inbox.push((sender, timestamp, content)),
                ..client
            })
            &&& res matches Ok(sent) && sent.len() == 0
        } else {
            &&& end == client
            &&& res == Err::<Seq<NetworkMessageView>, ErrorView>(
                ErrorView::StateError("Received chat message from unauthenticated peer"@),
            )
        },
{
}

/// Chat that is sent holds the timestamp and the whole content, for the peer that it is meant for,
/// under the session key of that peer. It asks for a room and an authenticated peer.
pub proof fn chat_goes_out_whole(
    client: ClientView,
    target: Seq<char>,
    timestamp: u64,
    content: Seq<char>,
    res: Result<NetworkMessageView, ErrorView>,
)
    requires
        client.chats(target, timestamp, content, res),
    ensures
        client.state != ClientState::RoomJoined ==> res == Err::<NetworkMessageView, ErrorView>(
            ErrorView::StateError("Cannot send chat before joining a room"@),
        ),
        client.state == ClientState::RoomJoined && !(client.crypto.peers.contains_key(target)
            && client.crypto.peers[target].is_authenticated) ==> res == Err::<
            NetworkMessageView,
            ErrorView,
        >(ErrorView::StateError("Cannot send chat to unauthenticated peer"@)),
        client.state == ClientState::RoomJoined && client.crypto.peers.contains_key(target)
            && client.crypto.peers[target].is_authenticated
            ==> match client.crypto.peers[target].session_key {
            None => res == Err::<NetworkMessageView, ErrorView>(
                ErrorView::StateError("Session key missing"@),
            ),
            Some(key) => went_to_peer(
                client.crypto.transport_key,
                key,
                target,
                client.client_id,
                codec::u32_bytes(2) + codec::u64_bytes(timestamp) + codec::text_bytes(content),
                res,
            ),
        },
{
    if client.chat_refusal(target) is None {
        peer_message_goes_out(
            client,
            target,
            PeerMessageView::ChatMessage { timestamp, content },
            res,
        );
    }
}

/// The binary form of an offer of a public key from one client to another.
pub open spec fn offer_bytes(target: Seq<char>, sender: Seq<char>, client_pk: Seq<u8>) -> Seq<u8> {
    codec::u32_bytes(2) + codec::text_bytes(target) + codec::text_bytes(sender)
        + codec::blob_bytes(client_pk)
}

/// Whether the offer of a public key to a member fits the cipher.
pub open spec fn offer_fits(member: Seq<char>, own_id: Seq<char>) -> bool {
    4 + 8 + vstd::utf8::encode_utf8(member).len() + 8 + vstd::utf8::encode_utf8(own_id).len() + 8
        + 1568 <= 68719476736
}

/// Whether a message holds, sealed under the transport key, the offer to a member of the public
/// half of this key pair.
pub open spec fn offers_key_pair(
    transport_key: Seq<u8>,
    own_id: Seq<char>,
    sent: NetworkMessageView,
    member: Seq<char>,
    sk: Seq<u8>,
) -> bool {
    &&& sk.len() == 64
    &&& kem::is_encapsulation_key(kem::ml_kem_1024_encapsulation_key(sk))
    &&& went_to_server(
        Some(transport_key),
        offer_bytes(member, own_id, kem::ml_kem_1024_encapsulation_key(sk)),
        Ok(sent),
    )
}

/// Whether the sessions after inviting these members, in this order, differ from those before in
/// nothing but that each of them holds the secret half of a key pair.
pub open spec fn await_members(
    before: Map<Seq<char>, PeerView>,
    after: Map<Seq<char>, PeerView>,
    members: Seq<Seq<char>>,
) -> bool {
    forall|id: Seq<char>| #[trigger]
        after.contains_key(id) == (before.contains_key(id) || members.contains(id)) && if members.contains(
            id,
        ) {
            &&& after[id].pending_kem_sk matches Some(sk)
            &&& sk.len() == 64
            &&& kem::is_encapsulation_key(kem::ml_kem_1024_encapsulation_key(sk))
            &&& after[id].session_key == if before.contains_key(id) {
                before[id].session_key
            } else {
                None
            }
            &&& after[id].is_authenticated == (before.contains_key(id)
                && before[id].is_authenticated)
        } else {
            before.contains_key(id) ==> after[id] == before[id]
        }
}

/// Whether one member was offered a key pair whose secret half is kept, the sessions of all others
/// staying as they are.
proof fn one_invitation(
    before: ClientView,
    member: Seq<char>,
    end: ClientView,
    res: Result<NetworkMessageView, ErrorView>,
)
    requires
        before.invites(member, end, res),
    ensures
        end == (ClientView {
            crypto: EngineView { peers: end.crypto.peers, ..before.crypto },
            ..before
        }),
        await_members(before.crypto.peers, end.crypto.peers, seq![member]),
        before.crypto.transport_key is None ==> res == Err::<NetworkMessageView, ErrorView>(
            ErrorView::StateError("Transport key not established"@),
        ),
        before.crypto.transport_key matches Some(key) ==> if offer_fits(member, before.client_id) {
            res matches Ok(sent) && offers_key_pair(
                key,
                before.client_id,
                sent,
                member,
                end.crypto.peers[member].pending_kem_sk->0,
            )
        } else {
            res == Err::<NetworkMessageView, ErrorView>(
                ErrorView::EncryptionFailed("AES-GCM encryption failed"@),
            )
        },
{
    let sk = end.crypto.peers[member].pending_kem_sk->0;
    let client_pk = kem::ml_kem_1024_encapsulation_key(sk);
    let message = ServerMessageView::PeerExchangeInit {
        target_client_id: member,
        sender_client_id: before.client_id,
        client_pk,
    };
    server_message_goes_out(end, message, res);
    assert(crate::wire::server_message_bytes(message) =~= offer_bytes(
        member,
        before.client_id,
        client_pk,
    ));
    assert(seq![member][0] == member);
    assert(forall|id: Seq<char>| seq![member].contains(id) ==> id == member);
}

proof fn awaiting_composes(
    before: Map<Seq<char>, PeerView>,
    middle: Map<Seq<char>, PeerView>,
    after: Map<Seq<char>, PeerView>,
    members: Seq<Seq<char>>,
    last: Seq<char>,
)
    requires
        await_members(before, middle, members),
        await_members(middle, after, seq![last]),
    ensures
        await_members(before, after, members.push(last)),
{
    assert(seq![last][0] == last);
    assert forall|id: Seq<char>| members.push(last).contains(id) == (members.contains(id) || id
        == last) by {
        if members.contains(id) {
            let i = choose|i: int| 0 <= i < members.len() && members[i] == id;
            assert(members.push(last)[i] == id);
        }
        assert(members.push(last)[members.len() as int] == last);
        if members.push(last).contains(id) && id != last {
            let i = choose|i: int|
                0 <= i < members.push(last).len() && members.push(last)[i] == id;
            assert(members[i] == id);
        }
    }
    assert(forall|id: Seq<char>| seq![last].contains(id) == (id == last));
    assert forall|id: Seq<char>| #[trigger]
        after.contains_key(id) == (before.contains_key(id) || members.push(last).contains(id))
            && if members.push(last).contains(id) {
            &&& after[id].pending_kem_sk matches Some(sk)
            &&& sk.len() == 64
            &&& kem::is_encapsulation_key(kem::ml_kem_1024_encapsulation_key(sk))
            &&& after[id].session_key == if before.contains_key(id) {
                before[id].session_key
            } else {
                None
            }
            &&& after[id].is_authenticated == (before.contains_key(id)
                && before[id].is_authenticated)
        } else {
            before.contains_key(id) ==> after[id] == before[id]
        } by {
        assert(middle.contains_key(id) == (before.contains_key(id) || members.contains(id)));
    }
}

/// Whether a message holds, sealed under the transport key, the offer of a public key to a member.
pub open spec fn offers_some_key_pair(
    transport_key: Seq<u8>,
    own_id: Seq<char>,
    sent: NetworkMessageView,
    member: Seq<char>,
) -> bool {
    exists|sk: Seq<u8>| #[trigger]
        offers_key_pair(transport_key, own_id, sent, member, sk)
}

/// Whether no later entry of a list is the same.
pub open spec fn is_last_entry(members: Seq<Seq<char>>, i: int) -> bool {
    forall|j: int| i < j < members.len() ==> #[trigger] members[j] != members[i]
}

/// Whether each of these members was sent one offer, in this order, and the last offer to each
/// is of the key pair that is kept for it.
pub open spec fn each_is_offered_its_key(
    transport_key: Seq<u8>,
    own_id: Seq<char>,
    members: Seq<Seq<char>>,
    peers: Map<Seq<char>, PeerView>,
    sent: Seq<NetworkMessageView>,
) -> bool {
    &&& sent.len() == members.len()
    &&& forall|i: int|
        0 <= i < members.len() ==> offers_some_key_pair(
            transport_key,
            own_id,
            #[trigger] sent[i],
            members[i],
        )
    &&& forall|i: int|
        0 <= i < members.len() && is_last_entry(members, i) ==> offers_key_pair(
            transport_key,
            own_id,
            #[trigger] sent[i],
            members[i],
            peers[members[i]].pending_kem_sk->0,
        )
}

proof fn offering_extends(
    transport_key: Seq<u8>,
    own_id: Seq<char>,
    members: Seq<Seq<char>>,
    last: Seq<char>,
    before: Map<Seq<char>, PeerView>,
    after: Map<Seq<char>, PeerView>,
    sent: Seq<NetworkMessageView>,
    newest: NetworkMessageView,
)
    requires
        each_is_offered_its_key(transport_key, own_id, members, before, sent),
        forall|i: int| 0 <= i < members.len() ==> before.contains_key(#[trigger] members[i]),
        await_members(before, after, seq![last]),
        offers_key_pair(transport_key, own_id, newest, last, after[last].pending_kem_sk->0),
    ensures
        each_is_offered_its_key(
            transport_key,
            own_id,
            members.push(last),
            after,
            sent.push(newest),
        ),
{
    let all = members.push(last);
    let out = sent.push(newest);
    assert forall|i: int| 0 <= i < all.len() implies offers_some_key_pair(
        transport_key,
        own_id,
        #[trigger] out[i],
        all[i],
    ) by {
        if i < members.len() {
            assert(out[i] == sent[i] && all[i] == members[i]);
        } else {
            assert(offers_key_pair(
                transport_key,
                own_id,
                out[i],
                all[i],
                after[last].pending_kem_sk->0,
            ));
        }
    }
    assert forall|i: int| 0 <= i < all.len() && is_last_entry(all, i) implies offers_key_pair(
        transport_key,
        own_id,
        #[trigger] out[i],
        all[i],
        after[all[i]].pending_kem_sk->0,
    ) by {
        if i < members.len() {
            assert(out[i] == sent[i] && all[i] == members[i]);
            assert(all[members.len() as int] == last);
            assert(members[i] != last);
            assert(!seq![last].contains(members[i]));
            assert forall|j: int| i < j < members.len() implies #[trigger] members[j]
                != members[i] by {
                assert(all[j] == members[j]);
            }
            assert(is_last_entry(members, i));
            assert(before.contains_key(members[i]));
            assert(after.contains_key(members[i]) == (before.contains_key(members[i])
                || seq![last].contains(members[i])));
            assert(after[members[i]] == before[members[i]]);
        }
    }
}

/// The members of a list other than one of them.
pub open spec fn without(members: Seq<Seq<char>>, own_id: Seq<char>) -> Seq<Seq<char>> {
    members.filter(|member: Seq<char>| member != own_id)
}

proof fn all_invitations(
    client: ClientView,
    members: Seq<Seq<char>>,
    end: ClientView,
    sent: Seq<NetworkMessageView>,
)
    requires
        client.invites_all(members, end, sent),
    ensures
        end == (ClientView {
            crypto: EngineView { peers: end.crypto.peers, ..client.crypto },
            ..client
        }),
        await_members(
            client.crypto.peers,
            end.crypto.peers,
            without(members, client.client_id),
        ),
        client.crypto.transport_key is None ==> without(members, client.client_id).len() == 0
            && sent.len() == 0,
        client.crypto.transport_key matches Some(key) ==> {
            &&& each_is_offered_its_key(
                key,
                client.client_id,
                without(members, client.client_id),
                end.crypto.peers,
                sent,
            )
            &&& forall|i: int|
                0 <= i < without(members, client.client_id).len() ==> offer_fits(
                    #[trigger] without(members, client.client_id)[i],
                    client.client_id,
                )
        },
    decreases members.len(),
{
    reveal(Seq::filter);
    let own_id = client.client_id;
    if members.len() > 0 {
        let earlier = members.drop_last();
        if members.last() == own_id {
            all_invitations(client, earlier, end, sent);
        } else {
            let before = choose|before: ClientView|
                client.invites_all(earlier, before, sent.drop_last()) && #[trigger] before.invites(
                    members.last(),
                    end,
                    Ok(sent.last()),
                );
            all_invitations(client, earlier, before, sent.drop_last());
            one_invitation(before, members.last(), end, Ok(sent.last()));
            let prior = without(earlier, own_id);
            let all = without(members, own_id);
            assert(all == prior.push(members.last()));
            awaiting_composes(
                client.crypto.peers,
                before.crypto.peers,
                end.crypto.peers,
                prior,
                members.last(),
            );
            assert(sent.drop_last().push(sent.last()) =~= sent);
            if let Some(key) = client.crypto.transport_key {
                assert forall|i: int| 0 <= i < prior.len() implies before.crypto.peers.contains_key(
                    #[trigger] prior[i],
                ) by {
                    assert(prior.contains(prior[i]));
                }
                offering_extends(
                    key,
                    own_id,
                    prior,
                    members.last(),
                    before.crypto.peers,
                    end.crypto.peers,
                    sent.drop_last(),
                    sent.last(),
                );
            }
        }
    }
}

/// A list of the room's members, in whatever state it finds the client, takes the client into the
/// room and invites every other member: where it succeeds, each was sent one offer of a public
/// key, in the order of the list, sealed under the transport key; of the key pair that was offered
/// last to it, the client keeps the secret half. Sessions and marks stay, and nothing else
/// changes.
pub proof fn member_list_invites_every_other_member(
    client: ClientView,
    members: Seq<Seq<char>>,
    end: ClientView,
    sent: Seq<NetworkMessageView>,
)
    requires
        client.handles(ServerMessageView::RoomMembers { members }, end, Ok(sent)),
    ensures
        end == (ClientView {
            state: ClientState::RoomJoined,
            crypto: EngineView { peers: end.crypto.peers, ..client.crypto },
            ..client
        }),
        await_members(
            client.crypto.peers,
            end.crypto.peers,
            without(members, client.client_id),
        ),
        client.crypto.transport_key matches Some(key) ==> each_is_offered_its_key(
            key,
            client.client_id,
            without(members, client.client_id),
            end.crypto.peers,
            sent,
        ),
        client.crypto.transport_key is None ==> sent.len() == 0 && without(
            members,
            client.client_id,
        ).len() == 0,
{
    let joined = ClientView { state: ClientState::RoomJoined, ..client };
    all_invitations(joined, members, end, sent);
}

/// The members other than one are those that differ from it, and no others.
pub proof fn others_are_those_that_differ(
    members: Seq<Seq<char>>,
    own_id: Seq<char>,
    id: Seq<char>,
)
    ensures
        without(members, own_id).contains(id) <==> members.contains(id) && id != own_id,
        without(members, own_id).len() <= members.len(),
    decreases members.len(),
{
    reveal(Seq::filter);
    if members.len() > 0 {
        let earlier = members.drop_last();
        let prior = without(earlier, own_id);
        let all = without(members, own_id);
        others_are_those_that_differ(earlier, own_id, id);
        assert(members[members.len() - 1] == members.last());
        if earlier.contains(id) {
            let i = choose|i: int| 0 <= i < earlier.len() && earlier[i] == id;
            assert(members[i] == id);
        }
        if members.contains(id) && id != members.last() {
            let i = choose|i: int| 0 <= i < members.len() && members[i] == id;
            assert(earlier[i] == id);
        }
        if members.last() != own_id {
            assert(all == prior.push(members.last()));
            assert(all[prior.len() as int] == members.last());
            if prior.contains(id) {
                let i = choose|i: int| 0 <= i < prior.len() && prior[i] == id;
                assert(all[i] == id);
            }
            if all.contains(id) && id != members.last() {
                let i = choose|i: int| 0 <= i < all.len() && all[i] == id;
                assert(prior[i] == id);
            }
        }
    }
}

/// Handling a list of members fails at the first other member whom no offer can be sealed for:
/// for want of a transport key, or because the two ids are too long for the cipher. The members
/// before it were invited, its own key pair is kept as well, and nothing else changes but that the
/// client is in the room.
pub proof fn member_list_fails_at_the_first_that_cannot_be_invited(
    client: ClientView,
    members: Seq<Seq<char>>,
    end: ClientView,
    error: ErrorView,
)
    requires
        client.handles(ServerMessageView::RoomMembers { members }, end, Err(error)),
    ensures
        end == (ClientView {
            state: ClientState::RoomJoined,
            crypto: EngineView { peers: end.crypto.peers, ..client.crypto },
            ..client
        }),
        exists|n: int|
            {
                &&& 0 <= n < members.len()
                &&& members[n] != client.client_id
                &&& await_members(
                    client.crypto.peers,
                    end.crypto.peers,
                    without(#[trigger] members.take(n), client.client_id).push(members[n]),
                )
                &&& match client.crypto.transport_key {
                    None => {
                        &&& error == ErrorView::StateError("Transport key not established"@)
                        &&& without(members.take(n), client.client_id).len() == 0
                    },
                    Some(_) => {
                        &&& error == ErrorView::EncryptionFailed("AES-GCM encryption failed"@)
                        &&& !offer_fits(members[n], client.client_id)
                        &&& forall|i: int|
                            0 <= i < without(members.take(n), client.client_id).len()
                                ==> offer_fits(
                                #[trigger] without(members.take(n), client.client_id)[i],
                                client.client_id,
                            )
                    },
                }
            },
{
    let joined = ClientView { state: ClientState::RoomJoined, ..client };
    let (n, before, sent) = choose|n: int, before: ClientView, sent: Seq<NetworkMessageView>|
        0 <= n < members.len() && members[n] != joined.client_id
            && #[trigger] joined.invites_all(members.take(n), before, sent) && before.invites(
            members[n],
            end,
            Err(error),
        );
    all_invitations(joined, members.take(n), before, sent);
    one_invitation(before, members[n], end, Err(error));
    awaiting_composes(
        client.crypto.peers,
        before.crypto.peers,
        end.crypto.peers,
        without(members.take(n), client.client_id),
        members[n],
    );
}

/// Handling a list of members succeeds exactly where an offer can be sealed for each of them but
/// the client itself.
pub proof fn member_list_succeeds_where_all_can_be_invited(
    client: ClientView,
    members: Seq<Seq<char>>,
    end: ClientView,
    res: Answer,
)
    requires
        client.handles(ServerMessageView::RoomMembers { members }, end, res),
    ensures
        res is Ok <==> forall|i: int|
            0 <= i < members.len() && #[trigger] members[i] != client.client_id
                ==> client.crypto.transport_key is Some && offer_fits(
                members[i],
                client.client_id,
            ),
{
    let own_id = client.client_id;
    let joined = ClientView { state: ClientState::RoomJoined, ..client };
    match res {
        Ok(sent) => {
            all_invitations(joined, members, end, sent);
            assert forall|i: int|
                0 <= i < members.len() && #[trigger] members[i]
                    != own_id implies client.crypto.transport_key is Some && offer_fits(
                members[i],
                own_id,
            ) by {
                assert(members.contains(members[i]));
                others_are_those_that_differ(members, own_id, members[i]);
                let j = choose|j: int|
                    0 <= j < without(members, own_id).len() && without(members, own_id)[j]
                        == members[i];
                assert(offer_fits(without(members, own_id)[j], own_id)
                    || client.crypto.transport_key is None);
            }
        },
        Err(error) => {
            member_list_fails_at_the_first_that_cannot_be_invited(client, members, end, error);
            let n = choose|n: int|
                {
                    &&& 0 <= n < members.len()
                    &&& members[n] != own_id
                    &&& await_members(
                        client.crypto.peers,
                        end.crypto.peers,
                        without(#[trigger] members.take(n), own_id).push(members[n]),
                    )
                    &&& match client.crypto.transport_key {
                        None => {
                            &&& error == ErrorView::StateError("Transport key not established"@)
                            &&& without(members.take(n), own_id).len() == 0
                        },
                        Some(_) => {
                            &&& error == ErrorView::EncryptionFailed("AES-GCM encryption failed"@)
                            &&& !offer_fits(members[n], own_id)
                            &&& forall|i: int|
                                0 <= i < without(members.take(n), own_id).len() ==> offer_fits(
                                    #[trigger] without(members.take(n), own_id)[i],
                                    own_id,
                                )
                        },
                    }
                };
            assert(members[n] != own_id);
        },
    }
}

} // verus!
