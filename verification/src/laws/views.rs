//! What the contracts see of a value is all that it holds, and errors are told apart.
use crate::client::{self, ChatClient, ClientView};
use crate::crypto_engine::{CryptoEngine, EngineView};
use crate::error::{self, CryptoError, ErrorView};
use crate::peers::{PeerSession, PeerView};
use crate::primitives::system;
use crate::protocol::{
    EnvelopeView, NetworkMessage, NetworkMessageView, PeerEnvelope, PeerMessage, PeerMessageView,
    ServerEnvelope, ServerMessage, ServerMessageView,
};
use crate::wire;
use vstd::prelude::*;

verus! {

/// A network message is seen with each of its fields under its own name.
pub proof fn network_messages_are_seen_whole(message: NetworkMessage)
    ensures
        match message {
            NetworkMessage::ServerHello { server_pk } => {
                message@ == NetworkMessageView::ServerHello { server_pk: server_pk@ }
            },
            NetworkMessage::ClientKeyExchange { client_pk } => {
                message@ == NetworkMessageView::ClientKeyExchange { client_pk: client_pk@ }
            },
            NetworkMessage::ServerKeyExchange { ciphertext, signature } => {
                message@ == NetworkMessageView::ServerKeyExchange {
                    ciphertext: ciphertext@,
                    signature: signature@,
                }
            },
            NetworkMessage::EncryptedPayload(ServerEnvelope { nonce, ciphertext }) => {
                message@ == NetworkMessageView::EncryptedPayload(
                    EnvelopeView { nonce: nonce@, ciphertext: ciphertext@ },
                )
            },
        },
        message.deep_view() == message@,
{
}

/// A server message is seen with each of its fields under its own name.
pub proof fn server_messages_are_seen_whole(message: ServerMessage)
    ensures
        match message {
            ServerMessage::JoinRoom { room_id } => {
                message@ == ServerMessageView::JoinRoom { room_id: room_id@ }
            },
            ServerMessage::RoomMembers { members } => {
                message@ == ServerMessageView::RoomMembers {
                    members: Seq::new(members@.len(), |i: int| members@[i]@),
                }
            },
            ServerMessage::PeerExchangeInit { target_client_id, sender_client_id, client_pk } => {
                message@ == ServerMessageView::PeerExchangeInit {
                    target_client_id: target_client_id@,
                    sender_client_id: sender_client_id@,
                    client_pk: client_pk@,
                }
            },
            ServerMessage::PeerExchangeResponse {
                target_client_id,
                sender_client_id,
                ciphertext,
            } => {
                message@ == ServerMessageView::PeerExchangeResponse {
                    target_client_id: target_client_id@,
                    sender_client_id: sender_client_id@,
                    ciphertext: ciphertext@,
                }
            },
            ServerMessage::RelayPeerMessage {
                target_client_id,
                sender_client_id,
                peer_envelope: PeerEnvelope { nonce, ciphertext },
            } => {
                message@ == ServerMessageView::RelayPeerMessage {
                    target_client_id: target_client_id@,
                    sender_client_id: sender_client_id@,
                    peer_envelope: EnvelopeView { nonce: nonce@, ciphertext: ciphertext@ },
                }
            },
        },
{
    if let ServerMessage::RoomMembers { members } = message {
        assert(members.deep_view() =~= Seq::new(members@.len(), |i: int| members@[i]@));
    }
}

/// A peer message is seen with each of its fields under its own name.
pub proof fn peer_messages_are_seen_whole(message: PeerMessage)
    ensures
        match message {
            PeerMessage::AuthRequest { username, auth_mac } => {
                message@ == PeerMessageView::AuthRequest {
                    username: username@,
                    auth_mac: auth_mac@,
                }
            },
            PeerMessage::AuthResponse { username, auth_mac } => {
                message@ == PeerMessageView::AuthResponse {
                    username: username@,
                    auth_mac: auth_mac@,
                }
            },
            PeerMessage::ChatMessage { timestamp, content } => {
                message@ == PeerMessageView::ChatMessage { timestamp, content: content@ }
            },
        },
{
}

/// An envelope is seen with its nonce and its ciphertext.
pub proof fn envelopes_are_seen_whole(for_server: ServerEnvelope, for_peer: PeerEnvelope)
    ensures
        for_server@ == (EnvelopeView {
            nonce: for_server.nonce@,
            ciphertext: for_server.ciphertext@,
        }),
        for_peer@ == (EnvelopeView { nonce: for_peer.nonce@, ciphertext: for_peer.ciphertext@ }),
{
}

/// A session is seen with its keys and its mark, an engine with its keys and its peers.
pub proof fn keys_are_seen_whole(session: PeerSession, engine: CryptoEngine)
    ensures
        session@.is_authenticated == session.is_authenticated,
        match session.pending_kem_sk {
            Some(sk) => session@.pending_kem_sk == Some(sk@),
            None => session@.pending_kem_sk is None,
        },
        match session.session_key {
            Some(key) => session@.session_key == Some(key@),
            None => session@.session_key is None,
        },
        match engine.server_dsa_pk {
            Some(key) => engine@.server_dsa_pk == Some(key@),
            None => engine@.server_dsa_pk is None,
        },
        match engine.pending_transport_sk {
            Some(sk) => engine@.pending_transport_sk == Some(sk@),
            None => engine@.pending_transport_sk is None,
        },
        match engine.transport_key {
            Some(key) => engine@.transport_key == Some(key@),
            None => engine@.transport_key is None,
        },
        engine@.peers == engine.peers@,
{
}

/// Optional bytes are seen as they are.
pub proof fn optional_bytes_are_seen_whole(bytes: Option<Vec<u8>>, key: Option<[u8; 32]>)
    ensures
        match bytes {
            Some(bytes) => crate::peers::bytes_view(Some(bytes)) == Some(bytes@),
            None => crate::peers::bytes_view(None) is None,
        },
        match key {
            Some(key) => crate::peers::key_view(Some(key)) == Some(key@),
            None => crate::peers::key_view(None) is None,
        },
{
}

/// A client is seen with its identity, its state, its engine and every entry of its inbox.
pub proof fn clients_are_seen_whole(client: ChatClient)
    ensures
        client@ == (ClientView {
            client_id: client.client_id@,
            username: client.username@,
            room_id: client.room_id@,
            room_password: client.room_password@,
            state: client.state,
            crypto: client.crypto@,
            chat_inbox: Seq::new(
                client.chat_inbox@.len(),
                |i: int|
                    (
                        client.chat_inbox@[i].0@,
                        client.chat_inbox@[i].1,
                        client.chat_inbox@[i].2@,
                    ),
            ),
        }),
{
    assert(client@.chat_inbox =~= Seq::new(
        client.chat_inbox@.len(),
        |i: int|
            (client.chat_inbox@[i].0@, client.chat_inbox@[i].1, client.chat_inbox@[i].2@),
    ));
}

/// What is new holds nothing.
pub proof fn what_is_new_is_empty(id: Seq<char>)
    ensures
        PeerView::fresh().pending_kem_sk is None,
        PeerView::fresh().session_key is None,
        !PeerView::fresh().is_authenticated,
        EngineView::fresh().server_dsa_pk is None,
        EngineView::fresh().pending_transport_sk is None,
        EngineView::fresh().transport_key is None,
        !EngineView::fresh().peers.contains_key(id),
{
}

/// An error is seen as the variant that it is, with its text.
pub proof fn errors_are_told_apart(error: CryptoError)
    ensures
        match error {
            CryptoError::InvalidSignature => error@ == ErrorView::InvalidSignature,
            CryptoError::KeyExchangeFailed(text) => error@ == ErrorView::KeyExchangeFailed(text@),
            CryptoError::EncryptionFailed(text) => error@ == ErrorView::EncryptionFailed(text@),
            CryptoError::KeyDerivationFailed(text) => {
                error@ == ErrorView::KeyDerivationFailed(text@)
            },
            CryptoError::StateError(text) => error@ == ErrorView::StateError(text@),
            CryptoError::SerializationError(text) => error@ == ErrorView::SerializationError(text@),
        },
{
}

/// An error is shown as the name of its variant and its quoted text.
pub proof fn errors_are_shown_by_name_and_text(text: Seq<char>)
    ensures
        ErrorView::InvalidSignature.text() == "InvalidSignature"@,
        ErrorView::KeyExchangeFailed(text).text() == "KeyExchangeFailed"@ + "("@ + system::quoted(
            text,
        ) + ")"@,
        ErrorView::EncryptionFailed(text).text() == "EncryptionFailed"@ + "("@ + system::quoted(
            text,
        ) + ")"@,
        ErrorView::KeyDerivationFailed(text).text() == "KeyDerivationFailed"@ + "("@
            + system::quoted(text) + ")"@,
        ErrorView::StateError(text).text() == "StateError"@ + "("@ + system::quoted(text) + ")"@,
        ErrorView::SerializationError(text).text() == "SerializationError"@ + "("@
            + system::quoted(text) + ")"@,
{
}

/// An outcome is seen as the success or the failure that it is.
pub proof fn outcomes_are_seen_whole<T: View>(
    res: Result<T, CryptoError>,
    answer: Result<Vec<NetworkMessage>, CryptoError>,
    sent: Result<NetworkMessageView, ErrorView>,
    read: Result<T, Seq<char>>,
)
    ensures
        match res {
            Ok(value) => error::outcome(res) == Ok::<T::V, ErrorView>(value@),
            Err(error) => error::outcome(res) == Err::<T::V, ErrorView>(error@),
        },
        match answer {
            Ok(messages) => client::answer(answer) == Ok::<Seq<NetworkMessageView>, ErrorView>(
                Seq::new(messages@.len(), |i: int| messages@[i]@),
            ),
            Err(error) => client::answer(answer) == Err::<Seq<NetworkMessageView>, ErrorView>(
                error@,
            ),
        },
        match sent {
            Ok(message) => client::lone(sent) == Ok::<Seq<NetworkMessageView>, ErrorView>(
                seq![message],
            ),
            Err(error) => client::lone(sent) == Err::<Seq<NetworkMessageView>, ErrorView>(error),
        },
        match read {
            Ok(value) => wire::serialization_outcome(read) == Ok::<T, ErrorView>(value),
            Err(message) => wire::serialization_outcome(read) == Err::<T, ErrorView>(
                ErrorView::SerializationError(message),
            ),
        },
{
    if let Ok(messages) = answer {
        assert(messages.deep_view() =~= Seq::new(messages@.len(), |i: int| messages@[i]@));
    }
}

} // verus!
