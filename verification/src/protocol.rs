//! The messages that travel between client, server and peers.
use vstd::prelude::*;

verus! {

/// What client and server exchange on the wire.
#[derive(Debug, Clone, PartialEq, Eq)]
pub enum NetworkMessage {
    ServerHello { server_pk: Vec<u8> },
    ClientKeyExchange { client_pk: Vec<u8> },
    ServerKeyExchange { ciphertext: Vec<u8>, signature: Vec<u8> },
    EncryptedPayload(ServerEnvelope),
}

/// A server message, sealed under the transport key.
#[derive(Debug, Clone, PartialEq, Eq)]
pub struct ServerEnvelope {
    pub nonce: [u8; 12],
    pub ciphertext: Vec<u8>,
}

/// What client and server say to each other once the transport is secured.
#[derive(Debug, Clone, PartialEq, Eq)]
pub enum ServerMessage {
    JoinRoom { room_id: String },
    RoomMembers { members: Vec<String> },
    PeerExchangeInit { target_client_id: String, sender_client_id: String, client_pk: Vec<u8> },
    PeerExchangeResponse {
        target_client_id: String,
        sender_client_id: String,
        ciphertext: Vec<u8>,
    },
    RelayPeerMessage {
        target_client_id: String,
        sender_client_id: String,
        peer_envelope: PeerEnvelope,
    },
}

/// A peer message, sealed under the session key of two peers.
#[derive(Debug, Clone, PartialEq, Eq)]
pub struct PeerEnvelope {
    pub nonce: [u8; 24],
    pub ciphertext: Vec<u8>,
}

/// What two peers say to each other, unseen by the server.
#[derive(Debug, Clone, PartialEq, Eq)]
pub enum PeerMessage {
    AuthRequest { username: String, auth_mac: Vec<u8> },
    AuthResponse { username: String, auth_mac: Vec<u8> },
    ChatMessage { timestamp: u64, content: String },
}

/// The contents of a `NetworkMessage`.
#[verifier::ext_equal]
pub enum NetworkMessageView {
    ServerHello { server_pk: Seq<u8> },
    ClientKeyExchange { client_pk: Seq<u8> },
    ServerKeyExchange { ciphertext: Seq<u8>, signature: Seq<u8> },
    EncryptedPayload(EnvelopeView),
}

/// The contents of a `ServerEnvelope` or of a `PeerEnvelope`.
#[verifier::ext_equal]
pub struct EnvelopeView {
    pub nonce: Seq<u8>,
    pub ciphertext: Seq<u8>,
}

/// The contents of a `ServerMessage`.
#[verifier::ext_equal]
pub enum ServerMessageView {
    JoinRoom { room_id: Seq<char> },
    RoomMembers { members: Seq<Seq<char>> },
    PeerExchangeInit {
        target_client_id: Seq<char>,
        sender_client_id: Seq<char>,
        client_pk: Seq<u8>,
    },
    PeerExchangeResponse {
        target_client_id: Seq<char>,
        sender_client_id: Seq<char>,
        ciphertext: Seq<u8>,
    },
    RelayPeerMessage {
        target_client_id: Seq<char>,
        sender_client_id: Seq<char>,
        peer_envelope: EnvelopeView,
    },
}

/// The contents of a `PeerMessage`.
#[verifier::ext_equal]
pub enum PeerMessageView {
    AuthRequest { username: Seq<char>, auth_mac: Seq<u8> },
    AuthResponse { username: Seq<char>, auth_mac: Seq<u8> },
    ChatMessage { timestamp: u64, content: Seq<char> },
}

impl View for NetworkMessage {
    type V = NetworkMessageView;

    open spec fn view(&self) -> NetworkMessageView {
        match self {
            NetworkMessage::ServerHello { server_pk } => NetworkMessageView::ServerHello {
                server_pk: server_pk@,
            },
            NetworkMessage::ClientKeyExchange { client_pk } => {
                NetworkMessageView::ClientKeyExchange { client_pk: client_pk@ }
            },
            NetworkMessage::ServerKeyExchange { ciphertext, signature } => {
                NetworkMessageView::ServerKeyExchange {
                    ciphertext: ciphertext@,
                    signature: signature@,
                }
            },
            NetworkMessage::EncryptedPayload(envelope) => NetworkMessageView::EncryptedPayload(
                envelope@,
            ),
        }
    }
}

impl DeepView for NetworkMessage {
    type V = NetworkMessageView;

    open spec fn deep_view(&self) -> NetworkMessageView {
        self@
    }
}

impl View for ServerEnvelope {
    type V = EnvelopeView;

    open spec fn view(&self) -> EnvelopeView {
        EnvelopeView { nonce: self.nonce@, ciphertext: self.ciphertext@ }
    }
}

impl View for ServerMessage {
    type V = ServerMessageView;

    open spec fn view(&self) -> ServerMessageView {
        match self {
            ServerMessage::JoinRoom { room_id } => ServerMessageView::JoinRoom {
                room_id: room_id@,
            },
            ServerMessage::RoomMembers { members } => ServerMessageView::RoomMembers {
                members: members.deep_view(),
            },
            ServerMessage::PeerExchangeInit { target_client_id, sender_client_id, client_pk } => {
                ServerMessageView::PeerExchangeInit {
                    target_client_id: target_client_id@,
                    sender_client_id: sender_client_id@,
                    client_pk: client_pk@,
                }
            },
            ServerMessage::PeerExchangeResponse {
                target_client_id,
                sender_client_id,
                ciphertext,
            } => {
                ServerMessageView::PeerExchangeResponse {
                    target_client_id: target_client_id@,
                    sender_client_id: sender_client_id@,
                    ciphertext: ciphertext@,
                }
            },
            ServerMessage::RelayPeerMessage {
                target_client_id,
                sender_client_id,
                peer_envelope,
            } => {
                ServerMessageView::RelayPeerMessage {
                    target_client_id: target_client_id@,
                    sender_client_id: sender_client_id@,
                    peer_envelope: peer_envelope@,
                }
            },
        }
    }
}

impl View for PeerEnvelope {
    type V = EnvelopeView;

    open spec fn view(&self) -> EnvelopeView {
        EnvelopeView { nonce: self.nonce@, ciphertext: self.ciphertext@ }
    }
}

impl View for PeerMessage {
    type V = PeerMessageView;

    open spec fn view(&self) -> PeerMessageView {
        match self {
            PeerMessage::AuthRequest { username, auth_mac } => PeerMessageView::AuthRequest {
                username: username@,
                auth_mac: auth_mac@,
            },
            PeerMessage::AuthResponse { username, auth_mac } => PeerMessageView::AuthResponse {
                username: username@,
                auth_mac: auth_mac@,
            },
            PeerMessage::ChatMessage { timestamp, content } => PeerMessageView::ChatMessage {
                timestamp: *timestamp,
                content: content@,
            },
        }
    }
}

} // verus!
