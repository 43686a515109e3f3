//! The chat client: a state machine that is fed network messages and says what to send.
use crate::crypto_engine::{self, CryptoEngine, CryptoError, EngineView};
use crate::error::{self, ErrorView};
use crate::primitives::{kdf, kem, signature, system};
use crate::protocol::{
    EnvelopeView, NetworkMessage, NetworkMessageView, PeerMessage, PeerMessageView, ServerEnvelope,
    ServerMessage, ServerMessageView,
};
use vstd::prelude::*;
use vstd::slice::slice_to_vec;

verus! {

/// How far the client has come.
#[derive(Debug, Clone, PartialEq, Eq, Structural)]
pub enum ClientState {
    Disconnected,
    WaitingForServerKey,
    Connected,
    RoomJoined,
}

/// A participant in one room.
pub struct ChatClient {
    pub client_id: String,
    pub username: String,
    pub room_id: String,
    pub room_password: String,
    pub state: ClientState,
    pub crypto: CryptoEngine,
    pub chat_inbox: Vec<(String, u64, String)>,
}

/// The contents of a `ChatClient`. The inbox holds sender, timestamp and content.
#[verifier::ext_equal]
pub struct ClientView {
    pub client_id: Seq<char>,
    pub username: Seq<char>,
    pub room_id: Seq<char>,
    pub room_password: Seq<char>,
    pub state: ClientState,
    pub crypto: EngineView,
    pub chat_inbox: Seq<(Seq<char>, u64, Seq<char>)>,
}

impl View for ChatClient {
    type V = ClientView;

    open spec fn view(&self) -> ClientView {
        ClientView {
            client_id: self.client_id@,
            username: self.username@,
            room_id: self.room_id@,
            room_password: self.room_password@,
            state: self.state,
            crypto: self.crypto@,
            chat_inbox: self.chat_inbox.deep_view(),
        }
    }
}

/// The salt that a room's password is hashed with: the room's id, filled up with zeros to
/// sixteen bytes where it is shorter.
pub open spec fn room_salt(room_id: Seq<char>) -> Seq<u8> {
    let id = vstd::utf8::encode_utf8(room_id);
    if id.len() < 16 {
        id + Seq::new((16 - id.len()) as nat, |i: int| 0u8)
    } else {
        id
    }
}

/// The seconds since the Unix epoch where the clock gives any, and zero where it stands before
/// the epoch.
pub open spec fn stamp_of(seconds: Option<u64>) -> u64 {
    match seconds {
        Some(seconds) => seconds,
        None => 0,
    }
}

/// What a client answers, or why it does not.
pub type Answer = Result<Seq<NetworkMessageView>, ErrorView>;

/// An answer by the views of its messages.
pub open spec fn answer(res: Result<Vec<NetworkMessage>, CryptoError>) -> Answer {
    match res {
        Ok(messages) => Ok(messages.deep_view()),
        Err(error) => Err(error@),
    }
}

/// The answer that consists of one message, if there is one.
pub open spec fn lone(res: Result<NetworkMessageView, ErrorView>) -> Answer {
    match res {
        Ok(message) => Ok(seq![message]),
        Err(error) => Err(error),
    }
}

impl ClientView {
    /// What holds of every client: its keys are those that its state calls for, and no peer is
    /// authenticated without a session key.
    pub open spec fn is_sound(self) -> bool {
        &&& self.state == ClientState::Disconnected ==> self.crypto == EngineView::fresh()
        &&& self.state != ClientState::Disconnected ==> {
            &&& self.crypto.server_dsa_pk matches Some(server_pk)
            &&& server_pk.len() == signature::VERIFYING_KEY_LEN
        }
        &&& self.state == ClientState::WaitingForServerKey ==> {
            &&& self.crypto.transport_key is None
            &&& self.crypto.peers == Map::<Seq<char>, crate::peers::PeerView>::empty()
        }
        &&& self.state == ClientState::Connected || self.state == ClientState::RoomJoined
            ==> self.crypto.transport_key is Some
        &&& forall|id: Seq<char>| #[trigger]
            self.crypto.authenticated(id) ==> self.crypto.peers[id].session_key is Some
    }

    /// The client with another engine.
    pub open spec fn with_crypto(self, crypto: EngineView) -> ClientView {
        ClientView { crypto, ..self }
    }

    /// Whether sealing a message for the server, under a nonce that was drawn, can yield this payload
    /// or this error.
    pub open spec fn sends(
        self,
        message: ServerMessageView,
        res: Result<NetworkMessageView, ErrorView>,
    ) -> bool {
        match res {
            Ok(NetworkMessageView::EncryptedPayload(envelope)) => {
                &&& self.crypto.seals_for_server(message, Ok(envelope))
                &&& system::is_random_draw(envelope.nonce)
            },
            Ok(_) => false,
            Err(error) => self.crypto.seals_for_server(message, Err(error)),
        }
    }

    /// Whether sealing a message for a peer, and the result for the server, each under a nonce that
    /// was drawn, can yield this payload or this error.
    pub open spec fn relays(
        self,
        target: Seq<char>,
        message: PeerMessageView,
        res: Result<NetworkMessageView, ErrorView>,
    ) -> bool {
        match self.crypto.peer_refusal(target, message) {
            Some(error) => res == Err::<NetworkMessageView, ErrorView>(error),
            None => exists|envelope: EnvelopeView| #[trigger]
                self.crypto.seals_for_peer(target, message, Ok(envelope)) && system::is_random_draw(
                    envelope.nonce,
                ) && self.sends(
                    ServerMessageView::RelayPeerMessage {
                        target_client_id: target,
                        sender_client_id: self.client_id,
                        peer_envelope: envelope,
                    },
                    res,
                ),
        }
    }

    /// Whether drawing a key pair for a member and offering it the public half can lead here.
    pub open spec fn invites(
        self,
        member: Seq<char>,
        end: ClientView,
        res: Result<NetworkMessageView, ErrorView>,
    ) -> bool {
        &&& end.crypto.peers[member].pending_kem_sk matches Some(sk)
        &&& sk.len() == kem::SEED_LEN
        &&& kem::is_encapsulation_key(kem::ml_kem_1024_encapsulation_key(sk))
        &&& end == self.with_crypto(self.crypto.awaiting_peer(member, sk))
        &&& end.sends(
            ServerMessageView::PeerExchangeInit {
                target_client_id: member,
                sender_client_id: self.client_id,
                client_pk: kem::ml_kem_1024_encapsulation_key(sk),
            },
            res,
        )
    }

    /// Whether inviting these members one after the other, leaving out the client itself, can
    /// lead to `end` with `sent` sent.
    pub open spec fn invites_all(
        self,
        members: Seq<Seq<char>>,
        end: ClientView,
        sent: Seq<NetworkMessageView>,
    ) -> bool
        decreases members.len(),
    {
        if members.len() == 0 {
            end == self && sent == Seq::<NetworkMessageView>::empty()
        } else if members.last() == self.client_id {
            self.invites_all(members.drop_last(), end, sent)
        } else {
            &&& sent.len() > 0
            &&& exists|before: ClientView|
                self.invites_all(members.drop_last(), before, sent.drop_last())
                    && #[trigger] before.invites(members.last(), end, Ok(sent.last()))
        }
    }

    /// Whether an invitation to one of these members, after all before it were invited, can
    /// fail like this.
    pub open spec fn fails_to_invite(
        self,
        members: Seq<Seq<char>>,
        end: ClientView,
        error: ErrorView,
    ) -> bool {
        exists|n: int, before: ClientView, sent: Seq<NetworkMessageView>|
            0 <= n < members.len() && members[n] != self.client_id && #[trigger] self.invites_all(
                members.take(n),
                before,
                sent,
            ) && before.invites(members[n], end, Err(error))
    }

    /// Whether a list of the room's members can lead here.
    pub open spec fn greets(self, members: Seq<Seq<char>>, end: ClientView, res: Answer) -> bool {
        match res {
            Ok(sent) => self.invites_all(members, end, sent),
            Err(error) => self.fails_to_invite(members, end, error),
        }
    }

    /// Whether agreeing with `sender` on this secret, and sending it this ciphertext, can lead
    /// here.
    pub open spec fn answers_with(
        self,
        sender: Seq<char>,
        ciphertext: Seq<u8>,
        secret: Seq<u8>,
        end: ClientView,
        res: Answer,
    ) -> bool {
        match self.crypto.deriving_session_key(
            sender,
            secret,
            self.room_password,
            room_salt(self.room_id),
        ) {
            Err(error) => end == self && res == Err::<Seq<NetworkMessageView>, ErrorView>(error),
            Ok(crypto) => {
                &&& end == self.with_crypto(crypto)
                &&& exists|sent: Result<NetworkMessageView, ErrorView>|
                    res == lone(sent) && #[trigger] end.sends(
                        ServerMessageView::PeerExchangeResponse {
                            target_client_id: sender,
                            sender_client_id: self.client_id,
                            ciphertext,
                        },
                        sent,
                    )
            },
        }
    }

    /// Whether a peer's offer of a key exchange can lead here.
    pub open spec fn answers(
        self,
        sender: Seq<char>,
        client_pk: Seq<u8>,
        end: ClientView,
        res: Answer,
    ) -> bool {
        if kem::is_encapsulation_key(client_pk) {
            exists|ciphertext: Seq<u8>, secret: Seq<u8>| #[trigger]
                kem::is_encapsulation(client_pk, ciphertext, secret) && self.answers_with(
                    sender,
                    ciphertext,
                    secret,
                    end,
                    res,
                )
        } else {
            &&& end == self
            &&& res == Err::<Seq<NetworkMessageView>, ErrorView>(
                ErrorView::KeyExchangeFailed("Invalid Peer PK format"@),
            )
        }
    }

    /// Whether agreeing with `sender` on this secret, and proving it, can lead here.
    pub open spec fn proves_identity(
        self,
        sender: Seq<char>,
        secret: Seq<u8>,
        end: ClientView,
        res: Answer,
    ) -> bool {
        match self.crypto.deriving_session_key(
            sender,
            secret,
            self.room_password,
            room_salt(self.room_id),
        ) {
            Err(error) => end == self && res == Err::<Seq<NetworkMessageView>, ErrorView>(error),
            Ok(crypto) => {
                let auth_mac = crypto_engine::auth_mac_of(
                    crypto.peers[sender].session_key->0,
                    self.client_id,
                    sender,
                    self.username,
                );
                &&& end == self.with_crypto(crypto)
                &&& auth_mac.len() == kdf::DIGEST_LEN
                &&& exists|sent: Result<NetworkMessageView, ErrorView>|
                    res == lone(sent) && #[trigger] end.relays(
                        sender,
                        PeerMessageView::AuthRequest { username: self.username, auth_mac },
                        sent,
                    )
            },
        }
    }

    /// Whether a peer's answer to a key exchange can lead here.
    pub open spec fn concludes(
        self,
        sender: Seq<char>,
        ciphertext: Seq<u8>,
        end: ClientView,
        res: Answer,
    ) -> bool {
        let (crypto, outcome) = self.crypto.finishing_peer_exchange(sender, ciphertext);
        match outcome {
            Err(error) => {
                &&& end == self.with_crypto(crypto)
                &&& res == Err::<Seq<NetworkMessageView>, ErrorView>(error)
            },
            Ok(secret) => self.with_crypto(crypto).proves_identity(sender, secret, end, res),
        }
    }

    /// The client and what stands in its way once it is known whether a peer's proof of
    /// identity is genuine.
    pub open spec fn admitting(self, sender: Seq<char>, genuine: bool) -> (
        ClientView,
        Option<ErrorView>,
    ) {
        if !genuine {
            (self, Some(ErrorView::StateError("Peer authentication failed"@)))
        } else if !self.crypto.peers.contains_key(sender) {
            (self, Some(ErrorView::StateError("Peer not found"@)))
        } else {
            (self.with_crypto(self.crypto.with_authenticated(sender)), None)
        }
    }

    /// Whether a peer's request to be authenticated can lead here, once it is known whether its
    /// proof of identity is genuine.
    pub open spec fn grants(
        self,
        sender: Seq<char>,
        genuine: bool,
        end: ClientView,
        res: Answer,
    ) -> bool {
        let (admitted, obstacle) = self.admitting(sender, genuine);
        &&& end == admitted
        &&& match obstacle {
            Some(error) => res == Err::<Seq<NetworkMessageView>, ErrorView>(error),
            None => match end.crypto.auth_mac(sender, self.client_id, sender, self.username) {
                Err(error) => res == Err::<Seq<NetworkMessageView>, ErrorView>(error),
                Ok(auth_mac) => {
                    &&& auth_mac.len() == kdf::DIGEST_LEN
                    &&& exists|sent: Result<NetworkMessageView, ErrorView>|
                        res == lone(sent) && #[trigger] end.relays(
                            sender,
                            PeerMessageView::AuthResponse { username: self.username, auth_mac },
                            sent,
                        )
                },
            },
        }
    }

    /// The client and its answer once it is known whether a peer's proof of identity, sent in
    /// reply to the client's own, is genuine.
    pub open spec fn accepting(self, sender: Seq<char>, genuine: bool) -> (ClientView, Answer) {
        let (admitted, obstacle) = self.admitting(sender, genuine);
        match obstacle {
            Some(error) => (admitted, Err(error)),
            None => (admitted, Ok(Seq::empty())),
        }
    }

    /// The client and its answer after a chat message.
    pub open spec fn receiving(self, sender: Seq<char>, timestamp: u64, content: Seq<char>) -> (
        ClientView,
        Answer,
    ) {
        if self.crypto.authenticated(sender) {
            (
                ClientView {
                    chat_inbox: self.chat_inbox.push((sender, timestamp, content)),
                    ..self
                },
                Ok(Seq::empty()),
            )
        } else {
            (
                self,
                Err(ErrorView::StateError("Received chat message from unauthenticated peer"@)),
            )
        }
    }

    /// The code that a peer owes this client under a given name.
    pub open spec fn owed_mac(self, sender: Seq<char>, username: Seq<char>) -> Result<
        Seq<u8>,
        ErrorView,
    > {
        self.crypto.auth_mac(sender, sender, self.client_id, username)
    }

    /// Whether a message from a peer can lead here.
    pub open spec fn hears(
        self,
        sender: Seq<char>,
        message: PeerMessageView,
        end: ClientView,
        res: Answer,
    ) -> bool {
        match message {
            PeerMessageView::AuthRequest { username, auth_mac } => match self.owed_mac(
                sender,
                username,
            ) {
                Err(error) => {
                    &&& end == self
                    &&& res == Err::<Seq<NetworkMessageView>, ErrorView>(error)
                },
                Ok(owed) => self.grants(sender, owed == auth_mac, end, res),
            },
            PeerMessageView::AuthResponse { username, auth_mac } => match self.owed_mac(
                sender,
                username,
            ) {
                Err(error) => {
                    &&& end == self
                    &&& res == Err::<Seq<NetworkMessageView>, ErrorView>(error)
                },
                Ok(owed) => (end, res) == self.accepting(sender, owed == auth_mac),
            },
            PeerMessageView::ChatMessage { timestamp, content } => (end, res) == self.receiving(
                sender,
                timestamp,
                content,
            ),
        }
    }

    /// Whether a message from the server can lead here. What is meant for another client is
    /// ignored.
    pub open spec fn handles(
        self,
        message: ServerMessageView,
        end: ClientView,
        res: Answer,
    ) -> bool {
        match message {
            ServerMessageView::JoinRoom { .. } => {
                end == self && res == Ok::<Seq<NetworkMessageView>, ErrorView>(Seq::empty())
            },
            ServerMessageView::RoomMembers { members } => (ClientView {
                state: ClientState::RoomJoined,
                ..self
            }).greets(members, end, res),
            ServerMessageView::PeerExchangeInit {
                target_client_id,
                sender_client_id,
                client_pk,
            } => if target_client_id == self.client_id {
                self.answers(sender_client_id, client_pk, end, res)
            } else {
                end == self && res == Ok::<Seq<NetworkMessageView>, ErrorView>(Seq::empty())
            },
            ServerMessageView::PeerExchangeResponse {
                target_client_id,
                sender_client_id,
                ciphertext,
            } => if target_client_id == self.client_id {
                self.concludes(sender_client_id, ciphertext, end, res)
            } else {
                end == self && res == Ok::<Seq<NetworkMessageView>, ErrorView>(Seq::empty())
            },
            ServerMessageView::RelayPeerMessage {
                target_client_id,
                sender_client_id,
                peer_envelope,
            } => if target_client_id == self.client_id {
                match self.crypto.peer_opening(sender_client_id, peer_envelope) {
                    Err(error) => {
                        &&& end == self
                        &&& res == Err::<Seq<NetworkMessageView>, ErrorView>(error)
                    },
                    Ok(message) => self.hears(sender_client_id, message, end, res),
                }
            } else {
                end == self && res == Ok::<Seq<NetworkMessageView>, ErrorView>(Seq::empty())
            },
        }
    }

    /// Whether the server's greeting can lead here.
    pub open spec fn meets_server(
        self,
        server_pk: Seq<u8>,
        end: ClientView,
        res: Answer,
    ) -> bool {
        if self.state != ClientState::Disconnected {
            &&& end == self
            &&& res == Err::<Seq<NetworkMessageView>, ErrorView>(
                ErrorView::StateError("Unexpected ServerHello in current state"@),
            )
        } else if server_pk.len() != signature::VERIFYING_KEY_LEN {
            &&& end == self
            &&& res == Err::<Seq<NetworkMessageView>, ErrorView>(ErrorView::InvalidSignature)
        } else {
            &&& end.crypto.pending_transport_sk matches Some(sk)
            &&& sk.len() == kem::SEED_LEN
            &&& kem::is_encapsulation_key(kem::ml_kem_1024_encapsulation_key(sk))
            &&& end == ClientView {
                state: ClientState::WaitingForServerKey,
                crypto: EngineView {
                    server_dsa_pk: Some(server_pk),
                    pending_transport_sk: Some(sk),
                    ..self.crypto
                },
                ..self
            }
            &&& res == Ok::<Seq<NetworkMessageView>, ErrorView>(
                seq![
                    NetworkMessageView::ClientKeyExchange {
                        client_pk: kem::ml_kem_1024_encapsulation_key(sk),
                    },
                ],
            )
        }
    }

    /// Whether the server's half of the key exchange can lead here.
    pub open spec fn connects(
        self,
        ciphertext: Seq<u8>,
        signature: Seq<u8>,
        end: ClientView,
        res: Answer,
    ) -> bool {
        if self.state != ClientState::WaitingForServerKey {
            &&& end == self
            &&& res == Err::<Seq<NetworkMessageView>, ErrorView>(
                ErrorView::StateError("Unexpected ServerKeyExchange in current state"@),
            )
        } else {
            let (crypto, outcome) = self.crypto.establishing_transport(ciphertext, signature);
            match outcome {
                Err(error) => {
                    &&& end == self.with_crypto(crypto)
                    &&& res == Err::<Seq<NetworkMessageView>, ErrorView>(error)
                },
                Ok(()) => {
                    &&& end == ClientView { state: ClientState::Connected, crypto, ..self }
                    &&& exists|sent: Result<NetworkMessageView, ErrorView>|
                        res == lone(sent) && #[trigger] end.sends(
                            ServerMessageView::JoinRoom { room_id: self.room_id },
                            sent,
                        )
                },
            }
        }
    }

    /// Whether a sealed message from the server can lead here.
    pub open spec fn unwraps(self, envelope: EnvelopeView, end: ClientView, res: Answer) -> bool {
        if self.state == ClientState::Disconnected || self.state
            == ClientState::WaitingForServerKey {
            &&& end == self
            &&& res == Err::<Seq<NetworkMessageView>, ErrorView>(
                ErrorView::StateError("Transport layer not secured yet"@),
            )
        } else {
            match self.crypto.server_opening(envelope) {
                Err(error) => {
                    &&& end == self
                    &&& res == Err::<Seq<NetworkMessageView>, ErrorView>(error)
                },
                Ok(message) => self.handles(message, end, res),
            }
        }
    }

    /// Whether a network message can lead here.
    pub open spec fn processes(
        self,
        message: NetworkMessageView,
        end: ClientView,
        res: Answer,
    ) -> bool {
        match message {
            NetworkMessageView::ServerHello { server_pk } => self.meets_server(
                server_pk,
                end,
                res,
            ),
            NetworkMessageView::ServerKeyExchange { ciphertext, signature } => self.connects(
                ciphertext,
                signature,
                end,
                res,
            ),
            NetworkMessageView::ClientKeyExchange { .. } => {
                &&& end == self
                &&& res == Err::<Seq<NetworkMessageView>, ErrorView>(
                    ErrorView::StateError("Client should not receive ClientKeyExchange"@),
                )
            },
            NetworkMessageView::EncryptedPayload(envelope) => self.unwraps(envelope, end, res),
        }
    }

    /// Why the client does not chat with this peer, if so.
    pub open spec fn chat_refusal(self, target: Seq<char>) -> Option<ErrorView> {
        if self.state != ClientState::RoomJoined {
            Some(ErrorView::StateError("Cannot send chat before joining a room"@))
        } else if !self.crypto.authenticated(target) {
            Some(ErrorView::StateError("Cannot send chat to unauthenticated peer"@))
        } else {
            None
        }
    }

    /// Whether sending a chat message with this timestamp can yield this payload or this error.
    pub open spec fn chats(
        self,
        target: Seq<char>,
        timestamp: u64,
        content: Seq<char>,
        res: Result<NetworkMessageView, ErrorView>,
    ) -> bool {
        match self.chat_refusal(target) {
            Some(error) => res == Err::<NetworkMessageView, ErrorView>(error),
            None => self.relays(
                target,
                PeerMessageView::ChatMessage { timestamp, content },
                res,
            ),
        }
    }
}

impl ChatClient {
    /// A client that has not heard of the server yet.
    pub fn new(
        client_id: String,
        username: String,
        room_id: String,
        room_password: String,
    ) -> (res: Self)
        ensures
            res@ == (ClientView {
                client_id: client_id@,
                username: username@,
                room_id: room_id@,
                room_password: room_password@,
                state: ClientState::Disconnected,
                crypto: EngineView::fresh(),
                chat_inbox: Seq::empty(),
            }),
            res@.is_sound(),
    {
        let client = Self {
            client_id,
            username,
            room_id,
            room_password,
            state: ClientState::Disconnected,
            crypto: CryptoEngine::new(),
            chat_inbox: Vec::new(),
        };
        assert(client@.chat_inbox =~= Seq::empty());
        client
    }

    /// The salt that the room's password is hashed with.
    pub fn get_room_salt(&self) -> (salt: Vec<u8>)
        ensures
            salt@ == room_salt(self@.room_id),
    {
        let mut salt: Vec<u8> = slice_to_vec(self.room_id.as_str().as_bytes());
        if salt.len() < 16 {
            salt.resize(16, 0);
        }
        assert(salt@ =~= room_salt(self@.room_id));
        salt
    }

    /// Seals a message for the server.
    fn send_server_message(&self, message: &ServerMessage) -> (res: Result<
        NetworkMessage,
        CryptoError,
    >)
        ensures
            self@.sends(message@, error::outcome(res)),
    {
        match self.crypto.encrypt_server_message(message) {
            Ok(envelope) => Ok(NetworkMessage::EncryptedPayload(envelope)),
            Err(error) => Err(error),
        }
    }

    /// Seals a message for a peer, and the result for the server, which passes it on.
    pub fn encapsulate_peer_message(&self, target_client_id: &str, msg: &PeerMessage) -> (res:
        Result<NetworkMessage, CryptoError>)
        ensures
            self@.relays(target_client_id@, msg@, error::outcome(res)),
    {
        match self.crypto.encrypt_peer_message(target_client_id, msg) {
            Ok(peer_envelope) => {
                let message = ServerMessage::RelayPeerMessage {
                    target_client_id: target_client_id.to_owned(),
                    sender_client_id: self.client_id.clone(),
                    peer_envelope,
                };
                let res = self.send_server_message(&message);
                assert(self@.crypto.seals_for_peer(
                    target_client_id@,
                    msg@,
                    Ok(message@->RelayPeerMessage_peer_envelope),
                ));
                res
            },
            Err(error) => Err(error),
        }
    }

    /// Draws a key pair for a member of the room and offers it the public half.
    fn invite(&mut self, member: &String) -> (res: Result<NetworkMessage, CryptoError>)
        ensures
            old(self)@.invites(member@, final(self)@, error::outcome(res)),
    {
        let client_pk: Vec<u8> = match self.crypto.initiate_peer_key_exchange(member.as_str()) {
            Ok(client_pk) => client_pk,
            Err(error) => return Err(error),
        };
        let message = ServerMessage::PeerExchangeInit {
            target_client_id: member.clone(),
            sender_client_id: self.client_id.clone(),
            client_pk,
        };
        self.send_server_message(&message)
    }

    /// Invites every member of the room but the client itself.
    fn invite_all(&mut self, members: Vec<String>) -> (res: Result<
        Vec<NetworkMessage>,
        CryptoError,
    >)
        ensures
            old(self)@.greets(members.deep_view(), final(self)@, answer(res)),
    {
        let ghost all: Seq<Seq<char>> = members.deep_view();
        let ghost start: ClientView = self@;
        let mut responses: Vec<NetworkMessage> = Vec::new();
        let mut i: usize = 0;
        assert(all.take(0) =~= Seq::empty());
        assert(responses.deep_view() =~= Seq::empty());
        while i < members.len()
            invariant
                i <= members@.len(),
                all == members.deep_view(),
                start == old(self)@,
                self@.client_id == start.client_id,
                start.invites_all(all.take(i as int), self@, responses.deep_view()),
            decreases members@.len() - i,
        {
            let member: &String = &members[i];
            assert(member@ == all[i as int]);
            assert(all.take(i + 1).drop_last() =~= all.take(i as int));
            assert(all.take(i + 1).last() == all[i as int]);
            let own: bool = *member == self.client_id;
            if !own {
                let ghost before: ClientView = self@;
                let ghost sent: Seq<NetworkMessageView> = responses.deep_view();
                match self.invite(member) {
                    Ok(response) => {
                        responses.push(response);
                        assert(responses.deep_view() =~= sent.push(response@));
                        assert(responses.deep_view().drop_last() =~= sent);
                        assert(before.invites(
                            all.take(i + 1).last(),
                            self@,
                            Ok(responses.deep_view().last()),
                        ));
                    },
                    Err(error) => {
                        assert(start.invites_all(all.take(i as int), before, sent));
                        return Err(error);
                    },
                }
            }
            i = i + 1;
        }
        assert(all.take(i as int) =~= all);
        Ok(responses)
    }

    /// Agrees with `sender` on the secret and sends it the ciphertext that holds it.
    pub fn answer_key_exchange(
        &mut self,
        sender: &String,
        ciphertext: Vec<u8>,
        secret: &[u8],
    ) -> (res: Result<Vec<NetworkMessage>, CryptoError>)
        ensures
            old(self)@.answers_with(
                sender@,
                ciphertext@,
                secret@,
                final(self)@,
                answer(res),
            ),
    {
        let salt: Vec<u8> = self.get_room_salt();
        match self.crypto.derive_peer_session_key(
            sender.as_str(),
            secret,
            self.room_password.as_str(),
            salt.as_slice(),
        ) {
            Ok(()) => {},
            Err(error) => return Err(error),
        }
        let message = ServerMessage::PeerExchangeResponse {
            target_client_id: sender.clone(),
            sender_client_id: self.client_id.clone(),
            ciphertext,
        };
        alone(self.send_server_message(&message))
    }

    /// Agrees with `sender` on the secret and sends it a proof of knowing it.
    pub fn prove_identity(&mut self, sender: &String, secret: &[u8]) -> (res: Result<
        Vec<NetworkMessage>,
        CryptoError,
    >)
        ensures
            old(self)@.proves_identity(sender@, secret@, final(self)@, answer(res)),
    {
        let salt: Vec<u8> = self.get_room_salt();
        match self.crypto.derive_peer_session_key(
            sender.as_str(),
            secret,
            self.room_password.as_str(),
            salt.as_slice(),
        ) {
            Ok(()) => {},
            Err(error) => return Err(error),
        }
        let auth_mac: Vec<u8> = match self.crypto.compute_auth_mac(
            sender.as_str(),
            self.client_id.as_str(),
            sender.as_str(),
            self.username.as_str(),
        ) {
            Ok(auth_mac) => auth_mac,
            Err(error) => return Err(error),
        };
        let message = PeerMessage::AuthRequest { username: self.username.clone(), auth_mac };
        alone(self.encapsulate_peer_message(sender.as_str(), &message))
    }

    /// Marks a peer as authenticated if its proof of identity is genuine.
    fn mark_authenticated(&mut self, sender: &String, genuine: bool) -> (res: Result<(), CryptoError>)
        ensures
            ({
                let (admitted, obstacle) = old(self)@.admitting(sender@, genuine);
                &&& final(self)@ == admitted
                &&& match obstacle {
                    Some(error) => error::outcome(res) == Err::<(), ErrorView>(error),
                    None => res is Ok,
                }
            }),
    {
        if !genuine {
            return Err(CryptoError::state("Peer authentication failed"));
        }
        self.crypto.set_peer_authenticated(sender.as_str())
    }

    /// Answers a peer's request to be authenticated, once it is known whether its proof of
    /// identity is genuine.
    pub fn grant(&mut self, sender: &String, genuine: bool) -> (res: Result<
        Vec<NetworkMessage>,
        CryptoError,
    >)
        ensures
            old(self)@.grants(sender@, genuine, final(self)@, answer(res)),
    {
        match self.mark_authenticated(sender, genuine) {
            Ok(()) => {},
            Err(error) => return Err(error),
        }
        let auth_mac: Vec<u8> = match self.crypto.compute_auth_mac(
            sender.as_str(),
            self.client_id.as_str(),
            sender.as_str(),
            self.username.as_str(),
        ) {
            Ok(auth_mac) => auth_mac,
            Err(error) => return Err(error),
        };
        let message = PeerMessage::AuthResponse { username: self.username.clone(), auth_mac };
        alone(self.encapsulate_peer_message(sender.as_str(), &message))
    }

    /// Takes a peer's reply to the client's own proof of identity, once it is known whether the
    /// peer's is genuine.
    pub fn accept(&mut self, sender: &String, genuine: bool) -> (res: Result<
        Vec<NetworkMessage>,
        CryptoError,
    >)
        ensures
            (final(self)@, answer(res)) == old(self)@.accepting(sender@, genuine),
    {
        match self.mark_authenticated(sender, genuine) {
            Ok(()) => Ok(nothing()),
            Err(error) => Err(error),
        }
    }

    /// Takes a message from a peer.
    pub fn handle_peer_message(&mut self, sender: String, msg: PeerMessage) -> (res: Result<
        Vec<NetworkMessage>,
        CryptoError,
    >)
        ensures
            old(self)@.hears(sender@, msg@, final(self)@, answer(res)),
    {
        match msg {
            PeerMessage::AuthRequest { username, auth_mac } => match self.crypto.verify_auth_mac(
                sender.as_str(),
                sender.as_str(),
                self.client_id.as_str(),
                username.as_str(),
                auth_mac.as_slice(),
            ) {
                Ok(genuine) => self.grant(&sender, genuine),
                Err(error) => Err(error),
            },
            PeerMessage::AuthResponse { username, auth_mac } => match self.crypto.verify_auth_mac(
                sender.as_str(),
                sender.as_str(),
                self.client_id.as_str(),
                username.as_str(),
                auth_mac.as_slice(),
            ) {
                Ok(genuine) => self.accept(&sender, genuine),
                Err(error) => Err(error),
            },
            PeerMessage::ChatMessage { timestamp, content } => {
                if !self.crypto.is_peer_authenticated(sender.as_str()) {
                    return Err(
                        CryptoError::state("Received chat message from unauthenticated peer"),
                    );
                }
                let ghost received: ClientView = self@.receiving(
                    sender@,
                    timestamp,
                    content@,
                ).0;
                self.chat_inbox.push((sender, timestamp, content));
                assert(self@ =~= received);
                Ok(nothing())
            },
        }
    }

    /// Takes a message from the server.
    pub fn handle_server_message(&mut self, msg: ServerMessage) -> (res: Result<
        Vec<NetworkMessage>,
        CryptoError,
    >)
        ensures
            old(self)@.handles(msg@, final(self)@, answer(res)),
    {
        match msg {
            ServerMessage::RoomMembers { members } => {
                self.state = ClientState::RoomJoined;
                self.invite_all(members)
            },
            ServerMessage::PeerExchangeInit { target_client_id, sender_client_id, client_pk } => {
                let own: bool = target_client_id == self.client_id;
                if !own {
                    return Ok(nothing());
                }
                match self.crypto.accept_peer_key_exchange(client_pk.as_slice()) {
                    Ok((ciphertext, secret)) => {
                        let ghost sealed: Seq<u8> = ciphertext@;
                        let res = self.answer_key_exchange(
                            &sender_client_id,
                            ciphertext,
                            secret.as_slice(),
                        );
                        assert(kem::is_encapsulation(client_pk@, sealed, secret@));
                        res
                    },
                    Err(error) => Err(error),
                }
            },
            ServerMessage::PeerExchangeResponse {
                target_client_id,
                sender_client_id,
                ciphertext,
            } => {
                let own: bool = target_client_id == self.client_id;
                if !own {
                    return Ok(nothing());
                }
                match self.crypto.finish_peer_key_exchange(
                    sender_client_id.as_str(),
                    ciphertext.as_slice(),
                ) {
                    Ok(secret) => self.prove_identity(&sender_client_id, secret.as_slice()),
                    Err(error) => Err(error),
                }
            },
            ServerMessage::RelayPeerMessage {
                target_client_id,
                sender_client_id,
                peer_envelope,
            } => {
                let own: bool = target_client_id == self.client_id;
                if !own {
                    return Ok(nothing());
                }
                match self.crypto.decrypt_peer_message(sender_client_id.as_str(), &peer_envelope) {
                    Ok(msg) => self.handle_peer_message(sender_client_id, msg),
                    Err(error) => Err(error),
                }
            },
            ServerMessage::JoinRoom { .. } => Ok(nothing()),
        }
    }

    /// Takes the server's greeting: keeps its verifying key and offers it a key exchange.
    fn meet_server(&mut self, server_pk: &[u8]) -> (res: Result<Vec<NetworkMessage>, CryptoError>)
        ensures
            old(self)@.meets_server(server_pk@, final(self)@, answer(res)),
    {
        if self.state != ClientState::Disconnected {
            return Err(CryptoError::state("Unexpected ServerHello in current state"));
        }
        match self.crypto.verify_server_hello(server_pk) {
            Ok(()) => {},
            Err(error) => return Err(error),
        }
        let client_pk: Vec<u8> = match self.crypto.generate_client_key_exchange() {
            Ok(client_pk) => client_pk,
            Err(error) => return Err(error),
        };
        self.state = ClientState::WaitingForServerKey;
        alone(Ok(NetworkMessage::ClientKeyExchange { client_pk }))
    }

    /// Takes the server's half of the key exchange and asks to join the room.
    fn connect(&mut self, ciphertext: &[u8], signature: &[u8]) -> (res: Result<
        Vec<NetworkMessage>,
        CryptoError,
    >)
        ensures
            old(self)@.connects(ciphertext@, signature@, final(self)@, answer(res)),
    {
        if self.state != ClientState::WaitingForServerKey {
            return Err(CryptoError::state("Unexpected ServerKeyExchange in current state"));
        }
        match self.crypto.establish_transport_key(ciphertext, signature) {
            Ok(()) => {},
            Err(error) => return Err(error),
        }
        self.state = ClientState::Connected;
        let message = ServerMessage::JoinRoom { room_id: self.room_id.clone() };
        alone(self.send_server_message(&message))
    }

    /// Takes a sealed message from the server.
    fn open_payload(&mut self, envelope: &ServerEnvelope) -> (res: Result<
        Vec<NetworkMessage>,
        CryptoError,
    >)
        ensures
            old(self)@.unwraps(envelope@, final(self)@, answer(res)),
    {
        if self.state == ClientState::Disconnected || self.state
            == ClientState::WaitingForServerKey {
            return Err(CryptoError::state("Transport layer not secured yet"));
        }
        match self.crypto.decrypt_server_message(envelope) {
            Ok(message) => self.handle_server_message(message),
            Err(error) => Err(error),
        }
    }

    /// Takes a network message and says what to send in return.
    pub fn process_network_message(&mut self, msg: NetworkMessage) -> (res: Result<
        Vec<NetworkMessage>,
        CryptoError,
    >)
        ensures
            old(self)@.processes(msg@, final(self)@, answer(res)),
            old(self)@.is_sound() ==> final(self)@.is_sound(),
    {
        let ghost start: ClientView = self@;
        let ghost message: NetworkMessageView = msg@;
        let res = match msg {
            NetworkMessage::ServerHello { server_pk } => self.meet_server(server_pk.as_slice()),
            NetworkMessage::ServerKeyExchange { ciphertext, signature } => self.connect(
                ciphertext.as_slice(),
                signature.as_slice(),
            ),
            NetworkMessage::ClientKeyExchange { .. } => Err(
                CryptoError::state("Client should not receive ClientKeyExchange"),
            ),
            NetworkMessage::EncryptedPayload(envelope) => self.open_payload(&envelope),
        };
        proof {
            if start.is_sound() {
                crate::laws::client::client_stays_sound(start, message, self@, answer(res));
            }
        }
        res
    }

    /// Sends a chat message to a peer, stamped with the present time: the seconds since the
    /// Unix epoch, or zero where the clock stands before it.
    pub fn send_chat_message(&self, target_client_id: &str, content: String) -> (res: Result<
        NetworkMessage,
        CryptoError,
    >)
        ensures
            exists|seconds: Option<u64>|
                #![trigger system::is_clock_reading(seconds)]
                system::is_clock_reading(seconds) && self@.chats(
                    target_client_id@,
                    match seconds {
                        Some(seconds) => seconds,
                        None => 0,
                    },
                    content@,
                    error::outcome(res),
                ),
    {
        let seconds: Option<u64> = system::unix_seconds();
        let res = self.send_chat_message_at(target_client_id, content, timestamp_of(seconds));
        assert(system::is_clock_reading(seconds));
        res
    }

    /// Sends a chat message to a peer, stamped with a given time.
    pub fn send_chat_message_at(
        &self,
        target_client_id: &str,
        content: String,
        timestamp: u64,
    ) -> (res: Result<NetworkMessage, CryptoError>)
        ensures
            self@.chats(target_client_id@, timestamp, content@, error::outcome(res)),
    {
        if self.state != ClientState::RoomJoined {
            return Err(CryptoError::state("Cannot send chat before joining a room"));
        }
        if !self.crypto.is_peer_authenticated(target_client_id) {
            return Err(CryptoError::state("Cannot send chat to unauthenticated peer"));
        }
        let message = PeerMessage::ChatMessage { timestamp, content };
        self.encapsulate_peer_message(target_client_id, &message)
    }
}

/// The timestamp of a message that is sent this many seconds after the Unix epoch, or before it.
pub fn timestamp_of(seconds: Option<u64>) -> (timestamp: u64)
    ensures
        timestamp == stamp_of(seconds),
        seconds matches Some(given) ==> timestamp == given,
        seconds is None ==> timestamp == 0,
{
    match seconds {
        Some(seconds) => seconds,
        None => 0,
    }
}

/// The answer that consists of no message.
fn nothing() -> (messages: Vec<NetworkMessage>)
    ensures
        messages.deep_view() == Seq::<NetworkMessageView>::empty(),
{
    let messages: Vec<NetworkMessage> = Vec::new();
    assert(messages.deep_view() =~= Seq::empty());
    messages
}

/// The answer that consists of one message, if there is one.
fn alone(message: Result<NetworkMessage, CryptoError>) -> (res: Result<
    Vec<NetworkMessage>,
    CryptoError,
>)
    ensures
        answer(res) == lone(error::outcome(message)),
{
    match message {
        Ok(message) => {
            let mut messages: Vec<NetworkMessage> = Vec::new();
            let ghost contents: NetworkMessageView = message@;
            messages.push(message);
            assert(messages.deep_view() =~= seq![contents]);
            Ok(messages)
        },
        Err(error) => Err(error),
    }
}

} // verus!
