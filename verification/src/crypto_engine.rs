//! The keys of one client and everything that is computed with them.
use crate::error::{self, ErrorView};
use crate::peers::{self, PeerTable, PeerView};
use crate::primitives::{aead, kdf, kem, signature, system};
use crate::protocol::{
    EnvelopeView, PeerEnvelope, PeerMessage, PeerMessageView, ServerEnvelope, ServerMessage,
    ServerMessageView,
};
use crate::wire;
use vstd::prelude::*;
use vstd::slice::slice_to_vec;

pub use crate::error::CryptoError;
pub use crate::peers::PeerSession;

verus! {

/// The keys of one client: what it has from the server, and a session for each peer.
pub struct CryptoEngine {
    pub server_dsa_pk: Option<Vec<u8>>,
    pub pending_transport_sk: Option<Vec<u8>>,
    pub transport_key: Option<[u8; 32]>,
    pub peers: PeerTable,
}

/// The contents of a `CryptoEngine`.
#[verifier::ext_equal]
pub struct EngineView {
    pub server_dsa_pk: Option<Seq<u8>>,
    pub pending_transport_sk: Option<Seq<u8>>,
    pub transport_key: Option<Seq<u8>>,
    pub peers: Map<Seq<char>, PeerView>,
}

impl View for CryptoEngine {
    type V = EngineView;

    open spec fn view(&self) -> EngineView {
        EngineView {
            server_dsa_pk: peers::bytes_view(self.server_dsa_pk),
            pending_transport_sk: peers::bytes_view(self.pending_transport_sk),
            transport_key: peers::key_view(self.transport_key),
            peers: self.peers@,
        }
    }
}

/// The transport key that a shared secret stands for.
pub open spec fn transport_key_of(secret: Seq<u8>) -> Seq<u8> {
    kdf::hkdf_sha512(None, secret, vstd::utf8::encode_utf8("c2s_flow"@))
}

/// The session key that a shared secret stands for among those who know the password.
pub open spec fn session_key_of(secret: Seq<u8>, password: Seq<char>, salt: Seq<u8>) -> Seq<u8> {
    kdf::hkdf_sha512(
        Some(kdf::argon2id(vstd::utf8::encode_utf8(password), salt)),
        secret,
        vstd::utf8::encode_utf8("c2c_session_key"@),
    )
}

/// The code by which `sender_id`, under the name `sender_username`, proves to `receiver_id`
/// that it holds the session key.
pub open spec fn auth_mac_of(
    session_key: Seq<u8>,
    sender_id: Seq<char>,
    receiver_id: Seq<char>,
    sender_username: Seq<char>,
) -> Seq<u8> {
    kdf::hmac_sha256(
        session_key,
        vstd::utf8::encode_utf8(sender_username) + vstd::utf8::encode_utf8(sender_id)
            + vstd::utf8::encode_utf8(receiver_id) + vstd::utf8::encode_utf8("peer_auth_proof"@),
    )
}

/// What becomes of the bytes that were found in a server envelope, or of there being none.
pub open spec fn server_message_of(opened: Option<Seq<u8>>) -> Result<
    ServerMessageView,
    ErrorView,
> {
    match opened {
        Some(plaintext) => wire::serialization_outcome(wire::server_message_at(plaintext)),
        None => Err(
            ErrorView::EncryptionFailed("AES-GCM MAC validation failed (Data Tampered!)"@),
        ),
    }
}

/// What becomes of the bytes that were found in a peer envelope, or of there being none.
pub open spec fn peer_message_of(opened: Option<Seq<u8>>) -> Result<PeerMessageView, ErrorView> {
    match opened {
        Some(plaintext) => wire::serialization_outcome(wire::peer_message_at(plaintext)),
        None => Err(
            ErrorView::EncryptionFailed("XChaCha20 MAC verification failed (Data Tampered!)"@),
        ),
    }
}

impl EngineView {
    /// An engine without any key.
    pub open spec fn fresh() -> EngineView {
        EngineView {
            server_dsa_pk: None,
            pending_transport_sk: None,
            transport_key: None,
            peers: Map::empty(),
        }
    }

    /// The engine with another session for one peer.
    pub open spec fn with_peer(self, id: Seq<char>, peer: PeerView) -> EngineView {
        EngineView { peers: self.peers.insert(id, peer), ..self }
    }

    /// The session of a peer, or a fresh one.
    pub open spec fn peer_or_fresh(self, id: Seq<char>) -> PeerView {
        if self.peers.contains_key(id) {
            self.peers[id]
        } else {
            PeerView::fresh()
        }
    }

    /// Whether the peer has proved that it holds the session key.
    pub open spec fn authenticated(self, id: Seq<char>) -> bool {
        self.peers.contains_key(id) && self.peers[id].is_authenticated
    }

    /// The session key shared with a peer, or why there is none.
    pub open spec fn session_key(self, id: Seq<char>) -> Result<Seq<u8>, ErrorView> {
        if !self.peers.contains_key(id) {
            Err(ErrorView::StateError("Peer not found"@))
        } else {
            match self.peers[id].session_key {
                Some(key) => Ok(key),
                None => Err(ErrorView::StateError("Session key missing"@)),
            }
        }
    }

    /// The engine and the outcome once it is known whether the server's signature over
    /// `ciphertext` is genuine.
    pub open spec fn concluding_transport(self, ciphertext: Seq<u8>, genuine: bool) -> (
        EngineView,
        Result<(), ErrorView>,
    ) {
        if !genuine {
            (self, Err(ErrorView::InvalidSignature))
        } else {
            match self.pending_transport_sk {
                None => (self, Err(ErrorView::StateError("Missing pending transport KEM SK"@))),
                Some(sk) => {
                    let spent = EngineView { pending_transport_sk: None, ..self };
                    if sk.len() != kem::SEED_LEN {
                        (spent, Err(ErrorView::KeyExchangeFailed("Invalid transport SK format"@)))
                    } else if ciphertext.len() != kem::CIPHERTEXT_LEN {
                        (spent, Err(ErrorView::KeyExchangeFailed("Invalid transport CT format"@)))
                    } else {
                        (
                            spent.with_transport_secret(
                                kem::ml_kem_1024_decapsulation(sk, ciphertext),
                            ),
                            Ok(()),
                        )
                    }
                },
            }
        }
    }

    /// The engine with the transport key that `secret` stands for.
    pub open spec fn with_transport_secret(self, secret: Seq<u8>) -> EngineView {
        EngineView { transport_key: Some(transport_key_of(secret)), ..self }
    }

    /// The engine and the outcome after the server's half of the key exchange.
    pub open spec fn establishing_transport(self, ciphertext: Seq<u8>, signature: Seq<u8>) -> (
        EngineView,
        Result<(), ErrorView>,
    ) {
        match self.server_dsa_pk {
            None => (self, Err(ErrorView::StateError("Server ML-DSA-87 PK not set"@))),
            Some(key) => self.concluding_transport(
                ciphertext,
                signature::ml_dsa_87_verifies(key, ciphertext, signature),
            ),
        }
    }

    /// Why a message cannot be sealed for the server, if so.
    pub open spec fn server_refusal(self, message: ServerMessageView) -> Option<ErrorView> {
        if self.transport_key is None {
            Some(ErrorView::StateError("Transport key not established"@))
        } else if wire::server_message_bytes(message).len() > aead::AES_GCM_PLAINTEXT_MAX {
            Some(ErrorView::EncryptionFailed("AES-GCM encryption failed"@))
        } else {
            None
        }
    }

    /// A message sealed for the server under a given nonce.
    pub open spec fn server_sealing(self, message: ServerMessageView, nonce: Seq<u8>) -> Result<
        EnvelopeView,
        ErrorView,
    > {
        match self.server_refusal(message) {
            Some(error) => Err(error),
            None => Ok(
                EnvelopeView {
                    nonce,
                    ciphertext: aead::aes256gcm_seal(
                        self.transport_key->0,
                        nonce,
                        wire::server_message_bytes(message),
                    ),
                },
            ),
        }
    }

    /// The message in an envelope from the server, or why there is none.
    pub open spec fn server_opening(self, envelope: EnvelopeView) -> Result<
        ServerMessageView,
        ErrorView,
    > {
        match self.transport_key {
            None => Err(ErrorView::StateError("Transport key not established"@)),
            Some(key) => server_message_of(
                aead::aes256gcm_open(key, envelope.nonce, envelope.ciphertext),
            ),
        }
    }

    /// Whether sealing a message for the server can have this outcome: the refusal where there
    /// is one, and otherwise an envelope under some nonce that opens to the message.
    pub open spec fn seals_for_server(
        self,
        message: ServerMessageView,
        res: Result<EnvelopeView, ErrorView>,
    ) -> bool {
        match res {
            Ok(envelope) => {
                &&& envelope.nonce.len() == 12
                &&& self.server_sealing(message, envelope.nonce) == Ok::<EnvelopeView, ErrorView>(
                    envelope,
                )
                &&& envelope.ciphertext.len() == wire::server_message_bytes(message).len()
                    + aead::TAG_LEN
                &&& aead::aes256gcm_open(
                    self.transport_key->0,
                    envelope.nonce,
                    envelope.ciphertext,
                ) == Some(wire::server_message_bytes(message))
                &&& self.server_opening(envelope) == Ok::<ServerMessageView, ErrorView>(message)
            },
            Err(error) => self.server_refusal(message) == Some(error),
        }
    }

    /// The engine with the half of a key exchange that waits for this peer's answer.
    pub open spec fn awaiting_peer(self, id: Seq<char>, sk: Seq<u8>) -> EngineView {
        self.with_peer(id, PeerView { pending_kem_sk: Some(sk), ..self.peer_or_fresh(id) })
    }

    /// The engine and the shared secret after a peer's answer to a key exchange.
    pub open spec fn finishing_peer_exchange(self, id: Seq<char>, ciphertext: Seq<u8>) -> (
        EngineView,
        Result<Seq<u8>, ErrorView>,
    ) {
        if !self.peers.contains_key(id) {
            (self, Err(ErrorView::StateError("Target peer not found"@)))
        } else {
            match self.peers[id].pending_kem_sk {
                None => (self, Err(ErrorView::StateError("Missing pending Peer KEM SK"@))),
                Some(sk) => (
                    self.with_peer(id, PeerView { pending_kem_sk: None, ..self.peers[id] }),
                    if sk.len() != kem::SEED_LEN {
                        Err(ErrorView::KeyExchangeFailed("Invalid Peer SK format"@))
                    } else if ciphertext.len() != kem::CIPHERTEXT_LEN {
                        Err(ErrorView::KeyExchangeFailed("Invalid Peer CT format"@))
                    } else {
                        Ok(kem::ml_kem_1024_decapsulation(sk, ciphertext))
                    },
                ),
            }
        }
    }

    /// The engine with a new session key for a peer, who has yet to prove that it holds it.
    pub open spec fn with_session_key(self, id: Seq<char>, key: Seq<u8>) -> EngineView {
        self.with_peer(
            id,
            PeerView {
                session_key: Some(key),
                is_authenticated: false,
                ..self.peer_or_fresh(id)
            },
        )
    }

    /// The engine after a shared secret was turned into a session key, or why that failed.
    pub open spec fn deriving_session_key(
        self,
        id: Seq<char>,
        secret: Seq<u8>,
        password: Seq<char>,
        salt: Seq<u8>,
    ) -> Result<EngineView, ErrorView> {
        if kdf::argon2id_accepts(vstd::utf8::encode_utf8(password), salt) {
            Ok(self.with_session_key(id, session_key_of(secret, password, salt)))
        } else {
            Err(ErrorView::KeyDerivationFailed("Argon2id hashing failed"@))
        }
    }

    /// The code that `sender_id` owes `receiver_id` under the session key shared with a peer.
    pub open spec fn auth_mac(
        self,
        peer_id: Seq<char>,
        sender_id: Seq<char>,
        receiver_id: Seq<char>,
        sender_username: Seq<char>,
    ) -> Result<Seq<u8>, ErrorView> {
        match self.session_key(peer_id) {
            Ok(key) => Ok(auth_mac_of(key, sender_id, receiver_id, sender_username)),
            Err(error) => Err(error),
        }
    }

    /// The engine with a peer marked as authenticated.
    pub open spec fn with_authenticated(self, id: Seq<char>) -> EngineView {
        self.with_peer(id, PeerView { is_authenticated: true, ..self.peers[id] })
    }

    /// Why a message cannot be sealed for a peer, if so. Only proofs of identity go to a peer
    /// that is not authenticated.
    pub open spec fn peer_refusal(self, id: Seq<char>, message: PeerMessageView) -> Option<
        ErrorView,
    > {
        if !self.peers.contains_key(id) {
            Some(ErrorView::StateError("Peer not found"@))
        } else if !self.peers[id].is_authenticated && message is ChatMessage {
            Some(ErrorView::StateError("Cannot encrypt message for unauthenticated peer"@))
        } else if self.peers[id].session_key is None {
            Some(ErrorView::StateError("Session key missing"@))
        } else if wire::peer_message_bytes(message).len() > aead::XCHACHA_PLAINTEXT_MAX {
            Some(ErrorView::EncryptionFailed("XChaCha20 encryption failed"@))
        } else {
            None
        }
    }

    /// A message sealed for a peer under a given nonce.
    pub open spec fn peer_sealing(
        self,
        id: Seq<char>,
        message: PeerMessageView,
        nonce: Seq<u8>,
    ) -> Result<EnvelopeView, ErrorView> {
        match self.peer_refusal(id, message) {
            Some(error) => Err(error),
            None => Ok(
                EnvelopeView {
                    nonce,
                    ciphertext: aead::xchacha20poly1305_seal(
                        self.peers[id].session_key->0,
                        nonce,
                        wire::peer_message_bytes(message),
                    ),
                },
            ),
        }
    }

    /// The message in an envelope from a peer, or why there is none.
    pub open spec fn peer_opening(self, id: Seq<char>, envelope: EnvelopeView) -> Result<
        PeerMessageView,
        ErrorView,
    > {
        match self.session_key(id) {
            Err(error) => Err(error),
            Ok(key) => if envelope.ciphertext.len() > aead::XCHACHA_PLAINTEXT_MAX
                + aead::TAG_LEN {
                peer_message_of(None)
            } else {
                peer_message_of(
                    aead::xchacha20poly1305_open(key, envelope.nonce, envelope.ciphertext),
                )
            },
        }
    }

    /// Whether sealing a message for a peer can have this outcome: the refusal where there is
    /// one, and otherwise an envelope under some nonce that opens to the message.
    pub open spec fn seals_for_peer(
        self,
        id: Seq<char>,
        message: PeerMessageView,
        res: Result<EnvelopeView, ErrorView>,
    ) -> bool {
        match res {
            Ok(envelope) => {
                &&& envelope.nonce.len() == 24
                &&& self.peer_sealing(id, message, envelope.nonce) == Ok::<
                    EnvelopeView,
                    ErrorView,
                >(envelope)
                &&& envelope.ciphertext.len() == wire::peer_message_bytes(message).len()
                    + aead::TAG_LEN
                &&& aead::xchacha20poly1305_open(
                    self.peers[id].session_key->0,
                    envelope.nonce,
                    envelope.ciphertext,
                ) == Some(wire::peer_message_bytes(message))
                &&& self.peer_opening(id, envelope) == Ok::<PeerMessageView, ErrorView>(message)
            },
            Err(error) => self.peer_refusal(id, message) == Some(error),
        }
    }
}

/// What becomes of the bytes that were found in a server envelope, or of there being none.
pub fn read_server_plaintext(opened: Option<Vec<u8>>) -> (res: Result<ServerMessage, CryptoError>)
    ensures
        error::outcome(res) == server_message_of(peers::bytes_view(opened)),
{
    match opened {
        Some(plaintext) => wire::decode_server_message(plaintext.as_slice()),
        None => Err(
            CryptoError::EncryptionFailed("AES-GCM MAC validation failed (Data Tampered!)"),
        ),
    }
}

/// What becomes of the bytes that were found in a peer envelope, or of there being none.
pub fn read_peer_plaintext(opened: Option<Vec<u8>>) -> (res: Result<PeerMessage, CryptoError>)
    ensures
        error::outcome(res) == peer_message_of(peers::bytes_view(opened)),
{
    match opened {
        Some(plaintext) => wire::decode_peer_message(plaintext.as_slice()),
        None => Err(
            CryptoError::EncryptionFailed("XChaCha20 MAC verification failed (Data Tampered!)"),
        ),
    }
}

/// Whether a received code is the expected one, found out in time that depends on the lengths
/// alone.
pub fn codes_match(expected: &[u8], received: &[u8]) -> (res: bool)
    ensures
        res == (expected@ == received@),
{
    if expected.len() != received.len() {
        return false;
    }
    system::constant_time_eq(expected, received)
}

impl CryptoEngine {
    /// An engine without any key.
    pub fn new() -> (res: Self)
        ensures
            res@ == EngineView::fresh(),
    {
        Self {
            server_dsa_pk: None,
            pending_transport_sk: None,
            transport_key: None,
            peers: PeerTable::new(),
        }
    }

    /// Takes the server's verifying key, if it is one.
    pub fn verify_server_hello(&mut self, server_pk: &[u8]) -> (res: Result<(), CryptoError>)
        ensures
            if server_pk@.len() == signature::VERIFYING_KEY_LEN {
                &&& error::outcome(res) == Ok::<(), ErrorView>(())
                &&& final(self)@ == (EngineView { server_dsa_pk: Some(server_pk@), ..old(self)@ })
            } else {
                &&& error::outcome(res) == Err::<(), ErrorView>(ErrorView::InvalidSignature)
                &&& final(self)@ == old(self)@
            },
    {
        if !signature::ml_dsa_87_accepts_key(server_pk) {
            return Err(CryptoError::InvalidSignature);
        }
        self.server_dsa_pk = Some(slice_to_vec(server_pk));
        Ok(())
    }

    /// Draws a key pair for the transport key exchange, keeps the secret half and returns the
    /// public one.
    pub fn generate_client_key_exchange(&mut self) -> (res: Result<Vec<u8>, CryptoError>)
        ensures
            res is Ok,
            res matches Ok(client_pk) ==> {
                &&& kem::is_encapsulation_key(client_pk@)
                &&& final(self)@.pending_transport_sk matches Some(sk)
                &&& sk.len() == kem::SEED_LEN
                &&& client_pk@ == kem::ml_kem_1024_encapsulation_key(sk)
                &&& final(self)@ == (EngineView { pending_transport_sk: Some(sk), ..old(self)@ })
            },
    {
        let (sk, client_pk): (Vec<u8>, Vec<u8>) = kem::ml_kem_1024_generate();
        self.pending_transport_sk = Some(sk);
        Ok(client_pk)
    }

    /// Takes the server's half of the transport key exchange: checks its signature, recovers
    /// the shared secret and derives the transport key from it.
    pub fn establish_transport_key(&mut self, ciphertext: &[u8], signature: &[u8]) -> (res: Result<
        (),
        CryptoError,
    >)
        ensures
            (final(self)@, error::outcome(res)) == old(self)@.establishing_transport(
                ciphertext@,
                signature@,
            ),
    {
        let genuine: bool = match &self.server_dsa_pk {
            Some(key) => signature::ml_dsa_87_verify(key.as_slice(), ciphertext, signature),
            None => return Err(CryptoError::state("Server ML-DSA-87 PK not set")),
        };
        self.conclude_transport_exchange(ciphertext, genuine)
    }

    /// Goes on with the transport key exchange once it is known whether the server's signature
    /// over `ciphertext` is genuine.
    pub fn conclude_transport_exchange(&mut self, ciphertext: &[u8], genuine: bool) -> (res: Result<
        (),
        CryptoError,
    >)
        ensures
            (final(self)@, error::outcome(res)) == old(self)@.concluding_transport(
                ciphertext@,
                genuine,
            ),
    {
        if !genuine {
            return Err(CryptoError::InvalidSignature);
        }
        let mut sk: Vec<u8> = match self.pending_transport_sk.take() {
            Some(sk) => sk,
            None => return Err(CryptoError::state("Missing pending transport KEM SK")),
        };
        match kem::ml_kem_1024_decapsulate(sk.as_slice(), ciphertext) {
            Ok(secret) => {
                system::wipe_vec(&mut sk);
                self.install_transport_secret(secret.as_slice())
            },
            Err(kem::DecapsulationFailure::SecretKey) => Err(
                CryptoError::KeyExchangeFailed("Invalid transport SK format"),
            ),
            Err(kem::DecapsulationFailure::Ciphertext) => Err(
                CryptoError::KeyExchangeFailed("Invalid transport CT format"),
            ),
        }
    }

    /// Derives the transport key from the secret shared with the server.
    pub fn install_transport_secret(&mut self, secret: &[u8]) -> (res: Result<(), CryptoError>)
        ensures
            res is Ok,
            final(self)@ == old(self)@.with_transport_secret(secret@),
    {
        match kdf::hkdf_sha512_expand(None, secret, "c2s_flow".as_bytes()) {
            Some(key) => {
                self.transport_key = Some(key);
                Ok(())
            },
            None => Err(CryptoError::KeyDerivationFailed("HKDF expand failed")),
        }
    }

    /// Seals a message for the server under a fresh nonce.
    pub fn encrypt_server_message(&self, message: &ServerMessage) -> (res: Result<
        ServerEnvelope,
        CryptoError,
    >)
        ensures
            self@.seals_for_server(message@, error::outcome(res)),
            res matches Ok(envelope) ==> system::is_random_draw(envelope.nonce@),
    {
        self.seal_server_message(message, system::random_bytes::<12>())
    }

    /// Seals a message for the server under a given nonce.
    pub fn seal_server_message(&self, message: &ServerMessage, nonce: [u8; 12]) -> (res: Result<
        ServerEnvelope,
        CryptoError,
    >)
        ensures
            error::outcome(res) == self@.server_sealing(message@, nonce@),
            self@.seals_for_server(message@, error::outcome(res)),
    {
        let key: &[u8; 32] = match &self.transport_key {
            Some(key) => key,
            None => return Err(CryptoError::state("Transport key not established")),
        };
        let plaintext: Vec<u8> = match wire::encode_server_message(message) {
            Ok(plaintext) => plaintext,
            Err(error) => return Err(error),
        };
        match aead::aes256gcm_encrypt(key, &nonce, plaintext.as_slice()) {
            Some(ciphertext) => {
                proof {
                    crate::laws::wire::server_message_reads_back(message@, Seq::empty());
                    assert(plaintext@ + Seq::<u8>::empty() =~= plaintext@);
                }
                Ok(ServerEnvelope { nonce, ciphertext })
            },
            None => Err(CryptoError::EncryptionFailed("AES-GCM encryption failed")),
        }
    }

    /// Opens an envelope from the server.
    pub fn decrypt_server_message(&self, envelope: &ServerEnvelope) -> (res: Result<
        ServerMessage,
        CryptoError,
    >)
        ensures
            error::outcome(res) == self@.server_opening(envelope@),
    {
        let key: &[u8; 32] = match &self.transport_key {
            Some(key) => key,
            None => return Err(CryptoError::state("Transport key not established")),
        };
        read_server_plaintext(
            aead::aes256gcm_decrypt(key, &envelope.nonce, envelope.ciphertext.as_slice()),
        )
    }

    /// Draws a key pair for the key exchange with a peer, keeps the secret half and returns the
    /// public one.
    pub fn initiate_peer_key_exchange(&mut self, target_client_id: &str) -> (res: Result<
        Vec<u8>,
        CryptoError,
    >)
        ensures
            res is Ok,
            res matches Ok(client_pk) ==> {
                &&& kem::is_encapsulation_key(client_pk@)
                &&& final(self)@.peers[target_client_id@].pending_kem_sk matches Some(sk)
                &&& sk.len() == kem::SEED_LEN
                &&& client_pk@ == kem::ml_kem_1024_encapsulation_key(sk)
                &&& final(self)@ == old(self)@.awaiting_peer(target_client_id@, sk)
            },
    {
        let (sk, client_pk): (Vec<u8>, Vec<u8>) = kem::ml_kem_1024_generate();
        self.await_peer(target_client_id, sk);
        Ok(client_pk)
    }

    /// Keeps the secret half of a key pair until this peer answers.
    pub fn await_peer(&mut self, target_client_id: &str, sk: Vec<u8>)
        ensures
            final(self)@ == old(self)@.awaiting_peer(target_client_id@, sk@),
    {
        let mut peer: PeerSession = match self.peers.remove(target_client_id) {
            Some(peer) => peer,
            None => PeerSession::new(),
        };
        peer.pending_kem_sk = Some(sk);
        self.peers.insert(target_client_id.to_owned(), peer);
        assert(self@ =~= old(self)@.awaiting_peer(target_client_id@, sk@));
    }

    /// Answers a peer's key exchange: the ciphertext to send back, and the shared secret.
    pub fn accept_peer_key_exchange(&self, client_pk: &[u8]) -> (res: Result<
        (Vec<u8>, Vec<u8>),
        CryptoError,
    >)
        ensures
            match res {
                Ok((ciphertext, secret)) => {
                    &&& kem::is_encapsulation_key(client_pk@)
                    &&& kem::is_encapsulation(client_pk@, ciphertext@, secret@)
                },
                Err(error) => {
                    &&& !kem::is_encapsulation_key(client_pk@)
                    &&& error@ == ErrorView::KeyExchangeFailed("Invalid Peer PK format"@)
                },
            },
    {
        match kem::ml_kem_1024_encapsulate(client_pk) {
            Some((ciphertext, secret)) => Ok((ciphertext, secret)),
            None => Err(CryptoError::KeyExchangeFailed("Invalid Peer PK format")),
        }
    }

    /// Recovers the shared secret from a peer's answer to a key exchange.
    pub fn finish_peer_key_exchange(&mut self, target_client_id: &str, ciphertext: &[u8]) -> (res:
        Result<Vec<u8>, CryptoError>)
        ensures
            (final(self)@, error::outcome(res)) == old(self)@.finishing_peer_exchange(
                target_client_id@,
                ciphertext@,
            ),
    {
        let mut peer: PeerSession = match self.peers.remove(target_client_id) {
            Some(peer) => peer,
            None => {
                assert(self@ =~= old(self)@);
                return Err(CryptoError::state("Target peer not found"));
            },
        };
        let pending: Option<Vec<u8>> = peer.pending_kem_sk.take();
        self.peers.insert(target_client_id.to_owned(), peer);
        assert(self@ =~= old(self)@.with_peer(
            target_client_id@,
            PeerView { pending_kem_sk: None, ..old(self)@.peers[target_client_id@] },
        ));
        let mut sk: Vec<u8> = match pending {
            Some(sk) => sk,
            None => {
                assert(self@ =~= old(self)@);
                return Err(CryptoError::state("Missing pending Peer KEM SK"));
            },
        };
        match kem::ml_kem_1024_decapsulate(sk.as_slice(), ciphertext) {
            Ok(secret) => {
                system::wipe_vec(&mut sk);
                Ok(secret)
            },
            Err(kem::DecapsulationFailure::SecretKey) => Err(
                CryptoError::KeyExchangeFailed("Invalid Peer SK format"),
            ),
            Err(kem::DecapsulationFailure::Ciphertext) => Err(
                CryptoError::KeyExchangeFailed("Invalid Peer CT format"),
            ),
        }
    }

    /// Turns a shared secret and the password into the session key of a peer.
    pub fn derive_peer_session_key(
        &mut self,
        target_client_id: &str,
        shared_secret: &[u8],
        password: &str,
        salt: &[u8],
    ) -> (res: Result<(), CryptoError>)
        ensures
            match old(self)@.deriving_session_key(
                target_client_id@,
                shared_secret@,
                password@,
                salt@,
            ) {
                Ok(engine) => res is Ok && final(self)@ == engine,
                Err(error) => {
                    &&& error::outcome(res) == Err::<(), ErrorView>(error)
                    &&& final(self)@ == old(self)@
                },
            },
    {
        let mut password_hash: [u8; 32] = match kdf::argon2id_hash(password.as_bytes(), salt) {
            Some(password_hash) => password_hash,
            None => return Err(CryptoError::KeyDerivationFailed("Argon2id hashing failed")),
        };
        match kdf::hkdf_sha512_expand(
            Some(password_hash.as_slice()),
            shared_secret,
            "c2c_session_key".as_bytes(),
        ) {
            Some(session_key) => {
                self.install_session_key(target_client_id, session_key);
                system::wipe_array(&mut password_hash);
                Ok(())
            },
            None => Err(CryptoError::KeyDerivationFailed("HKDF peer session key expand failed")),
        }
    }

    /// Gives a peer a new session key, which it has yet to prove that it holds.
    pub fn install_session_key(&mut self, target_client_id: &str, session_key: [u8; 32])
        ensures
            final(self)@ == old(self)@.with_session_key(target_client_id@, session_key@),
    {
        let mut peer: PeerSession = match self.peers.remove(target_client_id) {
            Some(peer) => peer,
            None => PeerSession::new(),
        };
        peer.session_key = Some(session_key);
        peer.is_authenticated = false;
        self.peers.insert(target_client_id.to_owned(), peer);
        assert(self@ =~= old(self)@.with_session_key(target_client_id@, session_key@));
    }

    /// The code by which `sender_id`, under the name `sender_username`, proves to `receiver_id`
    /// that it holds the session key shared with `peer_id`.
    pub fn compute_auth_mac(
        &self,
        peer_id: &str,
        sender_id: &str,
        receiver_id: &str,
        sender_username: &str,
    ) -> (res: Result<Vec<u8>, CryptoError>)
        ensures
            error::outcome(res) == self@.auth_mac(
                peer_id@,
                sender_id@,
                receiver_id@,
                sender_username@,
            ),
            res matches Ok(mac) ==> mac@.len() == kdf::DIGEST_LEN,
    {
        let peer: &PeerSession = match self.peers.get(peer_id) {
            Some(peer) => peer,
            None => return Err(CryptoError::state("Peer not found")),
        };
        let session_key: &[u8; 32] = match &peer.session_key {
            Some(session_key) => session_key,
            None => return Err(CryptoError::state("Session key missing")),
        };
        match kdf::hmac_sha256_of_parts(
            session_key,
            sender_username.as_bytes(),
            sender_id.as_bytes(),
            receiver_id.as_bytes(),
            "peer_auth_proof".as_bytes(),
        ) {
            Some(mac) => Ok(mac),
            None => Err(CryptoError::state("HMAC init failed")),
        }
    }

    /// Whether a received code is the one that `sender_id` owes `receiver_id`.
    pub fn verify_auth_mac(
        &self,
        peer_id: &str,
        sender_id: &str,
        receiver_id: &str,
        sender_username: &str,
        received_mac: &[u8],
    ) -> (res: Result<bool, CryptoError>)
        ensures
            match self@.auth_mac(peer_id@, sender_id@, receiver_id@, sender_username@) {
                Ok(mac) => error::outcome(res) == Ok::<bool, ErrorView>(mac == received_mac@),
                Err(error) => error::outcome(res) == Err::<bool, ErrorView>(error),
            },
    {
        match self.compute_auth_mac(peer_id, sender_id, receiver_id, sender_username) {
            Ok(expected) => Ok(codes_match(expected.as_slice(), received_mac)),
            Err(error) => Err(error),
        }
    }

    /// Notes that a peer has proved that it holds the session key.
    pub fn set_peer_authenticated(&mut self, peer_id: &str) -> (res: Result<(), CryptoError>)
        ensures
            if old(self)@.peers.contains_key(peer_id@) {
                &&& res is Ok
                &&& final(self)@ == old(self)@.with_authenticated(peer_id@)
            } else {
                &&& error::outcome(res) == Err::<(), ErrorView>(
                    ErrorView::StateError("Peer not found"@),
                )
                &&& final(self)@ == old(self)@
            },
    {
        match self.peers.remove(peer_id) {
            Some(peer) => {
                let mut peer: PeerSession = peer;
                peer.is_authenticated = true;
                self.peers.insert(peer_id.to_owned(), peer);
                assert(self@ =~= old(self)@.with_authenticated(peer_id@));
                Ok(())
            },
            None => {
                assert(self@ =~= old(self)@);
                Err(CryptoError::state("Peer not found"))
            },
        }
    }

    /// Whether a peer has proved that it holds the session key.
    pub fn is_peer_authenticated(&self, peer_id: &str) -> (res: bool)
        ensures
            res == self@.authenticated(peer_id@),
    {
        match self.peers.get(peer_id) {
            Some(peer) => peer.is_authenticated,
            None => false,
        }
    }

    /// Seals a message for a peer under a fresh nonce.
    pub fn encrypt_peer_message(&self, target_client_id: &str, message: &PeerMessage) -> (res:
        Result<PeerEnvelope, CryptoError>)
        ensures
            self@.seals_for_peer(target_client_id@, message@, error::outcome(res)),
            res matches Ok(envelope) ==> system::is_random_draw(envelope.nonce@),
    {
        self.seal_peer_message(target_client_id, message, system::random_bytes::<24>())
    }

    /// Seals a message for a peer under a given nonce.
    pub fn seal_peer_message(
        &self,
        target_client_id: &str,
        message: &PeerMessage,
        nonce: [u8; 24],
    ) -> (res: Result<PeerEnvelope, CryptoError>)
        ensures
            error::outcome(res) == self@.peer_sealing(target_client_id@, message@, nonce@),
            self@.seals_for_peer(target_client_id@, message@, error::outcome(res)),
    {
        let peer: &PeerSession = match self.peers.get(target_client_id) {
            Some(peer) => peer,
            None => return Err(CryptoError::state("Peer not found")),
        };
        if !peer.is_authenticated {
            match message {
                PeerMessage::AuthRequest { .. } => {},
                PeerMessage::AuthResponse { .. } => {},
                PeerMessage::ChatMessage { .. } => return Err(
                    CryptoError::state("Cannot encrypt message for unauthenticated peer"),
                ),
            }
        }
        let key: &[u8; 32] = match &peer.session_key {
            Some(key) => key,
            None => return Err(CryptoError::state("Session key missing")),
        };
        let plaintext: Vec<u8> = match wire::encode_peer_message(message) {
            Ok(plaintext) => plaintext,
            Err(error) => return Err(error),
        };
        if plaintext.len() as u64 > aead::XCHACHA_PLAINTEXT_MAX {
            return Err(CryptoError::EncryptionFailed("XChaCha20 encryption failed"));
        }
        match aead::xchacha20poly1305_encrypt(key, &nonce, plaintext.as_slice()) {
            Some(ciphertext) => {
                proof {
                    crate::laws::wire::peer_message_reads_back(message@, Seq::empty());
                    assert(plaintext@ + Seq::<u8>::empty() =~= plaintext@);
                }
                Ok(PeerEnvelope { nonce, ciphertext })
            },
            None => Err(CryptoError::EncryptionFailed("XChaCha20 encryption failed")),
        }
    }

    /// Opens an envelope from a peer.
    pub fn decrypt_peer_message(&self, sender_client_id: &str, envelope: &PeerEnvelope) -> (res:
        Result<PeerMessage, CryptoError>)
        ensures
            error::outcome(res) == self@.peer_opening(sender_client_id@, envelope@),
    {
        let peer: &PeerSession = match self.peers.get(sender_client_id) {
            Some(peer) => peer,
            None => return Err(CryptoError::state("Peer not found")),
        };
        let key: &[u8; 32] = match &peer.session_key {
            Some(key) => key,
            None => return Err(CryptoError::state("Session key missing")),
        };
        if envelope.ciphertext.len() as u64 > aead::XCHACHA_PLAINTEXT_MAX + aead::TAG_LEN as u64 {
            return read_peer_plaintext(None);
        }
        read_peer_plaintext(
            aead::xchacha20poly1305_decrypt(key, &envelope.nonce, envelope.ciphertext.as_slice()),
        )
    }
}

impl Default for CryptoEngine {
    fn default() -> (res: Self)
        ensures
            res@ == EngineView::fresh(),
    {
        Self::new()
    }
}

} // verus!
