//! Two ends that hold the same key understand each other, and the key exchanges give both ends
//! the same key.
//!
//! Where a law rests on a key exchange, it asks that decapsulation found the secret that
//! encapsulation hid: ML-KEM fails to do so with negligible probability.
use crate::crypto_engine::{self, EngineView};
use crate::error::ErrorView;
use crate::primitives::{kdf, kem, signature};
use crate::protocol::{EnvelopeView, PeerMessageView, ServerMessageView};
use vstd::prelude::*;

verus! {

/// Whoever holds the transport key reads what was sealed under it.
pub proof fn server_envelope_opens(
    writer: EngineView,
    reader: EngineView,
    message: ServerMessageView,
    envelope: EnvelopeView,
)
    requires
        writer.seals_for_server(message, Ok(envelope)),
        reader.transport_key == writer.transport_key,
    ensures
        reader.server_opening(envelope) == Ok::<ServerMessageView, ErrorView>(message),
{
}

/// Whoever holds the session key, under whatever id it knows the writer, reads what was sealed
/// under it.
pub proof fn peer_envelope_opens(
    writer: EngineView,
    reader: EngineView,
    reader_id: Seq<char>,
    writer_id: Seq<char>,
    message: PeerMessageView,
    envelope: EnvelopeView,
)
    requires
        writer.seals_for_peer(reader_id, message, Ok(envelope)),
        reader.session_key(writer_id) == writer.session_key(reader_id),
    ensures
        reader.peer_opening(writer_id, envelope) == Ok::<PeerMessageView, ErrorView>(message),
{
}

/// A signed answer to the client's key gives the client the transport key that the server
/// derives from the same secret.
pub proof fn transport_keys_agree(
    client: EngineView,
    server_pk: Seq<u8>,
    sk: Seq<u8>,
    ciphertext: Seq<u8>,
    signature: Seq<u8>,
    secret: Seq<u8>,
)
    requires
        client.server_dsa_pk == Some(server_pk),
        client.pending_transport_sk == Some(sk),
        sk.len() == kem::SEED_LEN,
        kem::is_encapsulation(kem::ml_kem_1024_encapsulation_key(sk), ciphertext, secret),
        kem::ml_kem_1024_decapsulation(sk, ciphertext) == secret,
        signature::ml_dsa_87_verifies(server_pk, ciphertext, signature),
    ensures
        client.establishing_transport(ciphertext, signature) == (
            EngineView {
                pending_transport_sk: None,
                transport_key: Some(crypto_engine::transport_key_of(secret)),
                ..client
            },
            Ok::<(), ErrorView>(()),
        ),
{
}

/// The secret half of the transport key pair is used at most once: whatever a genuine answer
/// leads to, it is gone afterwards.
pub proof fn transport_secret_is_spent(
    client: EngineView,
    server_pk: Seq<u8>,
    ciphertext: Seq<u8>,
    signature: Seq<u8>,
)
    requires
        client.server_dsa_pk == Some(server_pk),
        signature::ml_dsa_87_verifies(server_pk, ciphertext, signature),
    ensures
        client.establishing_transport(ciphertext, signature).0.pending_transport_sk is None,
{
}

/// An answer that the server's key did not sign changes nothing.
pub proof fn unsigned_answer_changes_nothing(
    client: EngineView,
    server_pk: Seq<u8>,
    ciphertext: Seq<u8>,
    signature: Seq<u8>,
)
    requires
        client.server_dsa_pk == Some(server_pk),
        !signature::ml_dsa_87_verifies(server_pk, ciphertext, signature),
    ensures
        client.establishing_transport(ciphertext, signature) == (
            client,
            Err::<(), ErrorView>(ErrorView::InvalidSignature),
        ),
{
}

/// The one who offered a key exchange finds the secret of the one who answered, and its secret
/// key is gone afterwards.
pub proof fn peer_secrets_agree(
    offering: EngineView,
    id: Seq<char>,
    sk: Seq<u8>,
    ciphertext: Seq<u8>,
    secret: Seq<u8>,
)
    requires
        sk.len() == kem::SEED_LEN,
        kem::is_encapsulation(kem::ml_kem_1024_encapsulation_key(sk), ciphertext, secret),
        kem::ml_kem_1024_decapsulation(sk, ciphertext) == secret,
    ensures
        ({
            let (finished, found) = offering.awaiting_peer(id, sk).finishing_peer_exchange(
                id,
                ciphertext,
            );
            &&& found == Ok::<Seq<u8>, ErrorView>(secret)
            &&& finished.peers[id].pending_kem_sk is None
        }),
{
}

/// Two engines that derive session keys from the same secret, password and salt hold the same
/// key, and neither takes the other for authenticated.
pub proof fn session_keys_agree(
    left: EngineView,
    right: EngineView,
    left_id: Seq<char>,
    right_id: Seq<char>,
    secret: Seq<u8>,
    password: Seq<char>,
    salt: Seq<u8>,
)
    requires
        kdf::argon2id_accepts(vstd::utf8::encode_utf8(password), salt),
    ensures
        left.deriving_session_key(right_id, secret, password, salt) matches Ok(left) && (
        right.deriving_session_key(left_id, secret, password, salt) matches Ok(right) && {
            &&& left.session_key(right_id) is Ok
            &&& left.session_key(right_id) == right.session_key(left_id)
            &&& !left.authenticated(right_id)
            &&& !right.authenticated(left_id)
        }),
{
}

/// The code that one end computes for itself is the code that the other end expects of it.
pub proof fn auth_macs_agree(
    prover: EngineView,
    verifier: EngineView,
    prover_id: Seq<char>,
    verifier_id: Seq<char>,
    username: Seq<char>,
)
    requires
        prover.session_key(verifier_id) == verifier.session_key(prover_id),
    ensures
        prover.auth_mac(verifier_id, prover_id, verifier_id, username) == verifier.auth_mac(
            prover_id,
            prover_id,
            verifier_id,
            username,
        ),
{
}

/// What concerns one peer leaves every other peer, and what the engine has from the server, as
/// it was.
pub proof fn other_peers_are_untouched(
    engine: EngineView,
    id: Seq<char>,
    sk: Seq<u8>,
    ciphertext: Seq<u8>,
    secret: Seq<u8>,
    password: Seq<char>,
    salt: Seq<u8>,
)
    ensures
        same_but_for_peer(engine, engine.awaiting_peer(id, sk), id),
        same_but_for_peer(engine, engine.finishing_peer_exchange(id, ciphertext).0, id),
        same_but_for_peer(engine, engine.with_authenticated(id), id),
        engine.deriving_session_key(id, secret, password, salt) matches Ok(derived)
            ==> same_but_for_peer(engine, derived, id),
{
}

/// Whether two engines agree on everything but the session of one peer.
pub open spec fn same_but_for_peer(before: EngineView, after: EngineView, id: Seq<char>) -> bool {
    &&& after.server_dsa_pk == before.server_dsa_pk
    &&& after.pending_transport_sk == before.pending_transport_sk
    &&& after.transport_key == before.transport_key
    &&& forall|other: Seq<char>|
        other != id ==> {
            &&& #[trigger] after.peers.contains_key(other) == before.peers.contains_key(other)
            &&& after.peers[other] == before.peers[other]
        }
}

/// Only proofs of identity are sealed for a peer that is not authenticated.
pub proof fn unauthenticated_peer_gets_no_chat(
    engine: EngineView,
    id: Seq<char>,
    timestamp: u64,
    content: Seq<char>,
    res: Result<EnvelopeView, ErrorView>,
)
    requires
        !engine.authenticated(id),
        engine.seals_for_peer(id, PeerMessageView::ChatMessage { timestamp, content }, res),
    ensures
        res is Err,
{
}

} // verus!
