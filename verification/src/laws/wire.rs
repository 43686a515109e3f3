//! Reading gives back what was written, whatever follows it.
use crate::primitives::codec;
use crate::protocol::{NetworkMessageView, PeerMessageView, ServerMessageView};
use crate::wire;
use vstd::prelude::*;

verus! {

broadcast use {codec::u32_takes_four_bytes, codec::u64_takes_eight_bytes};

/// A 32-bit number is read back from the bytes that it was written as.
pub proof fn u32_reads_back(value: u32, tail: Seq<u8>)
    ensures
        wire::read_u32(codec::u32_bytes(value) + tail) == Ok::<(u32, Seq<u8>), Seq<char>>(
            (value, tail),
        ),
{
    reveal(codec::u32_bytes);
    reveal(codec::u32_value);
    assert((codec::u32_bytes(value) + tail).skip(4) =~= tail);
}

/// A 64-bit number is read back from the bytes that it was written as.
pub proof fn u64_reads_back(value: u64, tail: Seq<u8>)
    ensures
        wire::read_u64(codec::u64_bytes(value) + tail) == Ok::<(u64, Seq<u8>), Seq<char>>(
            (value, tail),
        ),
{
    reveal(codec::u64_bytes);
    reveal(codec::u64_value);
    let low = (value % 4294967296) as u32;
    let high = (value / 4294967296) as u32;
    let input = codec::u64_bytes(value) + tail;
    assert(input =~= codec::u32_bytes(low) + (codec::u32_bytes(high) + tail));
    u32_reads_back(low, codec::u32_bytes(high) + tail);
    u32_reads_back(high, tail);
    assert(input.skip(8) =~= tail);
}

/// A byte string is read back from the bytes that it was written as.
pub proof fn blob_reads_back(blob: Seq<u8>, tail: Seq<u8>)
    requires
        blob.len() <= u64::MAX,
    ensures
        wire::read_blob(codec::blob_bytes(blob) + tail) == Ok::<(Seq<u8>, Seq<u8>), Seq<char>>(
            (blob, tail),
        ),
{
    let input = codec::blob_bytes(blob) + tail;
    assert(input =~= codec::u64_bytes(blob.len() as u64) + (blob + tail));
    u64_reads_back(blob.len() as u64, blob + tail);
    assert(input.subrange(8, 8int + blob.len()) =~= blob);
    assert(input.skip(8int + blob.len()) =~= tail);
}

/// A string is read back from the bytes that it was written as.
pub proof fn text_reads_back(text: Seq<char>, tail: Seq<u8>)
    requires
        vstd::utf8::encode_utf8(text).len() <= u64::MAX,
    ensures
        wire::read_text(codec::text_bytes(text) + tail) == Ok::<(Seq<char>, Seq<u8>), Seq<char>>(
            (text, tail),
        ),
{
    blob_reads_back(vstd::utf8::encode_utf8(text), tail);
    vstd::utf8::encode_utf8_valid_utf8(text);
    vstd::utf8::encode_utf8_decode_utf8(text);
}

/// A run of strings is read back from the bytes that it was written as.
pub proof fn run_of_texts_reads_back(texts: Seq<Seq<char>>, tail: Seq<u8>)
    requires
        wire::run_of_texts_bytes(texts).len() <= u64::MAX,
    ensures
        codec::run_of_texts_at(texts.len(), wire::run_of_texts_bytes(texts) + tail) == Some(texts),
    decreases texts.len(),
{
    if texts.len() == 0 {
        assert(texts =~= Seq::empty());
    } else {
        let others = wire::run_of_texts_bytes(texts.skip(1));
        let input = wire::run_of_texts_bytes(texts) + tail;
        assert(input =~= codec::text_bytes(texts[0]) + (others + tail));
        text_reads_back(texts[0], others + tail);
        run_of_texts_reads_back(texts.skip(1), tail);
        assert(seq![texts[0]] + texts.skip(1) =~= texts);
    }
}

proof fn run_of_texts_is_no_shorter_than_its_count(texts: Seq<Seq<char>>)
    ensures
        texts.len() <= wire::run_of_texts_bytes(texts).len(),
    decreases texts.len(),
{
    if texts.len() > 0 {
        run_of_texts_is_no_shorter_than_its_count(texts.skip(1));
    }
}

/// A list of strings is read back from the bytes that it was written as.
pub proof fn texts_read_back(texts: Seq<Seq<char>>, tail: Seq<u8>)
    requires
        wire::texts_bytes(texts).len() <= u64::MAX,
    ensures
        codec::texts_at(wire::texts_bytes(texts) + tail) == Some(texts),
{
    let run = wire::run_of_texts_bytes(texts);
    run_of_texts_is_no_shorter_than_its_count(texts);
    assert(wire::texts_bytes(texts) + tail =~= codec::u64_bytes(texts.len() as u64) + (run
        + tail));
    u64_reads_back(texts.len() as u64, run + tail);
    run_of_texts_reads_back(texts, tail);
}

/// Whom a message is for and whom it is from are read back.
proof fn route_reads_back(target: Seq<char>, sender: Seq<char>, tail: Seq<u8>)
    requires
        (codec::text_bytes(target) + codec::text_bytes(sender)).len() <= u64::MAX,
    ensures
        wire::read_route(codec::text_bytes(target) + codec::text_bytes(sender) + tail) == Ok::<
            ((Seq<char>, Seq<char>), Seq<u8>),
            Seq<char>,
        >(((target, sender), tail)),
{
    assert(codec::text_bytes(target) + codec::text_bytes(sender) + tail =~= codec::text_bytes(
        target,
    ) + (codec::text_bytes(sender) + tail));
    text_reads_back(target, codec::text_bytes(sender) + tail);
    text_reads_back(sender, tail);
}

proof fn envelope_reads_back(nonce: Seq<u8>, ciphertext: Seq<u8>, tail: Seq<u8>)
    requires
        ciphertext.len() <= u64::MAX,
    ensures
        wire::read_envelope(nonce.len(), nonce + codec::blob_bytes(ciphertext) + tail) == Ok::<
            (crate::protocol::EnvelopeView, Seq<u8>),
            Seq<char>,
        >((crate::protocol::EnvelopeView { nonce, ciphertext }, tail)),
{
    let input = nonce + codec::blob_bytes(ciphertext) + tail;
    assert(input.take(nonce.len() as int) =~= nonce);
    assert(input.skip(nonce.len() as int) =~= codec::blob_bytes(ciphertext) + tail);
    blob_reads_back(ciphertext, tail);
}

/// A server message is read back from its binary form, whatever follows it.
#[verifier::rlimit(50)]
pub proof fn server_message_reads_back(message: ServerMessageView, tail: Seq<u8>)
    requires
        message matches ServerMessageView::RelayPeerMessage { peer_envelope, .. }
            ==> peer_envelope.nonce.len() == 24,
        wire::server_message_bytes(message).len() <= u64::MAX,
    ensures
        wire::server_message_at(wire::server_message_bytes(message) + tail) == Ok::<
            ServerMessageView,
            Seq<char>,
        >(message),
{
    let input = wire::server_message_bytes(message) + tail;
    match message {
        ServerMessageView::JoinRoom { room_id } => {
            let rest = codec::text_bytes(room_id) + tail;
            assert(input =~= codec::u32_bytes(0) + rest);
            u32_reads_back(0, rest);
            text_reads_back(room_id, tail);
        },
        ServerMessageView::RoomMembers { members } => {
            let rest = wire::texts_bytes(members) + tail;
            assert(input =~= codec::u32_bytes(1) + rest);
            u32_reads_back(1, rest);
            texts_read_back(members, tail);
        },
        ServerMessageView::PeerExchangeInit { target_client_id, sender_client_id, client_pk } => {
            let last = codec::blob_bytes(client_pk) + tail;
            let rest = codec::text_bytes(target_client_id) + codec::text_bytes(sender_client_id)
                + last;
            assert(input =~= codec::u32_bytes(2) + rest);
            u32_reads_back(2, rest);
            route_reads_back(target_client_id, sender_client_id, last);
            blob_reads_back(client_pk, tail);
        },
        ServerMessageView::PeerExchangeResponse {
            target_client_id,
            sender_client_id,
            ciphertext,
        } => {
            let last = codec::blob_bytes(ciphertext) + tail;
            let rest = codec::text_bytes(target_client_id) + codec::text_bytes(sender_client_id)
                + last;
            assert(input =~= codec::u32_bytes(3) + rest);
            u32_reads_back(3, rest);
            route_reads_back(target_client_id, sender_client_id, last);
            blob_reads_back(ciphertext, tail);
        },
        ServerMessageView::RelayPeerMessage {
            target_client_id,
            sender_client_id,
            peer_envelope,
        } => {
            let last = peer_envelope.nonce + codec::blob_bytes(peer_envelope.ciphertext) + tail;
            let rest = codec::text_bytes(target_client_id) + codec::text_bytes(sender_client_id)
                + last;
            assert(input =~= codec::u32_bytes(4) + rest);
            u32_reads_back(4, rest);
            route_reads_back(target_client_id, sender_client_id, last);
            envelope_reads_back(peer_envelope.nonce, peer_envelope.ciphertext, tail);
        },
    }
}

/// A peer message is read back from its binary form, whatever follows it.
#[verifier::rlimit(50)]
pub proof fn peer_message_reads_back(message: PeerMessageView, tail: Seq<u8>)
    requires
        wire::peer_message_bytes(message).len() <= u64::MAX,
    ensures
        wire::peer_message_at(wire::peer_message_bytes(message) + tail) == Ok::<
            PeerMessageView,
            Seq<char>,
        >(message),
{
    let input = wire::peer_message_bytes(message) + tail;
    match message {
        PeerMessageView::AuthRequest { username, auth_mac } => {
            let last = codec::blob_bytes(auth_mac) + tail;
            let rest = codec::text_bytes(username) + last;
            assert(input =~= codec::u32_bytes(0) + rest);
            u32_reads_back(0, rest);
            text_reads_back(username, last);
            blob_reads_back(auth_mac, tail);
        },
        PeerMessageView::AuthResponse { username, auth_mac } => {
            let last = codec::blob_bytes(auth_mac) + tail;
            let rest = codec::text_bytes(username) + last;
            assert(input =~= codec::u32_bytes(1) + rest);
            u32_reads_back(1, rest);
            text_reads_back(username, last);
            blob_reads_back(auth_mac, tail);
        },
        PeerMessageView::ChatMessage { timestamp, content } => {
            let last = codec::text_bytes(content) + tail;
            let rest = codec::u64_bytes(timestamp) + last;
            assert(input =~= codec::u32_bytes(2) + rest);
            u32_reads_back(2, rest);
            u64_reads_back(timestamp, last);
            text_reads_back(content, tail);
        },
    }
}

/// A network message is read back from its binary form, whatever follows it.
#[verifier::rlimit(50)]
pub proof fn network_message_reads_back(message: NetworkMessageView, tail: Seq<u8>)
    requires
        message matches NetworkMessageView::EncryptedPayload(envelope) ==> envelope.nonce.len()
            == 12,
        wire::network_message_bytes(message).len() <= u64::MAX,
    ensures
        wire::network_message_at(wire::network_message_bytes(message) + tail) == Ok::<
            NetworkMessageView,
            Seq<char>,
        >(message),
{
    let input = wire::network_message_bytes(message) + tail;
    match message {
        NetworkMessageView::ServerHello { server_pk } => {
            let rest = codec::blob_bytes(server_pk) + tail;
            assert(input =~= codec::u32_bytes(0) + rest);
            u32_reads_back(0, rest);
            blob_reads_back(server_pk, tail);
        },
        NetworkMessageView::ClientKeyExchange { client_pk } => {
            let rest = codec::blob_bytes(client_pk) + tail;
            assert(input =~= codec::u32_bytes(1) + rest);
            u32_reads_back(1, rest);
            blob_reads_back(client_pk, tail);
        },
        NetworkMessageView::ServerKeyExchange { ciphertext, signature } => {
            let last = codec::blob_bytes(signature) + tail;
            let rest = codec::blob_bytes(ciphertext) + last;
            assert(input =~= codec::u32_bytes(2) + rest);
            u32_reads_back(2, rest);
            blob_reads_back(ciphertext, last);
            blob_reads_back(signature, tail);
        },
        NetworkMessageView::EncryptedPayload(envelope) => {
            let rest = envelope.nonce + codec::blob_bytes(envelope.ciphertext) + tail;
            assert(input =~= codec::u32_bytes(3) + rest);
            u32_reads_back(3, rest);
            envelope_reads_back(envelope.nonce, envelope.ciphertext, tail);
        },
    }
}

} // verus!
