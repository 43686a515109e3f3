//! The binary form of messages, and the way back.
//!
//! A message is its variant's number followed by its fields in order. Reading stops at the end
//! of the last field: bytes after it are ignored.
use crate::error::{self, CryptoError, ErrorView};
use crate::primitives::codec;
use crate::protocol::{
    EnvelopeView, NetworkMessage, NetworkMessageView, PeerEnvelope, PeerMessage, PeerMessageView,
    ServerEnvelope, ServerMessage, ServerMessageView,
};
use vstd::prelude::*;
use vstd::slice::slice_subrange;

verus! {

broadcast use {codec::u32_takes_four_bytes, codec::u64_takes_eight_bytes};

/// What a read leaves: the value and the rest of the input, or the reason why there is no such
/// value at the front of it.
pub type Reading<T> = Result<(T, Seq<u8>), Seq<char>>;

/// Reads a 32-bit number.
pub open spec fn read_u32(input: Seq<u8>) -> Reading<u32> {
    if input.len() >= 4 {
        Ok((codec::u32_value(input), input.skip(4)))
    } else {
        Err(codec::bincode_u32_error(input))
    }
}

/// Reads a 64-bit number.
pub open spec fn read_u64(input: Seq<u8>) -> Reading<u64> {
    if input.len() >= 8 {
        Ok((codec::u64_value(input), input.skip(8)))
    } else {
        Err(codec::bincode_u64_error(input))
    }
}

/// Reads `len` bytes that stand without a length in front of them.
pub open spec fn read_array(len: nat, input: Seq<u8>) -> Reading<Seq<u8>> {
    if input.len() >= len {
        Ok((input.take(len as int), input.skip(len as int)))
    } else {
        Err(codec::bincode_u8_error(Seq::empty()))
    }
}

/// Reads a byte string.
pub open spec fn read_blob(input: Seq<u8>) -> Reading<Seq<u8>> {
    match codec::blob_at(input) {
        Some(blob) => Ok((blob, input.skip(codec::blob_bytes(blob).len() as int))),
        None => Err(codec::bincode_blob_error(input, usize::BITS as nat)),
    }
}

/// Reads a string.
pub open spec fn read_text(input: Seq<u8>) -> Reading<Seq<char>> {
    match codec::text_at(input) {
        Some(text) => Ok((text, input.skip(codec::text_bytes(text).len() as int))),
        None => Err(codec::bincode_text_error(input, usize::BITS as nat)),
    }
}

/// What an executable read leaves, by its views.
pub open spec fn reading<T: View>(res: Result<(T, &[u8]), String>) -> Reading<T::V> {
    match res {
        Ok((value, rest)) => Ok((value@, rest@)),
        Err(message) => Err(message@),
    }
}

fn take_u32<'a>(input: &'a [u8]) -> (res: Result<(u32, &'a [u8]), String>)
    ensures
        reading(res) == read_u32(input@),
{
    match codec::bincode_decode_u32(input) {
        Ok(value) => Ok((value, slice_subrange(input, 4, input.len()))),
        Err(message) => Err(message),
    }
}

fn take_u64<'a>(input: &'a [u8]) -> (res: Result<(u64, &'a [u8]), String>)
    ensures
        reading(res) == read_u64(input@),
{
    match codec::bincode_decode_u64(input) {
        Ok(value) => Ok((value, slice_subrange(input, 8, input.len()))),
        Err(message) => Err(message),
    }
}

fn take_array<'a, const N: usize>(input: &'a [u8]) -> (res: Result<([u8; N], &'a [u8]), String>)
    ensures
        reading(res) == read_array(N as nat, input@),
{
    let mut array: [u8; N] = [0;N];
    let mut rest: &'a [u8] = input;
    let mut i: usize = 0;
    while i < N
        invariant
            i <= N,
            i <= input@.len(),
            rest@ == input@.skip(i as int),
            forall|j: int| 0 <= j < i ==> array@[j] == input@[j],
        decreases N - i,
    {
        match codec::bincode_decode_u8(rest) {
            Ok(byte) => {
                array[i] = byte;
                rest = slice_subrange(rest, 1, rest.len());
                i = i + 1;
                assert(rest@ =~= input@.skip(i as int));
            },
            Err(message) => {
                assert(rest@ =~= Seq::<u8>::empty());
                return Err(message);
            },
        }
    }
    assert(array@ =~= input@.take(N as int));
    Ok((array, rest))
}

fn take_blob<'a>(input: &'a [u8]) -> (res: Result<(Vec<u8>, &'a [u8]), String>)
    ensures
        reading(res) == read_blob(input@),
{
    match codec::bincode_decode_blob(input) {
        Ok(blob) => {
            let len: usize = input.len();
            let end: usize = 8 + blob.len();
            Ok((blob, slice_subrange(input, end, len)))
        },
        Err(message) => Err(message),
    }
}

fn take_text<'a>(input: &'a [u8]) -> (res: Result<(String, &'a [u8]), String>)
    ensures
        reading(res) == read_text(input@),
{
    match codec::bincode_decode_text(input) {
        Ok(text) => {
            proof {
                vstd::utf8::decode_utf8_encode_utf8(codec::blob_at(input@)->0);
            }
            let len: usize = input.len();
            let end: usize = 8 + text.as_str().as_bytes().len();
            Ok((text, slice_subrange(input, end, len)))
        },
        Err(message) => Err(message),
    }
}

/// Reads whom a message is for, then whom it is from.
pub open spec fn read_route(input: Seq<u8>) -> Reading<(Seq<char>, Seq<char>)> {
    match read_text(input) {
        Ok((target, rest)) => match read_text(rest) {
            Ok((sender, rest)) => Ok(((target, sender), rest)),
            Err(message) => Err(message),
        },
        Err(message) => Err(message),
    }
}

/// Reads an envelope whose nonce has `nonce_len` bytes.
pub open spec fn read_envelope(nonce_len: nat, input: Seq<u8>) -> Reading<EnvelopeView> {
    match read_array(nonce_len, input) {
        Ok((nonce, rest)) => match read_blob(rest) {
            Ok((ciphertext, rest)) => Ok((EnvelopeView { nonce, ciphertext }, rest)),
            Err(message) => Err(message),
        },
        Err(message) => Err(message),
    }
}

/// Reads a username, then the code that vouches for it.
pub open spec fn read_proof_of_identity(input: Seq<u8>) -> Reading<(Seq<char>, Seq<u8>)> {
    match read_text(input) {
        Ok((username, rest)) => match read_blob(rest) {
            Ok((auth_mac, rest)) => Ok(((username, auth_mac), rest)),
            Err(message) => Err(message),
        },
        Err(message) => Err(message),
    }
}

fn take_route<'a>(input: &'a [u8]) -> (res: Result<((String, String), &'a [u8]), String>)
    ensures
        reading(res) == read_route(input@),
{
    match take_text(input) {
        Ok((target, rest)) => match take_text(rest) {
            Ok((sender, rest)) => Ok(((target, sender), rest)),
            Err(message) => Err(message),
        },
        Err(message) => Err(message),
    }
}

fn take_server_envelope<'a>(input: &'a [u8]) -> (res: Result<(ServerEnvelope, &'a [u8]), String>)
    ensures
        reading(res) == read_envelope(12, input@),
{
    match take_array::<12>(input) {
        Ok((nonce, rest)) => match take_blob(rest) {
            Ok((ciphertext, rest)) => Ok((ServerEnvelope { nonce, ciphertext }, rest)),
            Err(message) => Err(message),
        },
        Err(message) => Err(message),
    }
}

fn take_peer_envelope<'a>(input: &'a [u8]) -> (res: Result<(PeerEnvelope, &'a [u8]), String>)
    ensures
        reading(res) == read_envelope(24, input@),
{
    match take_array::<24>(input) {
        Ok((nonce, rest)) => match take_blob(rest) {
            Ok((ciphertext, rest)) => Ok((PeerEnvelope { nonce, ciphertext }, rest)),
            Err(message) => Err(message),
        },
        Err(message) => Err(message),
    }
}

fn take_proof_of_identity<'a>(input: &'a [u8]) -> (res: Result<
    ((String, Vec<u8>), &'a [u8]),
    String,
>)
    ensures
        reading(res) == read_proof_of_identity(input@),
{
    match take_text(input) {
        Ok((username, rest)) => match take_blob(rest) {
            Ok((auth_mac, rest)) => Ok(((username, auth_mac), rest)),
            Err(message) => Err(message),
        },
        Err(message) => Err(message),
    }
}

/// The message that `input` starts with, or the reason why there is none.
pub open spec fn server_message_at(input: Seq<u8>) -> Result<ServerMessageView, Seq<char>> {
    match read_u32(input) {
        Ok((variant, rest)) => if variant == 0 {
            match read_text(rest) {
                Ok((room_id, _)) => Ok(ServerMessageView::JoinRoom { room_id }),
                Err(message) => Err(message),
            }
        } else if variant == 1 {
            match codec::texts_at(rest) {
                Some(members) => Ok(ServerMessageView::RoomMembers { members }),
                None => Err(codec::bincode_texts_error(rest, usize::BITS as nat)),
            }
        } else if variant == 2 || variant == 3 {
            match read_route(rest) {
                Ok(((target_client_id, sender_client_id), rest)) => match read_blob(rest) {
                    Ok((blob, _)) => Ok(
                        if variant == 2 {
                            ServerMessageView::PeerExchangeInit {
                                target_client_id,
                                sender_client_id,
                                client_pk: blob,
                            }
                        } else {
                            ServerMessageView::PeerExchangeResponse {
                                target_client_id,
                                sender_client_id,
                                ciphertext: blob,
                            }
                        },
                    ),
                    Err(message) => Err(message),
                },
                Err(message) => Err(message),
            }
        } else if variant == 4 {
            match read_route(rest) {
                Ok(((target_client_id, sender_client_id), rest)) => match read_envelope(24, rest) {
                    Ok((peer_envelope, _)) => Ok(
                        ServerMessageView::RelayPeerMessage {
                            target_client_id,
                            sender_client_id,
                            peer_envelope,
                        },
                    ),
                    Err(message) => Err(message),
                },
                Err(message) => Err(message),
            }
        } else {
            Err(unknown_variant(variant, "variant index 0 <= i < 5"@))
        },
        Err(message) => Err(message),
    }
}

/// The message that `input` starts with, or the reason why there is none.
pub open spec fn peer_message_at(input: Seq<u8>) -> Result<PeerMessageView, Seq<char>> {
    match read_u32(input) {
        Ok((variant, rest)) => if variant == 0 || variant == 1 {
            match read_proof_of_identity(rest) {
                Ok(((username, auth_mac), _)) => Ok(
                    if variant == 0 {
                        PeerMessageView::AuthRequest { username, auth_mac }
                    } else {
                        PeerMessageView::AuthResponse { username, auth_mac }
                    },
                ),
                Err(message) => Err(message),
            }
        } else if variant == 2 {
            match read_u64(rest) {
                Ok((timestamp, rest)) => match read_text(rest) {
                    Ok((content, _)) => Ok(PeerMessageView::ChatMessage { timestamp, content }),
                    Err(message) => Err(message),
                },
                Err(message) => Err(message),
            }
        } else {
            Err(unknown_variant(variant, "variant index 0 <= i < 3"@))
        },
        Err(message) => Err(message),
    }
}

/// The message that `input` starts with, or the reason why there is none.
pub open spec fn network_message_at(input: Seq<u8>) -> Result<NetworkMessageView, Seq<char>> {
    match read_u32(input) {
        Ok((variant, rest)) => if variant == 0 || variant == 1 {
            match read_blob(rest) {
                Ok((key, _)) => Ok(
                    if variant == 0 {
                        NetworkMessageView::ServerHello { server_pk: key }
                    } else {
                        NetworkMessageView::ClientKeyExchange { client_pk: key }
                    },
                ),
                Err(message) => Err(message),
            }
        } else if variant == 2 {
            match read_blob(rest) {
                Ok((ciphertext, rest)) => match read_blob(rest) {
                    Ok((signature, _)) => Ok(
                        NetworkMessageView::ServerKeyExchange { ciphertext, signature },
                    ),
                    Err(message) => Err(message),
                },
                Err(message) => Err(message),
            }
        } else if variant == 3 {
            match read_envelope(12, rest) {
                Ok((envelope, _)) => Ok(NetworkMessageView::EncryptedPayload(envelope)),
                Err(message) => Err(message),
            }
        } else {
            Err(unknown_variant(variant, "variant index 0 <= i < 4"@))
        },
        Err(message) => Err(message),
    }
}

/// What is reported where no variant has this number.
pub open spec fn unknown_variant(variant: u32, expected: Seq<char>) -> Seq<char> {
    codec::bincode_invalid_value(variant as u64, expected)
}

/// A serialization error, if reading failed.
pub open spec fn serialization_outcome<T>(res: Result<T, Seq<char>>) -> Result<T, ErrorView> {
    match res {
        Ok(value) => Ok(value),
        Err(message) => Err(ErrorView::SerializationError(message)),
    }
}

/// Reads a server message.
pub fn decode_server_message(input: &[u8]) -> (res: Result<ServerMessage, CryptoError>)
    ensures
        error::outcome(res) == serialization_outcome(server_message_at(input@)),
{
    let (variant, rest): (u32, &[u8]) = match take_u32(input) {
        Ok(taken) => taken,
        Err(message) => return Err(CryptoError::SerializationError(message)),
    };
    if variant == 0 {
        match take_text(rest) {
            Ok((room_id, _)) => Ok(ServerMessage::JoinRoom { room_id }),
            Err(message) => Err(CryptoError::SerializationError(message)),
        }
    } else if variant == 1 {
        match codec::bincode_decode_texts(rest) {
            Ok(members) => Ok(ServerMessage::RoomMembers { members }),
            Err(message) => Err(CryptoError::SerializationError(message)),
        }
    } else if variant == 2 || variant == 3 || variant == 4 {
        let (route, rest): ((String, String), &[u8]) = match take_route(rest) {
            Ok(taken) => taken,
            Err(message) => return Err(CryptoError::SerializationError(message)),
        };
        let (target_client_id, sender_client_id): (String, String) = route;
        if variant == 4 {
            match take_peer_envelope(rest) {
                Ok((peer_envelope, _)) => Ok(
                    ServerMessage::RelayPeerMessage {
                        target_client_id,
                        sender_client_id,
                        peer_envelope,
                    },
                ),
                Err(message) => Err(CryptoError::SerializationError(message)),
            }
        } else {
            match take_blob(rest) {
                Ok((blob, _)) => if variant == 2 {
                    Ok(
                        ServerMessage::PeerExchangeInit {
                            target_client_id,
                            sender_client_id,
                            client_pk: blob,
                        },
                    )
                } else {
                    Ok(
                        ServerMessage::PeerExchangeResponse {
                            target_client_id,
                            sender_client_id,
                            ciphertext: blob,
                        },
                    )
                },
                Err(message) => Err(CryptoError::SerializationError(message)),
            }
        }
    } else {
        let message = codec::bincode_invalid_value_error(variant as u64, "variant index 0 <= i < 5");
        Err(CryptoError::SerializationError(message))
    }
}

/// Reads a peer message.
pub fn decode_peer_message(input: &[u8]) -> (res: Result<PeerMessage, CryptoError>)
    ensures
        error::outcome(res) == serialization_outcome(peer_message_at(input@)),
{
    let (variant, rest): (u32, &[u8]) = match take_u32(input) {
        Ok(taken) => taken,
        Err(message) => return Err(CryptoError::SerializationError(message)),
    };
    if variant == 0 || variant == 1 {
        match take_proof_of_identity(rest) {
            Ok(((username, auth_mac), _)) => if variant == 0 {
                Ok(PeerMessage::AuthRequest { username, auth_mac })
            } else {
                Ok(PeerMessage::AuthResponse { username, auth_mac })
            },
            Err(message) => Err(CryptoError::SerializationError(message)),
        }
    } else if variant == 2 {
        let (timestamp, rest): (u64, &[u8]) = match take_u64(rest) {
            Ok(taken) => taken,
            Err(message) => return Err(CryptoError::SerializationError(message)),
        };
        match take_text(rest) {
            Ok((content, _)) => Ok(PeerMessage::ChatMessage { timestamp, content }),
            Err(message) => Err(CryptoError::SerializationError(message)),
        }
    } else {
        let message = codec::bincode_invalid_value_error(variant as u64, "variant index 0 <= i < 3");
        Err(CryptoError::SerializationError(message))
    }
}

/// Reads a network message.
pub fn decode_network_message(input: &[u8]) -> (res: Result<NetworkMessage, CryptoError>)
    ensures
        error::outcome(res) == serialization_outcome(network_message_at(input@)),
{
    let (variant, rest): (u32, &[u8]) = match take_u32(input) {
        Ok(taken) => taken,
        Err(message) => return Err(CryptoError::SerializationError(message)),
    };
    if variant == 0 || variant == 1 {
        match take_blob(rest) {
            Ok((key, _)) => if variant == 0 {
                Ok(NetworkMessage::ServerHello { server_pk: key })
            } else {
                Ok(NetworkMessage::ClientKeyExchange { client_pk: key })
            },
            Err(message) => Err(CryptoError::SerializationError(message)),
        }
    } else if variant == 2 {
        let (ciphertext, rest): (Vec<u8>, &[u8]) = match take_blob(rest) {
            Ok(taken) => taken,
            Err(message) => return Err(CryptoError::SerializationError(message)),
        };
        match take_blob(rest) {
            Ok((signature, _)) => Ok(NetworkMessage::ServerKeyExchange { ciphertext, signature }),
            Err(message) => Err(CryptoError::SerializationError(message)),
        }
    } else if variant == 3 {
        match take_server_envelope(rest) {
            Ok((envelope, _)) => Ok(NetworkMessage::EncryptedPayload(envelope)),
            Err(message) => Err(CryptoError::SerializationError(message)),
        }
    } else {
        let message = codec::bincode_invalid_value_error(variant as u64, "variant index 0 <= i < 4");
        Err(CryptoError::SerializationError(message))
    }
}

/// One string after the other, each behind its length.
pub open spec fn run_of_texts_bytes(texts: Seq<Seq<char>>) -> Seq<u8>
    decreases texts.len(),
{
    if texts.len() == 0 {
        Seq::empty()
    } else {
        codec::text_bytes(texts[0]) + run_of_texts_bytes(texts.skip(1))
    }
}

/// A list of strings behind their number.
pub open spec fn texts_bytes(texts: Seq<Seq<char>>) -> Seq<u8> {
    codec::u64_bytes(texts.len() as u64) + run_of_texts_bytes(texts)
}

/// The binary form of a server message.
pub open spec fn server_message_bytes(message: ServerMessageView) -> Seq<u8> {
    match message {
        ServerMessageView::JoinRoom { room_id } => {
            codec::u32_bytes(0) + codec::text_bytes(room_id)
        },
        ServerMessageView::RoomMembers { members } => codec::u32_bytes(1) + texts_bytes(members),
        ServerMessageView::PeerExchangeInit { target_client_id, sender_client_id, client_pk } => {
            codec::u32_bytes(2) + codec::text_bytes(target_client_id) + codec::text_bytes(
                sender_client_id,
            ) + codec::blob_bytes(client_pk)
        },
        ServerMessageView::PeerExchangeResponse {
            target_client_id,
            sender_client_id,
            ciphertext,
        } => {
            codec::u32_bytes(3) + codec::text_bytes(target_client_id) + codec::text_bytes(
                sender_client_id,
            ) + codec::blob_bytes(ciphertext)
        },
        ServerMessageView::RelayPeerMessage {
            target_client_id,
            sender_client_id,
            peer_envelope,
        } => {
            codec::u32_bytes(4) + codec::text_bytes(target_client_id) + codec::text_bytes(
                sender_client_id,
            ) + peer_envelope.nonce + codec::blob_bytes(peer_envelope.ciphertext)
        },
    }
}

/// The binary form of a peer message.
pub open spec fn peer_message_bytes(message: PeerMessageView) -> Seq<u8> {
    match message {
        PeerMessageView::AuthRequest { username, auth_mac } => {
            codec::u32_bytes(0) + codec::text_bytes(username) + codec::blob_bytes(auth_mac)
        },
        PeerMessageView::AuthResponse { username, auth_mac } => {
            codec::u32_bytes(1) + codec::text_bytes(username) + codec::blob_bytes(auth_mac)
        },
        PeerMessageView::ChatMessage { timestamp, content } => {
            codec::u32_bytes(2) + codec::u64_bytes(timestamp) + codec::text_bytes(content)
        },
    }
}

/// The binary form of a network message.
pub open spec fn network_message_bytes(message: NetworkMessageView) -> Seq<u8> {
    match message {
        NetworkMessageView::ServerHello { server_pk } => {
            codec::u32_bytes(0) + codec::blob_bytes(server_pk)
        },
        NetworkMessageView::ClientKeyExchange { client_pk } => {
            codec::u32_bytes(1) + codec::blob_bytes(client_pk)
        },
        NetworkMessageView::ServerKeyExchange { ciphertext, signature } => {
            codec::u32_bytes(2) + codec::blob_bytes(ciphertext) + codec::blob_bytes(signature)
        },
        NetworkMessageView::EncryptedPayload(envelope) => {
            codec::u32_bytes(3) + envelope.nonce + codec::blob_bytes(envelope.ciphertext)
        },
    }
}

/// Appends an encoded piece to `out`, or reports why there is none.
fn put(out: &mut Vec<u8>, piece: Result<Vec<u8>, String>) -> (res: Result<(), CryptoError>)
    ensures
        match piece {
            Ok(bytes) => res is Ok && final(out)@ == old(out)@ + bytes@,
            Err(message) => {
                &&& error::outcome(res) == Err::<(), ErrorView>(
                    ErrorView::SerializationError(message@),
                )
                &&& final(out)@ == old(out)@
            },
        },
{
    match piece {
        Ok(bytes) => {
            let mut bytes: Vec<u8> = bytes;
            out.append(&mut bytes);
            Ok(())
        },
        Err(message) => Err(CryptoError::SerializationError(message)),
    }
}

fn put_array<const N: usize>(out: &mut Vec<u8>, array: &[u8; N])
    ensures
        final(out)@ == old(out)@ + array@,
{
    out.extend_from_slice(array.as_slice());
    assert(out@ =~= old(out)@ + array@);
}

fn put_texts(out: &mut Vec<u8>, texts: &Vec<String>) -> (res: Result<(), CryptoError>)
    ensures
        res is Ok,
        final(out)@ == old(out)@ + texts_bytes(texts.deep_view()),
{
    let ghost all: Seq<Seq<char>> = texts.deep_view();
    put(out, codec::bincode_encode_u64(texts.len() as u64))?;
    let mut i: usize = 0;
    assert(all.skip(0) =~= all);
    while i < texts.len()
        invariant
            i <= texts@.len(),
            all == texts.deep_view(),
            out@ + run_of_texts_bytes(all.skip(i as int)) == old(out)@ + texts_bytes(all),
        decreases texts@.len() - i,
    {
        let ghost before: Seq<u8> = out@;
        put(out, codec::bincode_encode_text(texts[i].as_str()))?;
        assert(all.skip(i as int)[0] == texts@[i as int]@);
        assert(all.skip(i as int).skip(1) =~= all.skip(i + 1));
        assert(out@ + run_of_texts_bytes(all.skip(i + 1)) =~= before + run_of_texts_bytes(
            all.skip(i as int),
        ));
        i = i + 1;
    }
    assert(out@ =~= old(out)@ + texts_bytes(all));
    Ok(())
}

/// Writes a server message.
pub fn encode_server_message(message: &ServerMessage) -> (res: Result<Vec<u8>, CryptoError>)
    ensures
        res is Ok,
        res matches Ok(bytes) ==> bytes@ == server_message_bytes(message@),
{
    let mut out: Vec<u8> = Vec::new();
    match message {
        ServerMessage::JoinRoom { room_id } => {
            put(&mut out, codec::bincode_encode_u32(0))?;
            put(&mut out, codec::bincode_encode_text(room_id.as_str()))?;
        },
        ServerMessage::RoomMembers { members } => {
            put(&mut out, codec::bincode_encode_u32(1))?;
            put_texts(&mut out, members)?;
        },
        ServerMessage::PeerExchangeInit { target_client_id, sender_client_id, client_pk } => {
            put(&mut out, codec::bincode_encode_u32(2))?;
            put(&mut out, codec::bincode_encode_text(target_client_id.as_str()))?;
            put(&mut out, codec::bincode_encode_text(sender_client_id.as_str()))?;
            put(&mut out, codec::bincode_encode_blob(client_pk.as_slice()))?;
        },
        ServerMessage::PeerExchangeResponse { target_client_id, sender_client_id, ciphertext } => {
            put(&mut out, codec::bincode_encode_u32(3))?;
            put(&mut out, codec::bincode_encode_text(target_client_id.as_str()))?;
            put(&mut out, codec::bincode_encode_text(sender_client_id.as_str()))?;
            put(&mut out, codec::bincode_encode_blob(ciphertext.as_slice()))?;
        },
        ServerMessage::RelayPeerMessage { target_client_id, sender_client_id, peer_envelope } => {
            put(&mut out, codec::bincode_encode_u32(4))?;
            put(&mut out, codec::bincode_encode_text(target_client_id.as_str()))?;
            put(&mut out, codec::bincode_encode_text(sender_client_id.as_str()))?;
            put_array(&mut out, &peer_envelope.nonce);
            put(&mut out, codec::bincode_encode_blob(peer_envelope.ciphertext.as_slice()))?;
        },
    }
    assert(out@ =~= server_message_bytes(message@));
    Ok(out)
}

/// Writes a peer message.
pub fn encode_peer_message(message: &PeerMessage) -> (res: Result<Vec<u8>, CryptoError>)
    ensures
        res is Ok,
        res matches Ok(bytes) ==> bytes@ == peer_message_bytes(message@),
{
    let mut out: Vec<u8> = Vec::new();
    match message {
        PeerMessage::AuthRequest { username, auth_mac } => {
            put(&mut out, codec::bincode_encode_u32(0))?;
            put(&mut out, codec::bincode_encode_text(username.as_str()))?;
            put(&mut out, codec::bincode_encode_blob(auth_mac.as_slice()))?;
        },
        PeerMessage::AuthResponse { username, auth_mac } => {
            put(&mut out, codec::bincode_encode_u32(1))?;
            put(&mut out, codec::bincode_encode_text(username.as_str()))?;
            put(&mut out, codec::bincode_encode_blob(auth_mac.as_slice()))?;
        },
        PeerMessage::ChatMessage { timestamp, content } => {
            put(&mut out, codec::bincode_encode_u32(2))?;
            put(&mut out, codec::bincode_encode_u64(*timestamp))?;
            put(&mut out, codec::bincode_encode_text(content.as_str()))?;
        },
    }
    assert(out@ =~= peer_message_bytes(message@));
    Ok(out)
}

/// Writes a network message.
pub fn encode_network_message(message: &NetworkMessage) -> (res: Result<Vec<u8>, CryptoError>)
    ensures
        res is Ok,
        res matches Ok(bytes) ==> bytes@ == network_message_bytes(message@),
{
    let mut out: Vec<u8> = Vec::new();
    match message {
        NetworkMessage::ServerHello { server_pk } => {
            put(&mut out, codec::bincode_encode_u32(0))?;
            put(&mut out, codec::bincode_encode_blob(server_pk.as_slice()))?;
        },
        NetworkMessage::ClientKeyExchange { client_pk } => {
            put(&mut out, codec::bincode_encode_u32(1))?;
            put(&mut out, codec::bincode_encode_blob(client_pk.as_slice()))?;
        },
        NetworkMessage::ServerKeyExchange { ciphertext, signature } => {
            put(&mut out, codec::bincode_encode_u32(2))?;
            put(&mut out, codec::bincode_encode_blob(ciphertext.as_slice()))?;
            put(&mut out, codec::bincode_encode_blob(signature.as_slice()))?;
        },
        NetworkMessage::EncryptedPayload(envelope) => {
            put(&mut out, codec::bincode_encode_u32(3))?;
            put_array(&mut out, &envelope.nonce);
            put(&mut out, codec::bincode_encode_blob(envelope.ciphertext.as_slice()))?;
        },
    }
    assert(out@ =~= network_message_bytes(message@));
    Ok(out)
}

} // verus!
