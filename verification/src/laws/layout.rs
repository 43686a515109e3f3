//! Where each field of a message stands in its binary form, and what becomes of bytes that hold
//! no message. Everything is put in terms of the codec's pieces: numbers, strings, byte strings.
use crate::primitives::codec;
use crate::protocol::{
    EnvelopeView, NetworkMessageView, PeerMessageView, ServerMessageView,
};
use crate::wire;
use vstd::prelude::*;

verus! {

broadcast use {codec::u32_takes_four_bytes, codec::u64_takes_eight_bytes};

/// A server message is written as its variant's number, then its fields in this order.
pub proof fn server_message_layout(
    room_id: Seq<char>,
    members: Seq<Seq<char>>,
    target: Seq<char>,
    sender: Seq<char>,
    blob: Seq<u8>,
    nonce: Seq<u8>,
)
    ensures
        wire::server_message_bytes(ServerMessageView::JoinRoom { room_id }) == codec::u32_bytes(0)
            + codec::text_bytes(room_id),
        wire::server_message_bytes(ServerMessageView::RoomMembers { members })
            == codec::u32_bytes(1) + codec::u64_bytes(members.len() as u64) + members.map_values(
            |member: Seq<char>| codec::text_bytes(member),
        ).flatten(),
        wire::server_message_bytes(
            ServerMessageView::PeerExchangeInit {
                target_client_id: target,
                sender_client_id: sender,
                client_pk: blob,
            },
        ) == codec::u32_bytes(2) + codec::text_bytes(target) + codec::text_bytes(sender)
            + codec::blob_bytes(blob),
        wire::server_message_bytes(
            ServerMessageView::PeerExchangeResponse {
                target_client_id: target,
                sender_client_id: sender,
                ciphertext: blob,
            },
        ) == codec::u32_bytes(3) + codec::text_bytes(target) + codec::text_bytes(sender)
            + codec::blob_bytes(blob),
        wire::server_message_bytes(
            ServerMessageView::RelayPeerMessage {
                target_client_id: target,
                sender_client_id: sender,
                peer_envelope: EnvelopeView { nonce, ciphertext: blob },
            },
        ) == codec::u32_bytes(4) + codec::text_bytes(target) + codec::text_bytes(sender) + nonce
            + codec::blob_bytes(blob),
{
    run_of_texts_is_flat(members);
    let run = members.map_values(|member: Seq<char>| codec::text_bytes(member)).flatten();
    assert(codec::u32_bytes(1) + (codec::u64_bytes(members.len() as u64) + run)
        =~= codec::u32_bytes(1) + codec::u64_bytes(members.len() as u64) + run);
}

proof fn run_of_texts_is_flat(texts: Seq<Seq<char>>)
    ensures
        wire::run_of_texts_bytes(texts) == texts.map_values(
            |text: Seq<char>| codec::text_bytes(text),
        ).flatten(),
    decreases texts.len(),
{
    let pieces = texts.map_values(|text: Seq<char>| codec::text_bytes(text));
    if texts.len() > 0 {
        run_of_texts_is_flat(texts.skip(1));
        assert(pieces.drop_first() =~= texts.skip(1).map_values(
            |text: Seq<char>| codec::text_bytes(text),
        ));
        assert(pieces.first() == codec::text_bytes(texts[0]));
    }
}

/// A peer message is written as its variant's number, then its fields in this order.
pub proof fn peer_message_layout(
    username: Seq<char>,
    auth_mac: Seq<u8>,
    timestamp: u64,
    content: Seq<char>,
)
    ensures
        wire::peer_message_bytes(PeerMessageView::AuthRequest { username, auth_mac })
            == codec::u32_bytes(0) + codec::text_bytes(username) + codec::blob_bytes(auth_mac),
        wire::peer_message_bytes(PeerMessageView::AuthResponse { username, auth_mac })
            == codec::u32_bytes(1) + codec::text_bytes(username) + codec::blob_bytes(auth_mac),
        wire::peer_message_bytes(PeerMessageView::ChatMessage { timestamp, content })
            == codec::u32_bytes(2) + codec::u64_bytes(timestamp) + codec::text_bytes(content),
{
}

/// A network message is written as its variant's number, then its fields in this order.
pub proof fn network_message_layout(
    key: Seq<u8>,
    ciphertext: Seq<u8>,
    signature: Seq<u8>,
    nonce: Seq<u8>,
)
    ensures
        wire::network_message_bytes(NetworkMessageView::ServerHello { server_pk: key })
            == codec::u32_bytes(0) + codec::blob_bytes(key),
        wire::network_message_bytes(NetworkMessageView::ClientKeyExchange { client_pk: key })
            == codec::u32_bytes(1) + codec::blob_bytes(key),
        wire::network_message_bytes(
            NetworkMessageView::ServerKeyExchange { ciphertext, signature },
        ) == codec::u32_bytes(2) + codec::blob_bytes(ciphertext) + codec::blob_bytes(signature),
        wire::network_message_bytes(
            NetworkMessageView::EncryptedPayload(EnvelopeView { nonce, ciphertext }),
        ) == codec::u32_bytes(3) + nonce + codec::blob_bytes(ciphertext),
{
}

/// The signed half of a key exchange is read from the ciphertext first, then the signature,
/// whatever follows.
pub proof fn server_key_exchange_is_read_in_order(
    ciphertext: Seq<u8>,
    signature: Seq<u8>,
    tail: Seq<u8>,
)
    requires
        ciphertext.len() <= u64::MAX,
        signature.len() <= u64::MAX,
    ensures
        wire::network_message_at(
            codec::u32_bytes(2) + codec::blob_bytes(ciphertext) + codec::blob_bytes(signature)
                + tail,
        ) == Ok::<NetworkMessageView, Seq<char>>(
            NetworkMessageView::ServerKeyExchange { ciphertext, signature },
        ),
{
    let last = codec::blob_bytes(signature) + tail;
    let rest = codec::blob_bytes(ciphertext) + last;
    assert(codec::u32_bytes(2) + codec::blob_bytes(ciphertext) + codec::blob_bytes(signature)
        + tail =~= codec::u32_bytes(2) + rest);
    crate::laws::wire::u32_reads_back(2, rest);
    crate::laws::wire::blob_reads_back(ciphertext, last);
    crate::laws::wire::blob_reads_back(signature, tail);
}

/// What is read of bytes that start with no known variant.
pub proof fn unknown_variants_are_refused(input: Seq<u8>)
    ensures
        input.len() < 4 ==> {
            &&& wire::server_message_at(input) == Err::<ServerMessageView, Seq<char>>(
                codec::bincode_u32_error(input),
            )
            &&& wire::peer_message_at(input) == Err::<PeerMessageView, Seq<char>>(
                codec::bincode_u32_error(input),
            )
            &&& wire::network_message_at(input) == Err::<NetworkMessageView, Seq<char>>(
                codec::bincode_u32_error(input),
            )
        },
        input.len() >= 4 && codec::u32_value(input) >= 5 ==> wire::server_message_at(input)
            == Err::<ServerMessageView, Seq<char>>(
            "invalid value: integer `"@ + codec::decimal(codec::u32_value(input) as nat)
                + "`, expected "@ + "variant index 0 <= i < 5"@,
        ),
        input.len() >= 4 && codec::u32_value(input) >= 3 ==> wire::peer_message_at(input) == Err::<
            PeerMessageView,
            Seq<char>,
        >(
            "invalid value: integer `"@ + codec::decimal(codec::u32_value(input) as nat)
                + "`, expected "@ + "variant index 0 <= i < 3"@,
        ),
        input.len() >= 4 && codec::u32_value(input) >= 4 ==> wire::network_message_at(input)
            == Err::<NetworkMessageView, Seq<char>>(
            "invalid value: integer `"@ + codec::decimal(codec::u32_value(input) as nat)
                + "`, expected "@ + "variant index 0 <= i < 4"@,
        ),
{
}

/// What a request to join and a list of members are read from.
pub proof fn room_messages_are_read(input: Seq<u8>)
    requires
        input.len() >= 4,
    ensures
        codec::u32_value(input) == 0 ==> wire::server_message_at(input) == match codec::text_at(
            input.skip(4),
        ) {
            Some(room_id) => Ok::<ServerMessageView, Seq<char>>(
                ServerMessageView::JoinRoom { room_id },
            ),
            None => Err(codec::bincode_text_error(input.skip(4), usize::BITS as nat)),
        },
        codec::u32_value(input) == 1 ==> wire::server_message_at(input) == match codec::texts_at(
            input.skip(4),
        ) {
            Some(members) => Ok::<ServerMessageView, Seq<char>>(
                ServerMessageView::RoomMembers { members },
            ),
            None => Err(codec::bincode_texts_error(input.skip(4), usize::BITS as nat)),
        },
{
}

/// What messages between peers are read from: first whom they are for, then whom they are from,
/// then what they carry. The first of these that is not there decides the error.
pub proof fn routed_messages_are_read(input: Seq<u8>)
    requires
        input.len() >= 4,
        2 <= codec::u32_value(input) <= 4,
    ensures
        ({
            let route = input.skip(4);
            match codec::text_at(route) {
                None => wire::server_message_at(input) == Err::<ServerMessageView, Seq<char>>(
                    codec::bincode_text_error(route, usize::BITS as nat),
                ),
                Some(target_client_id) => {
                    let onward = route.skip(8int + vstd::utf8::encode_utf8(target_client_id).len());
                    match codec::text_at(onward) {
                        None => wire::server_message_at(input) == Err::<
                            ServerMessageView,
                            Seq<char>,
                        >(codec::bincode_text_error(onward, usize::BITS as nat)),
                        Some(sender_client_id) => {
                            let body = onward.skip(8int + vstd::utf8::encode_utf8(sender_client_id).len());
                            &&& codec::u32_value(input) == 2 ==> wire::server_message_at(input)
                                == match codec::blob_at(body) {
                                Some(client_pk) => Ok::<ServerMessageView, Seq<char>>(
                                    ServerMessageView::PeerExchangeInit {
                                        target_client_id,
                                        sender_client_id,
                                        client_pk,
                                    },
                                ),
                                None => Err(
                                    codec::bincode_blob_error(body, usize::BITS as nat),
                                ),
                            }
                            &&& codec::u32_value(input) == 3 ==> wire::server_message_at(input)
                                == match codec::blob_at(body) {
                                Some(ciphertext) => Ok::<ServerMessageView, Seq<char>>(
                                    ServerMessageView::PeerExchangeResponse {
                                        target_client_id,
                                        sender_client_id,
                                        ciphertext,
                                    },
                                ),
                                None => Err(
                                    codec::bincode_blob_error(body, usize::BITS as nat),
                                ),
                            }
                            &&& codec::u32_value(input) == 4 && body.len() < 24
                                ==> wire::server_message_at(input) == Err::<
                                ServerMessageView,
                                Seq<char>,
                            >(codec::bincode_u8_error(Seq::empty()))
                            &&& codec::u32_value(input) == 4 && body.len() >= 24
                                ==> wire::server_message_at(input) == match codec::blob_at(
                                body.skip(24),
                            ) {
                                Some(ciphertext) => Ok::<ServerMessageView, Seq<char>>(
                                    ServerMessageView::RelayPeerMessage {
                                        target_client_id,
                                        sender_client_id,
                                        peer_envelope: EnvelopeView {
                                            nonce: body.take(24),
                                            ciphertext,
                                        },
                                    },
                                ),
                                None => Err(
                                    codec::bincode_blob_error(body.skip(24), usize::BITS as nat),
                                ),
                            }
                        },
                    }
                },
            }
        }),
{
}

/// What peer messages are read from.
pub proof fn peer_messages_are_read(input: Seq<u8>)
    requires
        input.len() >= 4,
    ensures
        ({
            let fields = input.skip(4);
            &&& codec::u32_value(input) == 0 || codec::u32_value(input) == 1
                ==> match codec::text_at(fields) {
                None => wire::peer_message_at(input) == Err::<PeerMessageView, Seq<char>>(
                    codec::bincode_text_error(fields, usize::BITS as nat),
                ),
                Some(username) => {
                    let code = fields.skip(8int + vstd::utf8::encode_utf8(username).len());
                    match codec::blob_at(code) {
                        None => wire::peer_message_at(input) == Err::<PeerMessageView, Seq<char>>(
                            codec::bincode_blob_error(code, usize::BITS as nat),
                        ),
                        Some(auth_mac) => {
                            &&& codec::u32_value(input) == 0 ==> wire::peer_message_at(input)
                                == Ok::<PeerMessageView, Seq<char>>(
                                PeerMessageView::AuthRequest { username, auth_mac },
                            )
                            &&& codec::u32_value(input) == 1 ==> wire::peer_message_at(input)
                                == Ok::<PeerMessageView, Seq<char>>(
                                PeerMessageView::AuthResponse { username, auth_mac },
                            )
                        },
                    }
                },
            }
            &&& codec::u32_value(input) == 2 && fields.len() < 8 ==> wire::peer_message_at(input)
                == Err::<PeerMessageView, Seq<char>>(codec::bincode_u64_error(fields))
            &&& codec::u32_value(input) == 2 && fields.len() >= 8 ==> wire::peer_message_at(input)
                == match codec::text_at(fields.skip(8)) {
                Some(content) => Ok::<PeerMessageView, Seq<char>>(
                    PeerMessageView::ChatMessage {
                        timestamp: codec::u64_value(fields),
                        content,
                    },
                ),
                None => Err(codec::bincode_text_error(fields.skip(8), usize::BITS as nat)),
            }
        }),
{
}

/// What network messages are read from.
pub proof fn network_messages_are_read(input: Seq<u8>)
    requires
        input.len() >= 4,
    ensures
        ({
            let fields = input.skip(4);
            &&& codec::u32_value(input) == 0 ==> wire::network_message_at(input)
                == match codec::blob_at(fields) {
                Some(server_pk) => Ok::<NetworkMessageView, Seq<char>>(
                    NetworkMessageView::ServerHello { server_pk },
                ),
                None => Err(codec::bincode_blob_error(fields, usize::BITS as nat)),
            }
            &&& codec::u32_value(input) == 1 ==> wire::network_message_at(input)
                == match codec::blob_at(fields) {
                Some(client_pk) => Ok::<NetworkMessageView, Seq<char>>(
                    NetworkMessageView::ClientKeyExchange { client_pk },
                ),
                None => Err(codec::bincode_blob_error(fields, usize::BITS as nat)),
            }
            &&& codec::u32_value(input) == 2 ==> match codec::blob_at(fields) {
                None => wire::network_message_at(input) == Err::<NetworkMessageView, Seq<char>>(
                    codec::bincode_blob_error(fields, usize::BITS as nat),
                ),
                Some(ciphertext) => wire::network_message_at(input) == match codec::blob_at(
                    fields.skip(8int + ciphertext.len()),
                ) {
                    Some(signature) => Ok::<NetworkMessageView, Seq<char>>(
                        NetworkMessageView::ServerKeyExchange { ciphertext, signature },
                    ),
                    None => Err(
                        codec::bincode_blob_error(
                            fields.skip(8int + ciphertext.len()),
                            usize::BITS as nat,
                        ),
                    ),
                },
            }
            &&& codec::u32_value(input) == 3 && fields.len() < 12 ==> wire::network_message_at(
                input,
            ) == Err::<NetworkMessageView, Seq<char>>(codec::bincode_u8_error(Seq::empty()))
            &&& codec::u32_value(input) == 3 && fields.len() >= 12 ==> wire::network_message_at(
                input,
            ) == match codec::blob_at(fields.skip(12)) {
                Some(ciphertext) => Ok::<NetworkMessageView, Seq<char>>(
                    NetworkMessageView::EncryptedPayload(
                        EnvelopeView { nonce: fields.take(12), ciphertext },
                    ),
                ),
                None => Err(codec::bincode_blob_error(fields.skip(12), usize::BITS as nat)),
            }
        }),
{
}

} // verus!
