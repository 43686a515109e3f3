//! How two clients come to trust each other through a server that passes their messages on, and
//! what they can do then.
use crate::client::{self, Answer, ClientState, ClientView};
use crate::crypto_engine;
use crate::error::ErrorView;
use crate::primitives::{codec, kdf, kem};
use crate::protocol::{
    EnvelopeView, NetworkMessageView, PeerMessageView, ServerMessageView,
};
use crate::wire;
use vstd::prelude::*;

verus! {

broadcast use {codec::u32_takes_four_bytes, codec::u64_takes_eight_bytes};

/// What the server, which shares the client's transport key, reads in what the client sends.
pub open spec fn read_by_server(
    client: ClientView,
    sent: NetworkMessageView,
) -> Option<ServerMessageView> {
    match sent {
        NetworkMessageView::EncryptedPayload(envelope) => match client.crypto.server_opening(
            envelope,
        ) {
            Ok(message) => Some(message),
            Err(_) => None,
        },
        _ => None,
    }
}

/// Whether the length of a string in bytes fits 32 bits.
pub open spec fn is_short(text: Seq<char>) -> bool {
    vstd::utf8::encode_utf8(text).len() <= u32::MAX
}

/// Whether a client has a transport key, and none of its strings is too long for the ciphers.
pub open spec fn is_ready(client: ClientView) -> bool {
    &&& client.crypto.transport_key is Some
    &&& is_short(client.client_id)
    &&& is_short(client.username)
    &&& is_short(client.room_id)
    &&& is_short(client.room_password)
}

/// The session key that a secret stands for in a client's room.
pub open spec fn room_key(client: ClientView, secret: Seq<u8>) -> Seq<u8> {
    crypto_engine::session_key_of(secret, client.room_password, client::room_salt(client.room_id))
}

proof fn room_salt_is_accepted(client: ClientView)
    requires
        is_ready(client),
    ensures
        kdf::argon2id_accepts(
            vstd::utf8::encode_utf8(client.room_password),
            client::room_salt(client.room_id),
        ),
{
}

/// An invitation goes out, and the server reads in it the public half of the key pair whose
/// secret half the client keeps.
pub proof fn invitation_goes_out(
    inviter: ClientView,
    member: Seq<char>,
    end: ClientView,
    res: Result<NetworkMessageView, ErrorView>,
)
    requires
        is_ready(inviter),
        is_short(member),
        inviter.invites(member, end, res),
    ensures
        is_ready(end),
        end.crypto.peers.contains_key(member),
        end.crypto.peers[member].pending_kem_sk matches Some(sk) && (res matches Ok(sent)
            && read_by_server(end, sent) == Some(
            ServerMessageView::PeerExchangeInit {
                target_client_id: member,
                sender_client_id: inviter.client_id,
                client_pk: kem::ml_kem_1024_encapsulation_key(sk),
            },
        )),
{
}

/// An invitation is answered: with a ciphertext for the inviter, whose secret gives the session
/// key that the invited client now holds.
pub proof fn invitation_is_answered(
    invited: ClientView,
    inviter_id: Seq<char>,
    client_pk: Seq<u8>,
    end: ClientView,
    res: Answer,
)
    requires
        is_ready(invited),
        is_short(inviter_id),
        kem::is_encapsulation_key(client_pk),
        invited.handles(
            ServerMessageView::PeerExchangeInit {
                target_client_id: invited.client_id,
                sender_client_id: inviter_id,
                client_pk,
            },
            end,
            res,
        ),
    ensures
        is_ready(end),
        res matches Ok(sent) && sent.len() == 1 && exists|ciphertext: Seq<u8>, secret: Seq<u8>|
            {
                &&& #[trigger] kem::is_encapsulation(client_pk, ciphertext, secret)
                &&& read_by_server(end, sent[0]) == Some(
                    ServerMessageView::PeerExchangeResponse {
                        target_client_id: inviter_id,
                        sender_client_id: invited.client_id,
                        ciphertext,
                    },
                )
                &&& end.crypto.session_key(inviter_id) == Ok::<Seq<u8>, ErrorView>(
                    room_key(invited, secret),
                )
            },
{
    room_salt_is_accepted(invited);
    let (ciphertext, secret) = choose|ciphertext: Seq<u8>, secret: Seq<u8>| #[trigger]
        kem::is_encapsulation(client_pk, ciphertext, secret) && invited.answers_with(
            inviter_id,
            ciphertext,
            secret,
            end,
            res,
        );
    assert(kem::is_encapsulation(client_pk, ciphertext, secret));
}

/// Whether the server reads, in what a client sends, a message for a peer that holds this
/// message.
pub open spec fn carries(
    client: ClientView,
    sent: NetworkMessageView,
    target: Seq<char>,
    message: PeerMessageView,
) -> bool {
    exists|envelope: EnvelopeView| #[trigger]
        client.crypto.seals_for_peer(target, message, Ok(envelope)) && read_by_server(client, sent)
            == Some(
            ServerMessageView::RelayPeerMessage {
                target_client_id: target,
                sender_client_id: client.client_id,
                peer_envelope: envelope,
            },
        )
}

proof fn proof_of_identity_is_relayed(
    client: ClientView,
    target: Seq<char>,
    message: PeerMessageView,
    res: Result<NetworkMessageView, ErrorView>,
)
    requires
        is_ready(client),
        is_short(target),
        client.crypto.session_key(target) is Ok,
        message is AuthRequest || message is AuthResponse,
        wire::peer_message_bytes(message).len() <= 0x2_0000_0000,
        client.relays(target, message, res),
    ensures
        res matches Ok(sent) && carries(client, sent, target, message),
{
    let envelope = choose|envelope: EnvelopeView| #[trigger]
        client.crypto.seals_for_peer(target, message, Ok(envelope)) && client.sends(
            ServerMessageView::RelayPeerMessage {
                target_client_id: target,
                sender_client_id: client.client_id,
                peer_envelope: envelope,
            },
            res,
        );
    assert(client.crypto.seals_for_peer(target, message, Ok(envelope)));
}

/// The inviter takes the answer: it finds the same secret, holds the same session key, and sends
/// its proof of identity.
pub proof fn answer_is_taken(
    inviter: ClientView,
    invited_id: Seq<char>,
    sk: Seq<u8>,
    ciphertext: Seq<u8>,
    secret: Seq<u8>,
    end: ClientView,
    res: Answer,
)
    requires
        is_ready(inviter),
        is_short(invited_id),
        inviter.crypto.peers.contains_key(invited_id),
        inviter.crypto.peers[invited_id].pending_kem_sk == Some(sk),
        sk.len() == kem::SEED_LEN,
        kem::is_encapsulation(kem::ml_kem_1024_encapsulation_key(sk), ciphertext, secret),
        kem::ml_kem_1024_decapsulation(sk, ciphertext) == secret,
        inviter.handles(
            ServerMessageView::PeerExchangeResponse {
                target_client_id: inviter.client_id,
                sender_client_id: invited_id,
                ciphertext,
            },
            end,
            res,
        ),
    ensures
        is_ready(end),
        end.crypto.session_key(invited_id) == Ok::<Seq<u8>, ErrorView>(room_key(inviter, secret)),
        res matches Ok(sent) && sent.len() == 1 && carries(
            end,
            sent[0],
            invited_id,
            PeerMessageView::AuthRequest {
                username: inviter.username,
                auth_mac: crypto_engine::auth_mac_of(
                    room_key(inviter, secret),
                    inviter.client_id,
                    invited_id,
                    inviter.username,
                ),
            },
        ),
{
    room_salt_is_accepted(inviter);
    let message = PeerMessageView::AuthRequest {
        username: inviter.username,
        auth_mac: crypto_engine::auth_mac_of(
            room_key(inviter, secret),
            inviter.client_id,
            invited_id,
            inviter.username,
        ),
    };
    let sent = choose|sent: Result<NetworkMessageView, ErrorView>|
        res == client::lone(sent) && #[trigger] end.relays(invited_id, message, sent);
    proof_of_identity_is_relayed(end, invited_id, message, sent);
}

/// A client that holds the session key takes the inviter's proof of identity: it counts the
/// inviter as authenticated and sends its own proof.
pub proof fn request_is_granted(
    invited: ClientView,
    inviter: ClientView,
    key: Seq<u8>,
    username: Seq<char>,
    envelope: EnvelopeView,
    end: ClientView,
    res: Answer,
)
    requires
        is_ready(invited),
        is_short(inviter.client_id),
        invited.crypto.session_key(inviter.client_id) == Ok::<Seq<u8>, ErrorView>(key),
        inviter.crypto.session_key(invited.client_id) == Ok::<Seq<u8>, ErrorView>(key),
        inviter.crypto.seals_for_peer(
            invited.client_id,
            PeerMessageView::AuthRequest {
                username,
                auth_mac: crypto_engine::auth_mac_of(
                    key,
                    inviter.client_id,
                    invited.client_id,
                    username,
                ),
            },
            Ok(envelope),
        ),
        invited.handles(
            ServerMessageView::RelayPeerMessage {
                target_client_id: invited.client_id,
                sender_client_id: inviter.client_id,
                peer_envelope: envelope,
            },
            end,
            res,
        ),
    ensures
        is_ready(end),
        end.crypto.authenticated(inviter.client_id),
        end.crypto.session_key(inviter.client_id) == Ok::<Seq<u8>, ErrorView>(key),
        res matches Ok(sent) && sent.len() == 1 && carries(
            end,
            sent[0],
            inviter.client_id,
            PeerMessageView::AuthResponse {
                username: invited.username,
                auth_mac: crypto_engine::auth_mac_of(
                    key,
                    invited.client_id,
                    inviter.client_id,
                    invited.username,
                ),
            },
        ),
{
    let message = PeerMessageView::AuthResponse {
        username: invited.username,
        auth_mac: crypto_engine::auth_mac_of(
            key,
            invited.client_id,
            inviter.client_id,
            invited.username,
        ),
    };
    let sent = choose|sent: Result<NetworkMessageView, ErrorView>|
        res == client::lone(sent) && #[trigger] end.relays(inviter.client_id, message, sent);
    proof_of_identity_is_relayed(end, inviter.client_id, message, sent);
}

/// The inviter takes the reply: it counts the invited client as authenticated.
pub proof fn reply_is_accepted(
    inviter: ClientView,
    invited: ClientView,
    key: Seq<u8>,
    username: Seq<char>,
    envelope: EnvelopeView,
    end: ClientView,
    res: Answer,
)
    requires
        inviter.crypto.session_key(invited.client_id) == Ok::<Seq<u8>, ErrorView>(key),
        invited.crypto.session_key(inviter.client_id) == Ok::<Seq<u8>, ErrorView>(key),
        invited.crypto.seals_for_peer(
            inviter.client_id,
            PeerMessageView::AuthResponse {
                username,
                auth_mac: crypto_engine::auth_mac_of(
                    key,
                    invited.client_id,
                    inviter.client_id,
                    username,
                ),
            },
            Ok(envelope),
        ),
        inviter.handles(
            ServerMessageView::RelayPeerMessage {
                target_client_id: inviter.client_id,
                sender_client_id: invited.client_id,
                peer_envelope: envelope,
            },
            end,
            res,
        ),
    ensures
        end.crypto.authenticated(invited.client_id),
        end.crypto.session_key(invited.client_id) == Ok::<Seq<u8>, ErrorView>(key),
        res == Ok::<Seq<NetworkMessageView>, ErrorView>(Seq::empty()),
{
}

/// Whether the server passes on what it reads in a sent message, and the receiver then ends up
/// here.
pub open spec fn is_passed_on(
    sender: ClientView,
    sent: NetworkMessageView,
    receiver: ClientView,
    end: ClientView,
    res: Answer,
) -> bool {
    read_by_server(sender, sent) matches Some(message) ==> receiver.handles(message, end, res)
}

/// An invitation between two clients that know the room's password, followed by the messages
/// that it leads to, each passed on by the server, ends with both holding the same session key
/// and each counting the other as authenticated.
pub proof fn invitation_authenticates_both(
    inviter: ClientView,
    invited: ClientView,
    inviting: ClientView,
    offer: Result<NetworkMessageView, ErrorView>,
    answering: ClientView,
    answer: Answer,
    requesting: ClientView,
    request: Answer,
    replying: ClientView,
    reply: Answer,
    end: ClientView,
    done: Answer,
)
    requires
        is_ready(inviter),
        is_ready(invited),
        inviter.room_id == invited.room_id,
        inviter.room_password == invited.room_password,
        inviter.invites(invited.client_id, inviting, offer),
        offer matches Ok(sent) ==> is_passed_on(inviting, sent, invited, answering, answer),
        answer matches Ok(sent) ==> is_passed_on(answering, sent[0], inviting, requesting, request),
        request matches Ok(sent) ==> is_passed_on(requesting, sent[0], answering, replying, reply),
        reply matches Ok(sent) ==> is_passed_on(replying, sent[0], requesting, end, done),
        forall|ciphertext: Seq<u8>, secret: Seq<u8>|
            (answer matches Ok(sent) && read_by_server(answering, sent[0]) == Some(
                ServerMessageView::PeerExchangeResponse {
                    target_client_id: inviter.client_id,
                    sender_client_id: invited.client_id,
                    ciphertext,
                },
            )) && #[trigger] kem::is_encapsulation(
                kem::ml_kem_1024_encapsulation_key(
                    inviting.crypto.peers[invited.client_id].pending_kem_sk->0,
                ),
                ciphertext,
                secret,
            ) ==> kem::ml_kem_1024_decapsulation(
                inviting.crypto.peers[invited.client_id].pending_kem_sk->0,
                ciphertext,
            ) == secret,
    ensures
        end.crypto.authenticated(invited.client_id),
        replying.crypto.authenticated(inviter.client_id),
        end.crypto.session_key(invited.client_id) is Ok,
        end.crypto.session_key(invited.client_id) == replying.crypto.session_key(
            inviter.client_id,
        ),
        done == Ok::<Seq<NetworkMessageView>, ErrorView>(Seq::empty()),
{
    let sk = inviting.crypto.peers[invited.client_id].pending_kem_sk->0;
    let client_pk = kem::ml_kem_1024_encapsulation_key(sk);
    invitation_goes_out(inviter, invited.client_id, inviting, offer);
    invitation_is_answered(invited, inviter.client_id, client_pk, answering, answer);
    let (ciphertext, secret) = choose|ciphertext: Seq<u8>, secret: Seq<u8>|
        {
            &&& #[trigger] kem::is_encapsulation(client_pk, ciphertext, secret)
            &&& read_by_server(answering, answer->Ok_0[0]) == Some(
                ServerMessageView::PeerExchangeResponse {
                    target_client_id: inviter.client_id,
                    sender_client_id: invited.client_id,
                    ciphertext,
                },
            )
            &&& answering.crypto.session_key(inviter.client_id) == Ok::<Seq<u8>, ErrorView>(
                room_key(invited, secret),
            )
        };
    assert(kem::is_encapsulation(client_pk, ciphertext, secret));
    answer_is_taken(
        inviting,
        invited.client_id,
        sk,
        ciphertext,
        secret,
        requesting,
        request,
    );
    let key = room_key(inviter, secret);
    let asked = PeerMessageView::AuthRequest {
        username: inviter.username,
        auth_mac: crypto_engine::auth_mac_of(
            key,
            inviter.client_id,
            invited.client_id,
            inviter.username,
        ),
    };
    assert(carries(requesting, request->Ok_0[0], invited.client_id, asked));
    let asking = choose|envelope: EnvelopeView| #[trigger]
        requesting.crypto.seals_for_peer(invited.client_id, asked, Ok(envelope))
            && read_by_server(requesting, request->Ok_0[0]) == Some(
            ServerMessageView::RelayPeerMessage {
                target_client_id: invited.client_id,
                sender_client_id: requesting.client_id,
                peer_envelope: envelope,
            },
        );
    request_is_granted(answering, requesting, key, inviter.username, asking, replying, reply);
    let granted = PeerMessageView::AuthResponse {
        username: invited.username,
        auth_mac: crypto_engine::auth_mac_of(
            key,
            invited.client_id,
            inviter.client_id,
            invited.username,
        ),
    };
    assert(carries(replying, reply->Ok_0[0], inviter.client_id, granted));
    let granting = choose|envelope: EnvelopeView| #[trigger]
        replying.crypto.seals_for_peer(inviter.client_id, granted, Ok(envelope))
            && read_by_server(replying, reply->Ok_0[0]) == Some(
            ServerMessageView::RelayPeerMessage {
                target_client_id: inviter.client_id,
                sender_client_id: replying.client_id,
                peer_envelope: envelope,
            },
        );
    reply_is_accepted(requesting, replying, key, invited.username, granting, end, done);
}

/// A chat message between two clients that hold the same session key and count each other as
/// authenticated, passed on by the server, arrives in the receiver's inbox as it was sent.
pub proof fn chat_is_delivered(
    sender: ClientView,
    receiver: ClientView,
    timestamp: u64,
    content: Seq<char>,
    sent: NetworkMessageView,
    end: ClientView,
    res: Answer,
)
    requires
        sender.chats(receiver.client_id, timestamp, content, Ok(sent)),
        receiver.crypto.session_key(sender.client_id) == sender.crypto.session_key(
            receiver.client_id,
        ),
        receiver.crypto.authenticated(sender.client_id),
        is_passed_on(sender, sent, receiver, end, res),
    ensures
        res == Ok::<Seq<NetworkMessageView>, ErrorView>(Seq::empty()),
        end == (ClientView {
            chat_inbox: receiver.chat_inbox.push((sender.client_id, timestamp, content)),
            ..receiver
        }),
{
}

/// A client in a room chats with every authenticated peer whose session key it has, unless id or
/// content are too long for the ciphers.
pub proof fn chat_goes_out(
    sender: ClientView,
    target: Seq<char>,
    timestamp: u64,
    content: Seq<char>,
    res: Result<NetworkMessageView, ErrorView>,
)
    requires
        is_ready(sender),
        sender.state == ClientState::RoomJoined,
        sender.crypto.authenticated(target),
        sender.crypto.session_key(target) is Ok,
        is_short(target),
        is_short(content),
        sender.chats(target, timestamp, content, res),
    ensures
        res matches Ok(sent) && carries(
            sender,
            sent,
            target,
            PeerMessageView::ChatMessage { timestamp, content },
        ),
{
    let message = PeerMessageView::ChatMessage { timestamp, content };
    let envelope = choose|envelope: EnvelopeView| #[trigger]
        sender.crypto.seals_for_peer(target, message, Ok(envelope)) && sender.sends(
            ServerMessageView::RelayPeerMessage {
                target_client_id: target,
                sender_client_id: sender.client_id,
                peer_envelope: envelope,
            },
            res,
        );
    assert(sender.crypto.seals_for_peer(target, message, Ok(envelope)));
}

/// Whether the server reads, in what a client sends, the offer of this public key to a member.
pub open spec fn offers(
    client: ClientView,
    sent: NetworkMessageView,
    member: Seq<char>,
    client_pk: Seq<u8>,
) -> bool {
    read_by_server(client, sent) == Some(
        ServerMessageView::PeerExchangeInit {
            target_client_id: member,
            sender_client_id: client.client_id,
            client_pk,
        },
    )
}

/// Whether a member is sent the offer of a well-formed public key.
pub open spec fn is_offered_a_key(
    client: ClientView,
    sent: NetworkMessageView,
    member: Seq<char>,
) -> bool {
    exists|client_pk: Seq<u8>|
        kem::is_encapsulation_key(client_pk) && #[trigger] offers(client, sent, member, client_pk)
}

/// Whether a client keeps, for a member, the secret half of a key pair whose public half is
/// offered to it in one of these messages.
pub open spec fn keeps_an_offered_key(
    client: ClientView,
    sent: Seq<NetworkMessageView>,
    member: Seq<char>,
) -> bool {
    &&& client.crypto.peers.contains_key(member)
    &&& client.crypto.peers[member].pending_kem_sk matches Some(sk)
    &&& exists|j: int|
        0 <= j < sent.len() && #[trigger] offers(
            client,
            sent[j],
            member,
            kem::ml_kem_1024_encapsulation_key(sk),
        )
}

/// The members of a room other than the client itself.
pub open spec fn others(client: ClientView, members: Seq<Seq<char>>) -> Seq<Seq<char>> {
    members.filter(|member: Seq<char>| member != client.client_id)
}

proof fn kept_keys_stay_kept(
    before: ClientView,
    end: ClientView,
    sent: Seq<NetworkMessageView>,
    newest: NetworkMessageView,
    member: Seq<char>,
)
    requires
        keeps_an_offered_key(before, sent, member),
        end.client_id == before.client_id,
        end.crypto.transport_key == before.crypto.transport_key,
        end.crypto.peers.contains_key(member),
        end.crypto.peers[member] == before.crypto.peers[member],
    ensures
        keeps_an_offered_key(end, sent.push(newest), member),
{
    let sk = before.crypto.peers[member].pending_kem_sk->0;
    let client_pk = kem::ml_kem_1024_encapsulation_key(sk);
    let j = choose|j: int|
        0 <= j < sent.len() && #[trigger] offers(before, sent[j], member, client_pk);
    assert(sent.push(newest)[j] == sent[j]);
    assert(offers(end, sent.push(newest)[j], member, client_pk));
}

proof fn newest_key_is_kept(
    before: ClientView,
    end: ClientView,
    sent: Seq<NetworkMessageView>,
    newest: NetworkMessageView,
    member: Seq<char>,
)
    requires
        before.invites(member, end, Ok(newest)),
    ensures
        is_offered_a_key(end, newest, member),
        keeps_an_offered_key(end, sent.push(newest), member),
        end.client_id == before.client_id,
        end.crypto.transport_key == before.crypto.transport_key,
        forall|other: Seq<char>|
            other != member && before.crypto.peers.contains_key(other) ==> {
                &&& #[trigger] end.crypto.peers.contains_key(other)
                &&& end.crypto.peers[other] == before.crypto.peers[other]
            },
{
    let client_pk = kem::ml_kem_1024_encapsulation_key(
        end.crypto.peers[member].pending_kem_sk->0,
    );
    assert(sent.push(newest)[sent.len() as int] == newest);
    assert(offers(end, newest, member, client_pk));
    assert(offers(end, sent.push(newest)[sent.len() as int], member, client_pk));
}

proof fn offers_stay_readable(
    before: ClientView,
    end: ClientView,
    sent: NetworkMessageView,
    member: Seq<char>,
)
    requires
        is_offered_a_key(before, sent, member),
        end.client_id == before.client_id,
        end.crypto.transport_key == before.crypto.transport_key,
    ensures
        is_offered_a_key(end, sent, member),
{
    let client_pk = choose|client_pk: Seq<u8>|
        kem::is_encapsulation_key(client_pk) && #[trigger] offers(before, sent, member, client_pk);
    assert(offers(end, sent, member, client_pk));
}

/// Each member of the room but the client itself is sent one offer of a well-formed public key,
/// in the order of the list, and for each of them the client keeps the secret half of a key pair
/// whose public half was offered to it.
pub proof fn every_other_member_is_invited(
    client: ClientView,
    members: Seq<Seq<char>>,
    end: ClientView,
    sent: Seq<NetworkMessageView>,
)
    requires
        client.invites_all(members, end, sent),
    ensures
        sent.len() == others(client, members).len(),
        forall|i: int|
            0 <= i < sent.len() ==> is_offered_a_key(
                end,
                #[trigger] sent[i],
                others(client, members)[i],
            ),
        forall|i: int|
            0 <= i < sent.len() ==> keeps_an_offered_key(
                end,
                sent,
                #[trigger] others(client, members)[i],
            ),
    decreases members.len(),
{
    reveal(Seq::filter);
    if members.len() > 0 {
        let earlier = members.drop_last();
        if members.last() == client.client_id {
            every_other_member_is_invited(client, earlier, end, sent);
        } else {
            let before = choose|before: ClientView|
                client.invites_all(earlier, before, sent.drop_last()) && #[trigger] before.invites(
                    members.last(),
                    end,
                    Ok(sent.last()),
                );
            let prior = sent.drop_last();
            let all = others(client, members);
            every_other_member_is_invited(client, earlier, before, prior);
            newest_key_is_kept(before, end, prior, sent.last(), members.last());
            assert(all == others(client, earlier).push(members.last()));
            assert(sent == prior.push(sent.last()));
            assert forall|i: int| 0 <= i < sent.len() implies is_offered_a_key(
                end,
                #[trigger] sent[i],
                all[i],
            ) by {
                if i < prior.len() {
                    assert(prior[i] == sent[i]);
                    offers_stay_readable(before, end, sent[i], all[i]);
                }
            }
            assert forall|i: int| 0 <= i < sent.len() implies keeps_an_offered_key(
                end,
                sent,
                #[trigger] all[i],
            ) by {
                if all[i] != members.last() {
                    assert(others(client, earlier)[i] == all[i]);
                    kept_keys_stay_kept(before, end, prior, sent.last(), all[i]);
                }
            }
        }
    }
}

/// A client that has a transport key greets every list of members, unless one of their ids is
/// too long for the ciphers.
pub proof fn members_are_greeted(
    client: ClientView,
    members: Seq<Seq<char>>,
    end: ClientView,
    res: Answer,
)
    requires
        is_ready(client),
        forall|i: int| 0 <= i < members.len() ==> is_short(#[trigger] members[i]),
        client.greets(members, end, res),
    ensures
        res is Ok,
{
    if let Err(error) = res {
        let (n, before, sent) = choose|n: int, before: ClientView, sent: Seq<NetworkMessageView>|
            0 <= n < members.len() && members[n] != client.client_id
                && #[trigger] client.invites_all(members.take(n), before, sent) && before.invites(
                members[n],
                end,
                Err(error),
            );
        crate::laws::client::invitations_keep_the_rest(client, members.take(n), before, sent);
        invitation_goes_out(before, members[n], end, Err(error));
    }
}

/// A fresh client that is greeted by a server, offers it a key, and gets a signed answer to that
/// key, is connected: it holds the transport key that the server derives from the same secret,
/// and the one message that it sends is its request to join the room.
pub proof fn server_handshake_connects(
    client: ClientView,
    server_pk: Seq<u8>,
    waiting: ClientView,
    offer: Answer,
    ciphertext: Seq<u8>,
    signature: Seq<u8>,
    secret: Seq<u8>,
    end: ClientView,
    res: Answer,
)
    requires
        client.state == ClientState::Disconnected,
        is_short(client.room_id),
        server_pk.len() == crate::primitives::signature::VERIFYING_KEY_LEN,
        client.processes(NetworkMessageView::ServerHello { server_pk }, waiting, offer),
        offer matches Ok(sent) ==> (sent[0] matches NetworkMessageView::ClientKeyExchange {
            client_pk,
        } ==> kem::is_encapsulation(client_pk, ciphertext, secret)),
        waiting.crypto.pending_transport_sk matches Some(sk) ==> kem::ml_kem_1024_decapsulation(
            sk,
            ciphertext,
        ) == secret,
        crate::primitives::signature::ml_dsa_87_verifies(server_pk, ciphertext, signature),
        waiting.processes(
            NetworkMessageView::ServerKeyExchange { ciphertext, signature },
            end,
            res,
        ),
    ensures
        waiting.state == ClientState::WaitingForServerKey,
        offer matches Ok(sent) && sent.len() == 1 && sent[0] is ClientKeyExchange,
        end.state == ClientState::Connected,
        end.crypto.transport_key == Some(crypto_engine::transport_key_of(secret)),
        res matches Ok(sent) && sent.len() == 1 && read_by_server(end, sent[0]) == Some(
            ServerMessageView::JoinRoom { room_id: client.room_id },
        ),
{
}

} // verus!
