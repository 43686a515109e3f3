//! What holds of a client whatever it is sent.
use crate::client::{Answer, ClientState, ClientView};
use crate::error::ErrorView;
use crate::protocol::{
    EnvelopeView, NetworkMessageView, PeerMessageView, ServerMessageView,
};
use vstd::prelude::*;

verus! {

/// Whether two clients differ in nothing but the sessions of their peers.
pub open spec fn same_but_for_peers(before: ClientView, after: ClientView) -> bool {
    after == before.with_crypto(
        crate::crypto_engine::EngineView { peers: after.crypto.peers, ..before.crypto },
    )
}

/// Whether no peer counts as authenticated, or loses its session key, that did not before.
spec fn earns_nothing(before: ClientView, after: ClientView) -> bool {
    forall|id: Seq<char>| #[trigger]
        after.crypto.authenticated(id) ==> {
            &&& before.crypto.authenticated(id)
            &&& after.crypto.peers[id].session_key == before.crypto.peers[id].session_key
        }
}

/// Invitations change nothing but the sessions of peers, and authenticate none of them.
pub proof fn invitations_keep_the_rest(
    client: ClientView,
    members: Seq<Seq<char>>,
    end: ClientView,
    sent: Seq<NetworkMessageView>,
)
    requires
        client.invites_all(members, end, sent),
    ensures
        same_but_for_peers(client, end),
        forall|id: Seq<char>| #[trigger]
            end.crypto.authenticated(id) ==> {
                &&& client.crypto.authenticated(id)
                &&& end.crypto.peers[id].session_key == client.crypto.peers[id].session_key
            },
    decreases members.len(),
{
    if members.len() > 0 {
        if members.last() == client.client_id {
            invitations_keep_the_rest(client, members.drop_last(), end, sent);
        } else {
            let before = choose|before: ClientView|
                client.invites_all(members.drop_last(), before, sent.drop_last())
                    && #[trigger] before.invites(members.last(), end, Ok(sent.last()));
            invitations_keep_the_rest(client, members.drop_last(), before, sent.drop_last());
            assert(earns_nothing(client, before));
            assert(earns_nothing(before, end));
        }
    }
}

proof fn greeting_keeps_the_rest(
    client: ClientView,
    members: Seq<Seq<char>>,
    end: ClientView,
    res: Answer,
)
    requires
        client.greets(members, end, res),
    ensures
        same_but_for_peers(client, end),
        earns_nothing(client, end),
{
    match res {
        Ok(sent) => {
            invitations_keep_the_rest(client, members, end, sent);
        },
        Err(error) => {
            let (n, before, sent) = choose|n: int, before: ClientView, sent: Seq<
                NetworkMessageView,
            >|
                0 <= n < members.len() && members[n] != client.client_id
                    && #[trigger] client.invites_all(members.take(n), before, sent)
                    && before.invites(members[n], end, Err(error));
            invitations_keep_the_rest(client, members.take(n), before, sent);
            assert(earns_nothing(client, before));
            assert(earns_nothing(before, end));
        },
    }
}

proof fn list_of_members_keeps_the_rest(
    client: ClientView,
    message: ServerMessageView,
    end: ClientView,
    res: Answer,
)
    requires
        client.handles(message, end, res),
        message is RoomMembers,
    ensures
        same_but_for_peers(ClientView { state: ClientState::RoomJoined, ..client }, end),
        earns_nothing(client, end),
{
    let joined = ClientView { state: ClientState::RoomJoined, ..client };
    greeting_keeps_the_rest(joined, message->members, end, res);
}

/// A server message keeps who the client is and what it has from the server. It changes the state
/// only where it lists the room's members, which takes the client into the room.
pub proof fn handling_keeps_the_rest(
    client: ClientView,
    message: ServerMessageView,
    end: ClientView,
    res: Answer,
)
    requires
        client.handles(message, end, res),
    ensures
        end == (ClientView {
            state: if message is RoomMembers {
                ClientState::RoomJoined
            } else {
                client.state
            },
            crypto: crate::crypto_engine::EngineView {
                peers: end.crypto.peers,
                ..client.crypto
            },
            chat_inbox: end.chat_inbox,
            ..client
        }),
{
    if message is RoomMembers {
        list_of_members_keeps_the_rest(client, message, end, res);
    }
}

/// The server message that a network message hands this client, if the client is connected and
/// the message opens.
pub open spec fn server_message_within(client: ClientView, message: NetworkMessageView) -> Option<
    ServerMessageView,
> {
    match message {
        NetworkMessageView::EncryptedPayload(envelope) => if is_expected(client.state, message) {
            match client.crypto.server_opening(envelope) {
                Ok(message) => Some(message),
                Err(_) => None,
            }
        } else {
            None
        },
        _ => None,
    }
}

/// A client never changes who it is, nor the room it is for.
pub proof fn identity_is_kept(
    client: ClientView,
    message: NetworkMessageView,
    end: ClientView,
    res: Answer,
)
    requires
        client.processes(message, end, res),
    ensures
        end.client_id == client.client_id,
        end.username == client.username,
        end.room_id == client.room_id,
        end.room_password == client.room_password,
{
    if let Some(inner) = server_message_within(client, message) {
        handling_keeps_the_rest(client, inner, end, res);
    }
}

/// How far a client has come, as a number.
pub open spec fn progress(state: ClientState) -> int {
    match state {
        ClientState::Disconnected => 0,
        ClientState::WaitingForServerKey => 1,
        ClientState::Connected => 2,
        ClientState::RoomJoined => 3,
    }
}

/// A client never falls back to an earlier state, and takes one step at a time.
pub proof fn state_only_advances(
    client: ClientView,
    message: NetworkMessageView,
    end: ClientView,
    res: Answer,
)
    requires
        client.processes(message, end, res),
    ensures
        progress(client.state) <= progress(end.state) <= progress(client.state) + 1,
{
    if let Some(inner) = server_message_within(client, message) {
        handling_keeps_the_rest(client, inner, end, res);
    }
}

/// Whether a client in this state is prepared for this kind of message.
pub open spec fn is_expected(state: ClientState, message: NetworkMessageView) -> bool {
    match message {
        NetworkMessageView::ServerHello { .. } => state == ClientState::Disconnected,
        NetworkMessageView::ClientKeyExchange { .. } => false,
        NetworkMessageView::ServerKeyExchange { .. } => state == ClientState::WaitingForServerKey,
        NetworkMessageView::EncryptedPayload(_) => {
            state == ClientState::Connected || state == ClientState::RoomJoined
        },
    }
}

/// A message that comes out of turn is refused and changes nothing.
pub proof fn unexpected_message_changes_nothing(
    client: ClientView,
    message: NetworkMessageView,
    end: ClientView,
    res: Answer,
)
    requires
        client.processes(message, end, res),
        !is_expected(client.state, message),
    ensures
        end == client,
        res matches Err(ErrorView::StateError(_)),
{
}

/// A payload that does not open under the transport key is refused and changes nothing.
pub proof fn tampered_payload_changes_nothing(
    client: ClientView,
    envelope: EnvelopeView,
    end: ClientView,
    res: Answer,
)
    requires
        client.processes(NetworkMessageView::EncryptedPayload(envelope), end, res),
        client.crypto.server_opening(envelope) is Err,
    ensures
        end == client,
        res is Err,
{
}

/// Whom a message from the server is for, if it is for a single client.
pub open spec fn addressee(message: ServerMessageView) -> Option<Seq<char>> {
    match message {
        ServerMessageView::JoinRoom { .. } => None,
        ServerMessageView::RoomMembers { .. } => None,
        ServerMessageView::PeerExchangeInit { target_client_id, .. } => Some(target_client_id),
        ServerMessageView::PeerExchangeResponse { target_client_id, .. } => Some(target_client_id),
        ServerMessageView::RelayPeerMessage { target_client_id, .. } => Some(target_client_id),
    }
}

/// A message that is meant for another client is ignored.
pub proof fn message_for_another_is_ignored(
    client: ClientView,
    message: ServerMessageView,
    target: Seq<char>,
    end: ClientView,
    res: Answer,
)
    requires
        client.handles(message, end, res),
        addressee(message) == Some(target),
        target != client.client_id,
    ensures
        end == client,
        res == Ok::<Seq<NetworkMessageView>, ErrorView>(Seq::empty()),
{
}

/// The peer message that a server message hands this client, if it opens.
pub open spec fn peer_message_in(client: ClientView, message: ServerMessageView) -> Option<
    (Seq<char>, PeerMessageView),
> {
    match message {
        ServerMessageView::RelayPeerMessage {
            target_client_id,
            sender_client_id,
            peer_envelope,
        } if target_client_id == client.client_id => match client.crypto.peer_opening(
            sender_client_id,
            peer_envelope,
        ) {
            Ok(message) => Some((sender_client_id, message)),
            Err(_) => None,
        },
        _ => None,
    }
}

/// The peer message that a network message hands this client, if everything opens.
pub open spec fn peer_message_within(client: ClientView, message: NetworkMessageView) -> Option<
    (Seq<char>, PeerMessageView),
> {
    match server_message_within(client, message) {
        Some(message) => peer_message_in(client, message),
        None => None,
    }
}

/// Whether the inbox stays as it is, or grows by the one chat message that was heard from a peer
/// that is authenticated.
pub open spec fn takes_authenticated_chat_only(
    client: ClientView,
    heard: Option<(Seq<char>, PeerMessageView)>,
    end: ClientView,
) -> bool {
    end.chat_inbox == client.chat_inbox || (heard matches Some(
        (sender, PeerMessageView::ChatMessage { timestamp, content }),
    ) && client.crypto.authenticated(sender) && end.chat_inbox == client.chat_inbox.push(
        (sender, timestamp, content),
    ))
}

/// Whether what was heard is a proof of identity from this peer, with the code that it owes.
pub open spec fn is_owed_proof(
    client: ClientView,
    heard: Option<(Seq<char>, PeerMessageView)>,
    id: Seq<char>,
) -> bool {
    heard matches Some((sender, message)) && sender == id && match message {
        PeerMessageView::AuthRequest { username, auth_mac } => client.owed_mac(id, username)
            == Ok::<Seq<u8>, ErrorView>(auth_mac),
        PeerMessageView::AuthResponse { username, auth_mac } => client.owed_mac(id, username)
            == Ok::<Seq<u8>, ErrorView>(auth_mac),
        PeerMessageView::ChatMessage { .. } => false,
    }
}

/// A server message leaves the inbox as it is, or adds the one chat message that it carries from
/// an authenticated peer whose session key opened it.
pub proof fn handled_chat_is_authenticated(
    client: ClientView,
    message: ServerMessageView,
    end: ClientView,
    res: Answer,
)
    requires
        client.handles(message, end, res),
    ensures
        takes_authenticated_chat_only(client, peer_message_in(client, message), end),
{
    if message is RoomMembers {
        list_of_members_keeps_the_rest(client, message, end, res);
    }
}

/// A server message makes a peer authenticated in one way only: by carrying a proof of identity,
/// opened with the peer's session key, whose code is the one that the peer owes.
pub proof fn handled_authentication_is_earned(
    client: ClientView,
    message: ServerMessageView,
    end: ClientView,
    res: Answer,
    id: Seq<char>,
)
    requires
        client.handles(message, end, res),
        !client.crypto.authenticated(id),
        end.crypto.authenticated(id),
    ensures
        is_owed_proof(client, peer_message_in(client, message), id),
{
    if message is RoomMembers {
        list_of_members_keeps_the_rest(client, message, end, res);
    }
}

/// The inbox keeps what it holds and grows by one chat message at a time, each from a peer that
/// is authenticated and whose session key opened it.
pub proof fn inbox_holds_authenticated_chat_only(
    client: ClientView,
    message: NetworkMessageView,
    end: ClientView,
    res: Answer,
)
    requires
        client.processes(message, end, res),
    ensures
        takes_authenticated_chat_only(client, peer_message_within(client, message), end),
{
    if let Some(inner) = server_message_within(client, message) {
        handled_chat_is_authenticated(client, inner, end, res);
    }
}

/// Chat from a peer that is not authenticated is refused and changes nothing.
pub proof fn unauthenticated_chat_is_refused(
    client: ClientView,
    sender: Seq<char>,
    timestamp: u64,
    content: Seq<char>,
    end: ClientView,
    res: Answer,
)
    requires
        !client.crypto.authenticated(sender),
        client.hears(sender, PeerMessageView::ChatMessage { timestamp, content }, end, res),
    ensures
        end == client,
        res is Err,
{
}

/// No chat goes to a peer that is not authenticated, nor from a client that is in no room.
pub proof fn chat_needs_room_and_authentication(
    client: ClientView,
    target: Seq<char>,
    timestamp: u64,
    content: Seq<char>,
    res: Result<NetworkMessageView, ErrorView>,
)
    requires
        client.chats(target, timestamp, content, res),
        client.state != ClientState::RoomJoined || !client.crypto.authenticated(target),
    ensures
        res is Err,
{
}

/// A peer becomes authenticated in one way only: by a proof of identity, opened with its session
/// key, whose code is the one that it owes.
pub proof fn authentication_is_earned(
    client: ClientView,
    message: NetworkMessageView,
    end: ClientView,
    res: Answer,
    id: Seq<char>,
)
    requires
        client.processes(message, end, res),
        !client.crypto.authenticated(id),
        end.crypto.authenticated(id),
    ensures
        is_owed_proof(client, peer_message_within(client, message), id),
{
    if let Some(inner) = server_message_within(client, message) {
        handled_authentication_is_earned(client, inner, end, res, id);
    }
}

/// What a message says of its sender leaves every other peer, and what the client has from the
/// server, as it was.
pub proof fn message_concerns_its_sender_only(
    client: ClientView,
    message: ServerMessageView,
    sender: Seq<char>,
    end: ClientView,
    res: Answer,
)
    requires
        client.handles(message, end, res),
        originator(message) == Some(sender),
    ensures
        crate::laws::channels::same_but_for_peer(client.crypto, end.crypto, sender),
        end.state == client.state,
{
}

/// Whom a message from the server is from, if it is from a single client.
pub open spec fn originator(message: ServerMessageView) -> Option<Seq<char>> {
    match message {
        ServerMessageView::JoinRoom { .. } => None,
        ServerMessageView::RoomMembers { .. } => None,
        ServerMessageView::PeerExchangeInit { sender_client_id, .. } => Some(sender_client_id),
        ServerMessageView::PeerExchangeResponse { sender_client_id, .. } => Some(sender_client_id),
        ServerMessageView::RelayPeerMessage { sender_client_id, .. } => Some(sender_client_id),
    }
}

/// A key exchange that came to its end leaves the peer with a session key and unauthenticated,
/// whatever it was before.
pub proof fn new_session_needs_new_proof(
    client: ClientView,
    message: ServerMessageView,
    sender: Seq<char>,
    end: ClientView,
    sent: Seq<NetworkMessageView>,
)
    requires
        client.handles(message, end, Ok(sent)),
        addressee(message) == Some(client.client_id),
        originator(message) == Some(sender),
        message is PeerExchangeInit || message is PeerExchangeResponse,
    ensures
        end.crypto.session_key(sender) is Ok,
        !end.crypto.authenticated(sender),
{
}

/// The transport key is set by the key exchange with the server and by nothing else.
pub proof fn transport_key_is_kept(
    client: ClientView,
    message: NetworkMessageView,
    end: ClientView,
    res: Answer,
)
    requires
        client.processes(message, end, res),
        message !is ServerKeyExchange,
    ensures
        end.crypto.transport_key == client.crypto.transport_key,
{
    if let Some(inner) = server_message_within(client, message) {
        handling_keeps_the_rest(client, inner, end, res);
    }
}

/// A server message keeps a client sound that has a transport key.
pub proof fn handling_keeps_client_sound(
    client: ClientView,
    message: ServerMessageView,
    end: ClientView,
    res: Answer,
)
    requires
        client.handles(message, end, res),
        client.is_sound(),
        client.crypto.transport_key is Some,
    ensures
        end.is_sound(),
{
    match message {
        ServerMessageView::RoomMembers { .. } => {
            list_of_members_keeps_the_rest(client, message, end, res);
            assert forall|id: Seq<char>| #[trigger]
                end.crypto.authenticated(id) implies end.crypto.peers[id].session_key is Some by {
                assert(client.crypto.authenticated(id));
            }
        },
        ServerMessageView::JoinRoom { .. } => {},
        ServerMessageView::PeerExchangeInit { sender_client_id, .. } => {
            session_keys_back_authentication(client, end, sender_client_id);
        },
        ServerMessageView::PeerExchangeResponse { sender_client_id, .. } => {
            assert(client.crypto.authenticated(sender_client_id)
                ==> client.crypto.peers[sender_client_id].session_key is Some);
            session_keys_back_authentication(client, end, sender_client_id);
        },
        ServerMessageView::RelayPeerMessage { sender_client_id, .. } => {
            session_keys_back_authentication(client, end, sender_client_id);
        },
    }
}

proof fn session_keys_back_authentication(
    before: ClientView,
    after: ClientView,
    id: Seq<char>,
)
    requires
        before.is_sound(),
        after.crypto.authenticated(id) ==> after.crypto.peers[id].session_key is Some,
        forall|other: Seq<char>| #[trigger]
            after.crypto.peers.contains_key(other) && other != id ==> {
                &&& before.crypto.peers.contains_key(other)
                &&& after.crypto.peers[other] == before.crypto.peers[other]
            },
    ensures
        forall|other: Seq<char>| #[trigger]
            after.crypto.authenticated(other) ==> after.crypto.peers[other].session_key is Some,
{
    assert forall|other: Seq<char>| #[trigger] after.crypto.authenticated(other) implies
        after.crypto.peers[other].session_key is Some by {
        if other != id {
            assert(before.crypto.authenticated(other));
        }
    }
}

/// A sound client stays sound, whatever it is sent.
pub proof fn client_stays_sound(
    client: ClientView,
    message: NetworkMessageView,
    end: ClientView,
    res: Answer,
)
    requires
        client.processes(message, end, res),
        client.is_sound(),
    ensures
        end.is_sound(),
{
    match message {
        NetworkMessageView::EncryptedPayload(_) => {
            if let Some(inner) = server_message_within(client, message) {
                handling_keeps_client_sound(client, inner, end, res);
            }
        },
        _ => {
            assert forall|id: Seq<char>| #[trigger]
                end.crypto.authenticated(id) implies end.crypto.peers[id].session_key is Some by {
                assert(client.crypto.authenticated(id));
            }
        },
    }
}

} // verus!
