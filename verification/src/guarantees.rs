//! What holds of the relay as a whole.
//!
//! Each statement here is about frames as they arrive: about what
//! [`handle_message`](crate::relay::handle_message) does to the directory
//! and what it sends, in terms of the functions its contract is written in.
use vstd::prelude::*;
use vstd::utf8::{decode_utf8, encode_utf8, valid_utf8};
use crate::address::Address;
use crate::directory::{
    find_by_addr,
    find_by_id,
    ids_are_positions,
    is_first_from,
    is_unregistered,
    lemma_find_by_addr_at,
    lemma_find_by_addr_none,
    lemma_find_by_addr_some,
    lemma_find_by_id_is_position,
};
use crate::dispatch::lemma_others_is_removal;
use crate::message::{
    MessageView,
    TAG_COLOR,
    TAG_LOGIN,
    TAG_TEXT,
    TAG_USER_QUERY,
    decode_message,
};
use crate::relay::{DatagramView, datagrams_for_frame, users_after_frame};
use crate::user::{UserView, color_or_zero, wire_id};

verus! {

/// A frame with no bytes asks for nothing.
pub proof fn lemma_empty_frame_is_unknown(users: Seq<UserView>, from: Address, content: Seq<u8>)
    requires
        content.len() < 1,
    ensures
        decode_message(from, content, users) == MessageView::Unknown,
{
}

/// A frame that is empty, or whose tag is none of the four known ones, or
/// that asks for a color change, a name or a text relay from an address
/// that never logged in, leaves the directory as it is and sends nothing.
pub proof fn lemma_ignored_frame_does_nothing(
    users: Seq<UserView>,
    from: Address,
    content: Seq<u8>,
)
    requires
        content.len() == 0 || (content[0] != TAG_LOGIN && content[0] != TAG_COLOR && content[0]
            != TAG_USER_QUERY && content[0] != TAG_TEXT) || (content[0] != TAG_LOGIN
            && is_unregistered(users, from)),
    ensures
        decode_message(from, content, users) == MessageView::Unknown,
        users_after_frame(users, from, content) == users,
        datagrams_for_frame(users, from, content) == Seq::<DatagramView>::empty(),
{
    lemma_find_by_addr_none(users, from);
}

/// A login whose name is well-formed UTF-8, from an address that no user has
/// registered from, is answered with silence and adds one user. The new
/// user's id is the number of users there were, its name is the text that
/// the payload encodes, and looking it up by that id and by that address
/// both give the new user.
pub proof fn lemma_login_registers(users: Seq<UserView>, from: Address, name: Seq<u8>)
    requires
        ids_are_positions(users),
        valid_utf8(name),
        is_unregistered(users, from),
    ensures
        ({
            let content = seq![TAG_LOGIN] + name;
            let after = users_after_frame(users, from, content);
            let user = UserView {
                addr: from,
                id: users.len(),
                name: decode_utf8(name),
                color: None,
            };
            &&& decode_message(from, content, users) == MessageView::Login(from, decode_utf8(name))
            &&& after == users.push(user)
            &&& find_by_id(after, users.len()) == Some(user)
            &&& find_by_addr(after, from) == Some(user)
            &&& ids_are_positions(after)
            &&& datagrams_for_frame(users, from, content) == Seq::<DatagramView>::empty()
        }),
{
    let content = seq![TAG_LOGIN] + name;
    let after = users_after_frame(users, from, content);
    assert(content.skip(1) =~= name);
    lemma_find_by_id_is_position(after, users.len());
    lemma_find_by_addr_at(after, from, users.len() as int);
}

/// A login from an address that a user has already registered from adds a
/// second user beside the first, and look-ups by that address keep finding
/// the first.
pub proof fn lemma_login_again_keeps_first(users: Seq<UserView>, from: Address, name: Seq<u8>)
    requires
        valid_utf8(name),
        find_by_addr(users, from) is Some,
    ensures
        ({
            let after = users_after_frame(users, from, seq![TAG_LOGIN] + name);
            &&& after.len() == users.len() + 1
            &&& after.last().addr == from
            &&& find_by_addr(after, from) == find_by_addr(users, from)
        }),
{
    let content = seq![TAG_LOGIN] + name;
    let after = users_after_frame(users, from, content);
    assert(content.skip(1) =~= name);
    let i = lemma_find_by_addr_some(users, from);
    assert(is_first_from(after, from, i));
    lemma_find_by_addr_at(after, from, i);
}

/// In a directory whose ids are positions, the user that a look-up by
/// address finds stands at the position that its id names.
pub proof fn lemma_sender_is_at_its_id(users: Seq<UserView>, from: Address)
    requires
        ids_are_positions(users),
        find_by_addr(users, from) is Some,
    ensures
        ({
            let sender = find_by_addr(users, from)->0;
            &&& sender.addr == from
            &&& sender.id < users.len()
            &&& users[sender.id as int] == sender
            &&& is_first_from(users, from, sender.id as int)
        }),
{
    lemma_find_by_addr_some(users, from);
}

/// A text from a registered sender leaves the directory as it is and goes
/// out once to each of the other users, in directory order: with `n` users
/// there are `n - 1` datagrams, and the one at place `i` goes to the user at
/// `i`, or at `i + 1` from the sender's position on. Each carries the same
/// frame: the byte 0 that marks a text, the low eight bits of the sender's
/// id (the id itself below 256), the sender's color, and the body as it came.
pub proof fn lemma_text_reaches_everyone_else(users: Seq<UserView>, from: Address, body: Seq<u8>)
    requires
        ids_are_positions(users),
        find_by_addr(users, from) is Some,
    ensures
        ({
            let sender = find_by_addr(users, from)->0;
            let content = seq![TAG_TEXT] + body;
            let out = datagrams_for_frame(users, from, content);
            let frame = seq![0u8, wire_id(sender.id), color_or_zero(sender.color)] + body;
            &&& users_after_frame(users, from, content) == users
            &&& out.len() == users.len() - 1
            &&& sender.id < 256 ==> frame[1] == sender.id
            &&& forall|i: int|
                0 <= i < out.len() ==> {
                    let recipient = users[if i < sender.id { i } else { i + 1 }];
                    &&& recipient.id != sender.id
                    &&& (#[trigger] out[i]).to == recipient.addr
                    &&& out[i].bytes == frame
                }
        }),
{
    let sender = find_by_addr(users, from)->0;
    let content = seq![TAG_TEXT] + body;
    lemma_sender_is_at_its_id(users, from);
    lemma_others_is_removal(users, sender.id);
    assert(content.skip(1) =~= body);
    assert(decode_message(from, content, users) == MessageView::Text(sender, body));
}

/// Where the sender of a text is the only user registered from its address,
/// none of the datagrams that the text causes goes back to that address.
pub proof fn lemma_text_is_not_echoed(users: Seq<UserView>, from: Address, body: Seq<u8>)
    requires
        ids_are_positions(users),
        find_by_addr(users, from) is Some,
        forall|j: int|
            0 <= j < users.len() && (#[trigger] users[j]).addr == from ==> users[j]
                == find_by_addr(users, from)->0,
    ensures
        ({
            let out = datagrams_for_frame(users, from, seq![TAG_TEXT] + body);
            forall|i: int| 0 <= i < out.len() ==> (#[trigger] out[i]).to != from
        }),
{
    lemma_text_reaches_everyone_else(users, from, body);
}

/// A query from a registered sender for the id of a user leaves the
/// directory as it is and is answered with exactly one datagram, to the
/// address that asked: the byte 1 that marks a name, the low eight bits of
/// the requester's id, the requester's color, and the UTF-8 encoding of the
/// name of the user asked for. Payload bytes after the id are ignored.
pub proof fn lemma_query_is_answered(
    users: Seq<UserView>,
    from: Address,
    target: u8,
    rest: Seq<u8>,
)
    requires
        ids_are_positions(users),
        find_by_addr(users, from) is Some,
        target < users.len(),
    ensures
        ({
            let requester = find_by_addr(users, from)->0;
            let content = seq![TAG_USER_QUERY, target] + rest;
            &&& users_after_frame(users, from, content) == users
            &&& datagrams_for_frame(users, from, content) == seq![
                DatagramView {
                    to: from,
                    bytes: seq![1u8, wire_id(requester.id), color_or_zero(requester.color)]
                        + encode_utf8(users[target as int].name),
                },
            ]
        }),
{
    lemma_sender_is_at_its_id(users, from);
    lemma_find_by_id_is_position(users, target as nat);
}

/// A query that names no id, or an id that no user has, leaves the
/// directory as it is and sends nothing.
pub proof fn lemma_query_for_nobody_does_nothing(
    users: Seq<UserView>,
    from: Address,
    payload: Seq<u8>,
)
    requires
        ids_are_positions(users),
        payload.len() == 0 || payload[0] >= users.len(),
    ensures
        ({
            let content = seq![TAG_USER_QUERY] + payload;
            &&& decode_message(from, content, users) == MessageView::Unknown
            &&& users_after_frame(users, from, content) == users
            &&& datagrams_for_frame(users, from, content) == Seq::<DatagramView>::empty()
        }),
{
    if payload.len() > 0 {
        lemma_find_by_id_is_position(users, payload[0] as nat);
    }
}

/// A color change from a registered sender sets that user's color to the
/// first payload byte, or to 0 where the payload is empty, touches nothing
/// else in the directory and sends nothing. Every datagram that a later text
/// from the same address causes carries the new color as its third byte.
pub proof fn lemma_color_is_set_and_carried(
    users: Seq<UserView>,
    from: Address,
    payload: Seq<u8>,
    body: Seq<u8>,
)
    requires
        ids_are_positions(users),
        find_by_addr(users, from) is Some,
    ensures
        ({
            let sender = find_by_addr(users, from)->0;
            let color = if payload.len() == 0 {
                0u8
            } else {
                payload[0]
            };
            let recolored = UserView { color: Some(color), ..sender };
            let change = seq![TAG_COLOR] + payload;
            let after = users_after_frame(users, from, change);
            let out = datagrams_for_frame(after, from, seq![TAG_TEXT] + body);
            &&& datagrams_for_frame(users, from, change) == Seq::<DatagramView>::empty()
            &&& after == users.update(sender.id as int, recolored)
            &&& ids_are_positions(after)
            &&& find_by_addr(after, from) == Some(recolored)
            &&& out.len() == users.len() - 1
            &&& forall|i: int| 0 <= i < out.len() ==> (#[trigger] out[i]).bytes[2] == color
        }),
{
    let sender = find_by_addr(users, from)->0;
    let change = seq![TAG_COLOR] + payload;
    let after = users_after_frame(users, from, change);
    lemma_sender_is_at_its_id(users, from);
    assert(change.skip(1) =~= payload);
    assert(decode_message(from, change, users) == MessageView::Color(sender, payload));
    assert(ids_are_positions(after));
    assert(is_first_from(after, from, sender.id as int));
    lemma_find_by_addr_at(after, from, sender.id as int);
    lemma_text_reaches_everyone_else(after, from, body);
}

/// Whatever frame arrives, a directory whose ids are positions stays one.
/// Users are never removed: one is added, at the end, exactly when the frame
/// is a login, and every user that was there keeps its position, address,
/// id and name. Only a color change touches a record that was there. An
/// address that was registered stays registered, to the same user.
pub proof fn lemma_frame_keeps_users(users: Seq<UserView>, from: Address, content: Seq<u8>)
    requires
        ids_are_positions(users),
    ensures
        ({
            let after = users_after_frame(users, from, content);
            &&& ids_are_positions(after)
            &&& after.len() == if decode_message(from, content, users) is Login {
                users.len() + 1
            } else {
                users.len()
            }
            &&& forall|i: int|
                0 <= i < users.len() ==> {
                    &&& (#[trigger] after[i]).addr == users[i].addr
                    &&& after[i].id == users[i].id
                    &&& after[i].name == users[i].name
                }
            &&& !(decode_message(from, content, users) is Color) ==> after.take(
                users.len() as int,
            ) == users
            &&& forall|addr: Address| #[trigger]
                find_by_addr(users, addr) is Some ==> {
                    &&& find_by_addr(after, addr) is Some
                    &&& find_by_addr(after, addr)->0.id == find_by_addr(users, addr)->0.id
                }
        }),
{
    let after = users_after_frame(users, from, content);
    if decode_message(from, content, users) is Color {
        lemma_sender_is_at_its_id(users, from);
    } else {
        assert(after.take(users.len() as int) =~= users);
    }
    assert(ids_are_positions(after));
    assert forall|addr: Address| #[trigger] find_by_addr(users, addr) is Some implies {
        &&& find_by_addr(after, addr) is Some
        &&& find_by_addr(after, addr)->0.id == find_by_addr(users, addr)->0.id
    } by {
        let i = lemma_find_by_addr_some(users, addr);
        assert(is_first_from(after, addr, i));
        lemma_find_by_addr_at(after, addr, i);
    }
}

/// A name comes back as it was sent: after a login with the name bytes
/// `name`, a query for the new user's id from a registered address is
/// answered with a frame whose payload is `name`, byte for byte.
pub proof fn lemma_name_comes_back_as_sent(
    users: Seq<UserView>,
    from: Address,
    name: Seq<u8>,
    asker: Address,
)
    requires
        ids_are_positions(users),
        valid_utf8(name),
        users.len() < 256,
        find_by_addr(users, asker) is Some,
    ensures
        ({
            let after = users_after_frame(users, from, seq![TAG_LOGIN] + name);
            let requester = find_by_addr(users, asker)->0;
            datagrams_for_frame(after, asker, seq![TAG_USER_QUERY, users.len() as u8]) == seq![
                DatagramView {
                    to: asker,
                    bytes: seq![1u8, wire_id(requester.id), color_or_zero(requester.color)] + name,
                },
            ]
        }),
{
    let login = seq![TAG_LOGIN] + name;
    let after = users_after_frame(users, from, login);
    assert(login.skip(1) =~= name);
    vstd::utf8::decode_utf8_encode_utf8(name);
    lemma_frame_keeps_users(users, from, login);
    let i = lemma_find_by_addr_some(users, asker);
    assert(is_first_from(after, asker, i));
    lemma_find_by_addr_at(after, asker, i);
    lemma_query_is_answered(after, asker, users.len() as u8, Seq::<u8>::empty());
    assert(seq![TAG_USER_QUERY, users.len() as u8] + Seq::<u8>::empty() =~= seq![
        TAG_USER_QUERY,
        users.len() as u8,
    ]);
}

/// One datagram as the relay sees it arrive: where from, and what bytes.
pub struct Arrival {
    pub from: Address,
    pub content: Seq<u8>,
}

/// The directory after `arrivals` have been handled one by one, in order,
/// starting from `users`.
pub open spec fn users_after_all(users: Seq<UserView>, arrivals: Seq<Arrival>) -> Seq<UserView>
    decreases arrivals.len(),
{
    if arrivals.len() == 0 {
        users
    } else {
        users_after_frame(
            users_after_all(users, arrivals.drop_last()),
            arrivals.last().from,
            arrivals.last().content,
        )
    }
}

/// Whatever arrives, in whatever order, a relay that starts with no users
/// only ever holds a directory in which every user's id is its position.
pub proof fn lemma_ids_stay_positions(arrivals: Seq<Arrival>)
    ensures
        ids_are_positions(users_after_all(Seq::<UserView>::empty(), arrivals)),
    decreases arrivals.len(),
{
    if arrivals.len() > 0 {
        lemma_ids_stay_positions(arrivals.drop_last());
        lemma_frame_keeps_users(
            users_after_all(Seq::<UserView>::empty(), arrivals.drop_last()),
            arrivals.last().from,
            arrivals.last().content,
        );
    }
}

} // verus!
