//! Inbound frames.
//!
//! A frame that the relay receives is one tag byte followed by a payload
//! whose meaning the tag decides. A frame is read against the directory: all
//! but a login count only when they come from a registered address.
use vstd::prelude::*;
use vstd::utf8::{decode_utf8, encode_utf8, valid_utf8};
use crate::address::Address;
use crate::directory::{Directory, find_by_addr, find_by_id};
use crate::user::{User, UserView};

verus! {

/// Tag of a frame that registers its sender under the name in its payload.
pub const TAG_LOGIN: u8 = 1;

/// Tag of a frame that sets its sender's color to the first payload byte.
pub const TAG_COLOR: u8 = 2;

/// Tag of a frame that asks for the name of the user whose id is the first
/// payload byte.
pub const TAG_USER_QUERY: u8 = 3;

/// Tag of a frame whose payload is text for every other user.
pub const TAG_TEXT: u8 = 4;

/// The size of the buffer that a datagram is received into.
pub const DATAGRAM_CAPACITY: usize = 1024;

/// One datagram as it came off the wire.
#[derive(Debug)]
pub struct RawMessage {
    /// The address it came from.
    pub from: Address,
    /// The bytes it held.
    pub content: Vec<u8>,
}

impl RawMessage {
    /// The datagram from `from` whose bytes are the first `read_bytes` bytes
    /// of the receive buffer `content`.
    pub fn new(from: Address, content: [u8; DATAGRAM_CAPACITY], read_bytes: usize) -> (message:
        RawMessage)
        requires
            read_bytes <= DATAGRAM_CAPACITY,
        ensures
            message.from == from,
            message.content@ == content@.take(read_bytes as int),
    {
        let mut bytes: Vec<u8> = Vec::new();
        let mut i: usize = 0;
        while i < read_bytes
            invariant
                i <= read_bytes <= DATAGRAM_CAPACITY,
                bytes@ == content@.take(i as int),
            decreases read_bytes - i,
        {
            bytes.push(content[i]);
            i += 1;
        }
        RawMessage { from, content: bytes }
    }
}

/// [`String::from_utf8`], with the error dropped.
///
/// The standard library checks the bytes and, where they are well-formed
/// UTF-8, hands back the string that holds exactly those bytes. Taken on
/// trust from its documentation: the call succeeds on well-formed UTF-8 and
/// on nothing else, and the text it gives encodes to the bytes it was given.
#[verifier::external_body]
fn string_from_utf8(bytes: Vec<u8>) -> (text: Option<String>)
    ensures
        text is Some <==> valid_utf8(bytes@),
        text is Some ==> encode_utf8(text->0@) == bytes@,
{
    String::from_utf8(bytes).ok()
}

/// What an inbound frame asks for, once it has been read against the
/// directory.
#[derive(Debug, PartialEq, Eq)]
pub enum MessageType {
    /// Nothing: the frame is dropped.
    Unknown,
    /// Register a user at this address under this name.
    Login(Address, String),
    /// This user sets its color to the first of these bytes, or to 0.
    Color(User, Vec<u8>),
    /// The first user asks for the name of the second.
    UserQuery(User, User),
    /// This user sends these bytes to every other user.
    Text(User, Vec<u8>),
}

/// What a [`MessageType`] stands for in contracts.
pub enum MessageView {
    Unknown,
    Login(Address, Seq<char>),
    Color(UserView, Seq<u8>),
    UserQuery(UserView, UserView),
    Text(UserView, Seq<u8>),
}

impl View for MessageType {
    type V = MessageView;

    open spec fn view(&self) -> MessageView {
        match *self {
            MessageType::Unknown => MessageView::Unknown,
            MessageType::Login(addr, name) => MessageView::Login(addr, name@),
            MessageType::Color(user, bytes) => MessageView::Color(user@, bytes@),
            MessageType::UserQuery(user, target) => MessageView::UserQuery(user@, target@),
            MessageType::Text(user, body) => MessageView::Text(user@, body@),
        }
    }
}

/// What a payload asks of a registered sender under the tag `tag`.
///
/// A color change and a text take the payload as it is. A query needs a
/// first payload byte, and that byte must be the id of a user.
pub open spec fn decode_from_sender(
    tag: u8,
    payload: Seq<u8>,
    sender: UserView,
    users: Seq<UserView>,
) -> MessageView {
    if tag == TAG_COLOR {
        MessageView::Color(sender, payload)
    } else if tag == TAG_TEXT {
        MessageView::Text(sender, payload)
    } else if tag == TAG_USER_QUERY && payload.len() > 0 {
        match find_by_id(users, payload[0] as nat) {
            Some(target) => MessageView::UserQuery(sender, target),
            None => MessageView::Unknown,
        }
    } else {
        MessageView::Unknown
    }
}

/// What the frame `content` from `from` asks for, given the users so far.
///
/// The first byte is the tag and the rest is the payload. A login needs a
/// payload that is well-formed UTF-8, and its name is the text that the
/// payload encodes. A color change, a query and a text need a sender that is
/// registered: the earliest user from `from`. An empty frame, any other tag,
/// and a frame that lacks what its tag needs ask for nothing.
pub open spec fn decode_message(
    from: Address,
    content: Seq<u8>,
    users: Seq<UserView>,
) -> MessageView {
    if content.len() == 0 {
        MessageView::Unknown
    } else {
        let tag = content[0];
        let payload = content.skip(1);
        if tag == TAG_LOGIN {
            if valid_utf8(payload) {
                MessageView::Login(from, decode_utf8(payload))
            } else {
                MessageView::Unknown
            }
        } else if tag == TAG_COLOR || tag == TAG_USER_QUERY || tag == TAG_TEXT {
            match find_by_addr(users, from) {
                Some(sender) => decode_from_sender(tag, payload, sender, users),
                None => MessageView::Unknown,
            }
        } else {
            MessageView::Unknown
        }
    }
}

impl MessageType {
    /// Reads the datagram `message` against the directory `users`.
    pub fn new(message: RawMessage, users: &Directory) -> (decoded: MessageType)
        ensures
            decoded@ == decode_message(message.from, message.content@, users@),
    {
        let from = message.from;
        let mut payload = message.content;
        if payload.len() == 0 {
            return MessageType::Unknown;
        }
        let tag = payload.remove(0);
        if tag == TAG_LOGIN {
            return match string_from_utf8(payload) {
                Some(name) => {
                    proof {
                        vstd::utf8::encode_utf8_decode_utf8(name@);
                    }
                    MessageType::Login(from, name)
                },
                None => MessageType::Unknown,
            };
        }
        if tag != TAG_COLOR && tag != TAG_USER_QUERY && tag != TAG_TEXT {
            return MessageType::Unknown;
        }
        let user = match users.find_user_by_addr(from) {
            Some(user) => user,
            None => {
                return MessageType::Unknown;
            },
        };
        if tag == TAG_COLOR {
            MessageType::Color(user, payload)
        } else if tag == TAG_TEXT {
            MessageType::Text(user, payload)
        } else {
            if payload.len() == 0 {
                return MessageType::Unknown;
            }
            match users.find_user_by_id(payload[0] as usize) {
                Some(target) => MessageType::UserQuery(user, target),
                None => MessageType::Unknown,
            }
        }
    }
}

} // verus!
