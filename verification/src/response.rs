//! Outbound frames.
//!
//! A frame that the relay sends is three header bytes, the kind, the id of
//! the user it is about and that user's color, followed by the payload.
use vstd::prelude::*;
use vstd::std_specs::convert::FromSpecImpl;
use crate::user::{User, color_or_zero, wire_id};

verus! {

/// What an outbound frame carries.
#[derive(Clone, Copy, Debug, PartialEq, Eq, Structural)]
pub enum ResponseType {
    /// A text message relayed from another user.
    Text,
    /// The display name of a user that was asked for.
    UserName,
}

/// The kind that a byte names: 1 is a user name, every other byte is text.
pub open spec fn kind_of_byte(v: u8) -> ResponseType {
    if v == 1 {
        ResponseType::UserName
    } else {
        ResponseType::Text
    }
}

/// The byte that names a kind: 0 for text, 1 for a user name.
pub open spec fn byte_of_kind(kind: ResponseType) -> u8 {
    match kind {
        ResponseType::Text => 0,
        ResponseType::UserName => 1,
    }
}

impl From<u8> for ResponseType {
    fn from(v: u8) -> (kind: ResponseType) {
        if v == 1 {
            return ResponseType::UserName;
        }
        ResponseType::Text
    }
}

impl FromSpecImpl<u8> for ResponseType {
    open spec fn obeys_from_spec() -> bool {
        true
    }

    open spec fn from_spec(v: u8) -> ResponseType {
        kind_of_byte(v)
    }
}

impl From<ResponseType> for u8 {
    fn from(kind: ResponseType) -> (v: u8) {
        match kind {
            ResponseType::Text => 0u8,
            ResponseType::UserName => 1u8,
        }
    }
}

impl FromSpecImpl<ResponseType> for u8 {
    open spec fn obeys_from_spec() -> bool {
        true
    }

    open spec fn from_spec(kind: ResponseType) -> u8 {
        byte_of_kind(kind)
    }
}

/// One outbound frame.
#[derive(Debug, PartialEq, Eq)]
pub struct Response {
    pub response_type: ResponseType,
    /// The low eight bits of the id of the user that caused the frame.
    pub user_id: u8,
    /// That user's color, 0 while it has none.
    pub color: u8,
    /// The payload: the body of a text, or the bytes of a name.
    pub text: Vec<u8>,
}

/// What a [`Response`] stands for in contracts.
pub struct ResponseView {
    pub response_type: ResponseType,
    pub user_id: u8,
    pub color: u8,
    pub text: Seq<u8>,
}

impl View for Response {
    type V = ResponseView;

    open spec fn view(&self) -> ResponseView {
        ResponseView {
            response_type: self.response_type,
            user_id: self.user_id,
            color: self.color,
            text: self.text@,
        }
    }
}

/// The bytes of a frame: kind, user id, color, then the payload.
pub open spec fn encode_response(response: ResponseView) -> Seq<u8> {
    seq![byte_of_kind(response.response_type), response.user_id, response.color] + response.text
}

/// The frame that bytes spell: the first three are the header, what follows
/// them is the payload.
pub open spec fn decode_response(data: Seq<u8>) -> ResponseView
    recommends
        data.len() >= 3,
{
    ResponseView {
        response_type: kind_of_byte(data[0]),
        user_id: data[1],
        color: data[2],
        text: data.skip(3),
    }
}

impl Response {
    /// The frame of kind `response_type` that `user` caused, with the payload
    /// `message`. It carries the low eight bits of the user's id and the
    /// user's color, 0 where the user has none.
    pub fn new(response_type: ResponseType, user: User, message: Vec<u8>) -> (response: Response)
        ensures
            response@ == (ResponseView {
                response_type,
                user_id: wire_id(user@.id),
                color: color_or_zero(user@.color),
                text: message@,
            }),
    {
        Response {
            response_type,
            user_id: (user.id % 256) as u8,
            color: match user.color {
                Some(color) => color,
                None => 0,
            },
            text: message,
        }
    }

    /// The bytes that go on the wire for this frame.
    pub fn buf(self) -> (bytes: Vec<u8>)
        ensures
            bytes@ == encode_response(self@),
    {
        let mut bytes: Vec<u8> = Vec::new();
        bytes.push(self.response_type.into());
        bytes.push(self.user_id);
        bytes.push(self.color);
        let mut text = self.text;
        bytes.append(&mut text);
        bytes
    }

    /// The frame that `data` spells.
    pub fn from(data: Vec<u8>) -> (response: Response)
        requires
            data@.len() >= 3,
        ensures
            response@ == decode_response(data@),
    {
        let mut header = data;
        let text = header.split_off(3);
        Response {
            response_type: ResponseType::from(header[0]),
            user_id: header[1],
            color: header[2],
            text,
        }
    }
}

impl Clone for Response {
    fn clone(&self) -> (copy: Response)
        ensures
            copy@ == self@,
    {
        Response {
            response_type: self.response_type,
            user_id: self.user_id,
            color: self.color,
            text: self.text.clone(),
        }
    }
}

/// Reading back the bytes of a frame gives the frame: whatever its kind, its
/// header bytes and its payload, `decode_response(encode_response(response))` is `response`.
pub proof fn lemma_decode_encode(response: ResponseView)
    ensures
        encode_response(response).len() == 3 + response.text.len(),
        decode_response(encode_response(response)) == response,
{
    let data = encode_response(response);
    assert(data.skip(3) =~= response.text);
}

} // verus!
