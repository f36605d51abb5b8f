//! The relay's step: one datagram in, a directory change and the datagrams
//! to send out.
//!
//! The relay owns the directory and handles one inbound datagram at a time,
//! in the order of arrival. A step never touches the network: the caller
//! sends what the step returns, in the order given.
use vstd::prelude::*;
use crate::address::Address;
use crate::directory::Directory;
use crate::dispatch::{DeliveryView, deliveries, delivery_views, dispatch, users_after};
use crate::message::{MessageType, RawMessage, decode_message};
use crate::response::encode_response;
use crate::user::UserView;

verus! {

/// Bytes to send, and where to.
#[derive(Debug, PartialEq, Eq)]
pub struct Datagram {
    pub to: Address,
    pub bytes: Vec<u8>,
}

/// What a [`Datagram`] stands for in contracts.
pub struct DatagramView {
    pub to: Address,
    pub bytes: Seq<u8>,
}

impl View for Datagram {
    type V = DatagramView;

    open spec fn view(&self) -> DatagramView {
        DatagramView { to: self.to, bytes: self.bytes@ }
    }
}

/// The datagrams that a list of them stands for, in the same order.
pub open spec fn datagram_views(out: Seq<Datagram>) -> Seq<DatagramView> {
    out.map_values(|d: Datagram| d@)
}

/// Each delivery as the datagram that carries it: same destination, the
/// frame's bytes.
pub open spec fn encoded(sends: Seq<DeliveryView>) -> Seq<DatagramView> {
    sends.map_values(
        |d: DeliveryView| DatagramView { to: d.to, bytes: encode_response(d.response) },
    )
}

/// The directory after the frame `content` from `from` has been handled.
pub open spec fn users_after_frame(users: Seq<UserView>, from: Address, content: Seq<u8>) -> Seq<
    UserView,
> {
    users_after(decode_message(from, content, users), users)
}

/// The datagrams that go out because of the frame `content` from `from`.
pub open spec fn datagrams_for_frame(users: Seq<UserView>, from: Address, content: Seq<u8>) -> Seq<
    DatagramView,
> {
    encoded(deliveries(decode_message(from, content, users), users))
}

/// Handles one inbound datagram: reads it against the directory, changes the
/// directory as it asks, and returns the datagrams to send because of it, in
/// the order of sending.
pub fn handle_message(users: &mut Directory, raw_message: RawMessage) -> (out: Vec<Datagram>)
    ensures
        final(users)@ == users_after_frame(old(users)@, raw_message.from, raw_message.content@),
        datagram_views(out@) == datagrams_for_frame(
            old(users)@,
            raw_message.from,
            raw_message.content@,
        ),
        old(users).wf() ==> final(users).wf(),
{
    let message = MessageType::new(raw_message, users);
    let sends = dispatch(message, users);
    let mut out: Vec<Datagram> = Vec::new();
    let ghost all = delivery_views(sends@);
    for delivery in it: sends
        invariant
            it.seq() == sends@,
            all == delivery_views(sends@),
            datagram_views(out@) == encoded(all.take(it.index() as int)),
    {
        let ghost before = datagram_views(out@);
        let ghost next = DatagramView {
            to: delivery.to,
            bytes: encode_response(delivery.response@),
        };
        let to = delivery.to;
        let bytes = delivery.response.buf();
        out.push(Datagram { to, bytes });
        assert(encoded(all.take(it.index() + 1)) =~= before.push(next));
    }
    out
}

} // verus!
