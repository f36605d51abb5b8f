//! The dispatcher: what one decoded frame does to the directory, and which
//! frames go out because of it.
use vstd::prelude::*;
use vstd::utf8::encode_utf8;
use crate::address::Address;
use crate::directory::{Directory, ids_are_positions, with_color, with_registered};
use crate::message::{MessageType, MessageView};
use crate::response::{Response, ResponseType, ResponseView};
use crate::user::{UserView, color_or_zero, wire_id};

verus! {

/// One frame to send, and where to.
#[derive(Debug, PartialEq, Eq)]
pub struct Delivery {
    pub to: Address,
    pub response: Response,
}

/// What a [`Delivery`] stands for in contracts.
pub struct DeliveryView {
    pub to: Address,
    pub response: ResponseView,
}

impl View for Delivery {
    type V = DeliveryView;

    open spec fn view(&self) -> DeliveryView {
        DeliveryView { to: self.to, response: self.response@ }
    }
}

/// The deliveries that a list of them stands for, in the same order.
pub open spec fn delivery_views(sends: Seq<Delivery>) -> Seq<DeliveryView> {
    sends.map_values(|d: Delivery| d@)
}

/// The color that a color change asks for: its first byte, or 0 with none.
pub open spec fn requested_color(bytes: Seq<u8>) -> u8 {
    if bytes.len() > 0 {
        bytes[0]
    } else {
        0
    }
}

/// The frame that relays `body` on behalf of `sender`.
pub open spec fn text_response(sender: UserView, body: Seq<u8>) -> ResponseView {
    ResponseView {
        response_type: ResponseType::Text,
        user_id: wire_id(sender.id),
        color: color_or_zero(sender.color),
        text: body,
    }
}

/// The frame that tells `requester` the name of `target`: it carries the
/// requester's id and color, and the UTF-8 encoding of the target's name.
pub open spec fn name_response(requester: UserView, target: UserView) -> ResponseView {
    ResponseView {
        response_type: ResponseType::UserName,
        user_id: wire_id(requester.id),
        color: color_or_zero(requester.color),
        text: encode_utf8(target.name),
    }
}

/// The users other than the one with the id `id`, in directory order.
pub open spec fn others(users: Seq<UserView>, id: nat) -> Seq<UserView> {
    users.filter(|u: UserView| u.id != id)
}

/// One copy of `response` for each of `recipients`, in their order.
pub open spec fn fan_out(recipients: Seq<UserView>, response: ResponseView) -> Seq<DeliveryView> {
    recipients.map_values(|u: UserView| DeliveryView { to: u.addr, response })
}

/// The directory after `message` has been acted on.
///
/// A login appends a user; a color change recolors the user at the sender's
/// id, if there is one; nothing else touches the directory.
pub open spec fn users_after(message: MessageView, users: Seq<UserView>) -> Seq<UserView> {
    match message {
        MessageView::Login(addr, name) => with_registered(users, addr, name),
        MessageView::Color(user, bytes) => with_color(users, user.id, requested_color(bytes)),
        _ => users,
    }
}

/// The frames that go out because of `message`, in the order of sending.
///
/// A text goes to every user but its sender; the answer to a query goes to
/// the user that asked, and to nobody else; nothing else is ever sent.
pub open spec fn deliveries(message: MessageView, users: Seq<UserView>) -> Seq<DeliveryView> {
    match message {
        MessageView::Text(sender, body) => fan_out(
            others(users, sender.id),
            text_response(sender, body),
        ),
        MessageView::UserQuery(requester, target) => seq![
            DeliveryView { to: requester.addr, response: name_response(requester, target) },
        ],
        _ => Seq::empty(),
    }
}

/// In a directory whose ids are positions, the users other than the one
/// with the id `id` are the directory with position `id` taken out; an id
/// that nobody has takes nobody out.
pub proof fn lemma_others_is_removal(users: Seq<UserView>, id: nat)
    requires
        ids_are_positions(users),
    ensures
        id < users.len() ==> others(users, id) == users.remove(id as int),
        id >= users.len() ==> others(users, id) == users,
    decreases users.len(),
{
    reveal(Seq::filter);
    if users.len() > 0 {
        let front = users.drop_last();
        assert(ids_are_positions(front)) by {
            assert forall|i: int| 0 <= i < front.len() implies (#[trigger] front[i]).id == i by {
                assert(front[i] == users[i]);
            }
        }
        lemma_others_is_removal(front, id);
        if id < users.len() {
            assert(others(users, id) =~= users.remove(id as int));
        } else {
            assert(others(users, id) =~= users);
        }
    }
}

/// Acts on one decoded frame: changes the directory as the frame asks and
/// returns the frames to send because of it, in the order of sending.
pub fn dispatch(message: MessageType, users: &mut Directory) -> (sends: Vec<Delivery>)
    ensures
        final(users)@ == users_after(message@, old(users)@),
        delivery_views(sends@) == deliveries(message@, old(users)@),
        old(users).wf() ==> final(users).wf(),
{
    let mut sends: Vec<Delivery> = Vec::new();
    match message {
        MessageType::Login(addr, name) => {
            users.register(addr, name);
        },
        MessageType::Color(from_user, bytes) => {
            let new_color: u8 = if bytes.len() > 0 {
                bytes[0]
            } else {
                0
            };
            let _ = users.update_color(from_user.id, new_color);
        },
        MessageType::Text(from_user, body) => {
            let sender_id = from_user.id;
            let response = Response::new(ResponseType::Text, from_user, body);
            let count = users.len();
            let mut i: usize = 0;
            proof {
                reveal(Seq::filter);
                assert(users@.take(0) =~= Seq::<UserView>::empty());
            }
            while i < count
                invariant
                    i <= count == users@.len(),
                    delivery_views(sends@) == fan_out(
                        others(users@.take(i as int), sender_id as nat),
                        response@,
                    ),
                decreases count - i,
            {
                let ghost before = delivery_views(sends@);
                let ghost seen = users@.take(i as int);
                let ghost pred = |u: UserView| u.id != sender_id as nat;
                proof {
                    assert(users@.take(i + 1) =~= seen.push(users@[i as int]));
                    seen.lemma_filter_push(users@[i as int], pred);
                }
                if let Some(user) = users.get(i) {
                    if user.id != sender_id {
                        sends.push(Delivery { to: user.addr, response: response.clone() });
                        assert(fan_out(others(users@.take(i + 1), sender_id as nat), response@)
                            =~= before.push(DeliveryView { to: user.addr, response: response@ }));
                    }
                }
                i += 1;
            }
            assert(users@.take(count as int) =~= users@);
        },
        MessageType::UserQuery(from_user, user) => {
            let to = from_user.addr;
            let name = vstd::slice::slice_to_vec(user.name.as_str().as_bytes());
            let response = Response::new(ResponseType::UserName, from_user, name);
            sends.push(Delivery { to, response });
        },
        MessageType::Unknown => {},
    }
    sends
}

} // verus!
