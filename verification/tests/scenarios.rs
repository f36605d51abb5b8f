use chat_relay::address::Address;
use chat_relay::directory::Directory;
use chat_relay::dispatch::{dispatch, Delivery};
use chat_relay::message::{MessageType, RawMessage};
use chat_relay::relay::{handle_message, Datagram};
use chat_relay::response::{Response, ResponseType};
use chat_relay::user::User;

fn endpoint(last_octet: u8, port: u16) -> Address {
    Address::V4 { ip: 0x7f00_0000 + u32::from(last_octet), port }
}

fn frame(from: Address, bytes: &[u8]) -> RawMessage {
    RawMessage { from, content: bytes.to_vec() }
}

fn snapshot(users: &Directory) -> Vec<User> {
    (0..users.len()).map(|i| users.get(i).unwrap().clone()).collect()
}

fn alice_and_bob() -> (Directory, Address, Address) {
    let a = endpoint(1, 4000);
    let b = endpoint(2, 4001);
    let mut users = Directory::new();
    assert!(handle_message(&mut users, frame(a, b"\x01alice")).is_empty());
    assert!(handle_message(&mut users, frame(b, b"\x01bob")).is_empty());
    (users, a, b)
}

#[test]
fn login_is_silent_and_registers() {
    let (users, a, b) = alice_and_bob();
    assert_eq!(
        snapshot(&users),
        vec![
            User { addr: a, id: 0, name: String::from("alice"), color: None },
            User { addr: b, id: 1, name: String::from("bob"), color: None },
        ]
    );
}

#[test]
fn login_then_lookups_agree() {
    let mut users = Directory::new();
    handle_message(&mut users, frame(endpoint(1, 1), b"\x01one"));
    handle_message(&mut users, frame(endpoint(2, 1), b"\x01two"));
    let before = users.len();
    let from = endpoint(3, 1);
    assert!(handle_message(&mut users, frame(from, b"\x01three")).is_empty());
    let by_id = users.find_user_by_id(before).unwrap();
    let by_addr = users.find_user_by_addr(from).unwrap();
    assert_eq!(by_id.id, before);
    assert_eq!(by_id, by_addr);
    assert_eq!(by_id, User { addr: from, id: 2, name: String::from("three"), color: None });
}

#[test]
fn text_reaches_the_other_user_only() {
    let (mut users, a, b) = alice_and_bob();
    let out = handle_message(&mut users, frame(a, b"\x04hi"));
    assert_eq!(out, vec![Datagram { to: b, bytes: vec![0, 0, 0, b'h', b'i'] }]);
}

#[test]
fn query_is_answered_to_the_requester() {
    let (mut users, _, b) = alice_and_bob();
    let out = handle_message(&mut users, frame(b, &[3, 0]));
    assert_eq!(
        out,
        vec![Datagram { to: b, bytes: vec![1, 1, 0, b'a', b'l', b'i', b'c', b'e'] }]
    );
}

#[test]
fn text_fans_out_to_everyone_else_in_order() {
    let mut users = Directory::new();
    let addrs: Vec<Address> = (0..5u8).map(|i| endpoint(i, 4000)).collect();
    for (i, addr) in addrs.iter().enumerate() {
        handle_message(&mut users, frame(*addr, &[1, b'u', b'0' + i as u8]));
    }
    let before = snapshot(&users);
    let out = handle_message(&mut users, frame(addrs[2], &[4, 9, 8, 7]));
    assert_eq!(out.len(), 4);
    let expected: Vec<Datagram> = [0usize, 1, 3, 4]
        .iter()
        .map(|&i| Datagram { to: addrs[i], bytes: vec![0, 2, 0, 9, 8, 7] })
        .collect();
    assert_eq!(out, expected);
    assert!(out.iter().all(|d| d.to != addrs[2]));
    assert_eq!(snapshot(&users), before);
}

#[test]
fn text_from_the_only_user_goes_nowhere() {
    let mut users = Directory::new();
    let a = endpoint(1, 4000);
    handle_message(&mut users, frame(a, b"\x01solo"));
    assert!(handle_message(&mut users, frame(a, b"\x04anyone?")).is_empty());
}

#[test]
fn empty_text_is_relayed_as_a_bare_header() {
    let (mut users, a, b) = alice_and_bob();
    let out = handle_message(&mut users, frame(b, &[4]));
    assert_eq!(out, vec![Datagram { to: a, bytes: vec![0, 1, 0] }]);
}

#[test]
fn query_for_oneself_and_with_trailing_bytes() {
    let (mut users, a, _) = alice_and_bob();
    let out = handle_message(&mut users, frame(a, &[3, 1, 42, 42]));
    assert_eq!(out, vec![Datagram { to: a, bytes: vec![1, 0, 0, b'b', b'o', b'b'] }]);
    let own = handle_message(&mut users, frame(a, &[3, 0]));
    assert_eq!(own, vec![Datagram { to: a, bytes: vec![1, 0, 0, b'a', b'l', b'i', b'c', b'e'] }]);
}

#[test]
fn query_leaves_the_directory_alone() {
    let (mut users, _, b) = alice_and_bob();
    let before = snapshot(&users);
    handle_message(&mut users, frame(b, &[3, 0]));
    assert_eq!(snapshot(&users), before);
}

#[test]
fn name_comes_back_byte_for_byte() {
    let mut users = Directory::new();
    let a = endpoint(1, 4000);
    let name = "Ærøskøbing 東京";
    let mut login = vec![1u8];
    login.extend_from_slice(name.as_bytes());
    handle_message(&mut users, frame(a, &login));
    let out = handle_message(&mut users, frame(a, &[3, 0]));
    let mut expected = vec![1u8, 0, 0];
    expected.extend_from_slice(name.as_bytes());
    assert_eq!(out, vec![Datagram { to: a, bytes: expected }]);
}

#[test]
fn color_with_empty_payload_is_zero() {
    let (mut users, a, _) = alice_and_bob();
    assert!(handle_message(&mut users, frame(a, &[2])).is_empty());
    assert_eq!(users.find_user_by_addr(a).unwrap().color, Some(0));
}

#[test]
fn color_is_the_first_payload_byte() {
    let (mut users, a, b) = alice_and_bob();
    assert!(handle_message(&mut users, frame(a, &[2, 7])).is_empty());
    assert_eq!(
        snapshot(&users),
        vec![
            User { addr: a, id: 0, name: String::from("alice"), color: Some(7) },
            User { addr: b, id: 1, name: String::from("bob"), color: None },
        ]
    );
    assert!(handle_message(&mut users, frame(b, &[2, 200, 1, 2])).is_empty());
    assert_eq!(users.find_user_by_addr(b).unwrap().color, Some(200));
}

#[test]
fn color_is_carried_by_later_frames() {
    let (mut users, a, b) = alice_and_bob();
    handle_message(&mut users, frame(a, &[2, 7]));
    let text = handle_message(&mut users, frame(a, b"\x04yo"));
    assert_eq!(text, vec![Datagram { to: b, bytes: vec![0, 0, 7, b'y', b'o'] }]);
    let answer = handle_message(&mut users, frame(a, &[3, 1]));
    assert_eq!(answer, vec![Datagram { to: a, bytes: vec![1, 0, 7, b'b', b'o', b'b'] }]);
    let from_bob = handle_message(&mut users, frame(b, b"\x04hey"));
    assert_eq!(from_bob, vec![Datagram { to: a, bytes: vec![0, 1, 0, b'h', b'e', b'y'] }]);
}

#[test]
fn unknown_tags_change_nothing_and_send_nothing() {
    let (mut users, a, _) = alice_and_bob();
    let before = snapshot(&users);
    for tag in [0u8, 5, 17, 128, 255] {
        assert!(handle_message(&mut users, frame(a, &[tag, 1, 2, 3])).is_empty());
    }
    assert!(handle_message(&mut users, frame(a, &[])).is_empty());
    assert_eq!(snapshot(&users), before);
}

#[test]
fn strangers_change_nothing_and_send_nothing() {
    let (mut users, _, _) = alice_and_bob();
    let before = snapshot(&users);
    let stranger = endpoint(9, 4000);
    assert!(handle_message(&mut users, frame(stranger, &[2, 7])).is_empty());
    assert!(handle_message(&mut users, frame(stranger, &[3, 0])).is_empty());
    assert!(handle_message(&mut users, frame(stranger, b"\x04hi")).is_empty());
    assert_eq!(snapshot(&users), before);
    let mut empty = Directory::new();
    assert!(handle_message(&mut empty, frame(stranger, b"\x04hi")).is_empty());
    assert_eq!(empty.len(), 0);
}

#[test]
fn malformed_frames_change_nothing_and_send_nothing() {
    let (mut users, a, _) = alice_and_bob();
    let before = snapshot(&users);
    assert!(handle_message(&mut users, frame(endpoint(9, 1), &[1, 0xff])).is_empty());
    assert!(handle_message(&mut users, frame(a, &[3])).is_empty());
    assert!(handle_message(&mut users, frame(a, &[3, 2])).is_empty());
    assert_eq!(snapshot(&users), before);
}

#[test]
fn second_login_from_an_address_adds_a_second_user() {
    let (mut users, a, b) = alice_and_bob();
    assert!(handle_message(&mut users, frame(a, b"\x01alice2")).is_empty());
    assert_eq!(users.len(), 3);
    assert_eq!(users.find_user_by_addr(a).unwrap().name, "alice");
    assert_eq!(users.find_user_by_id(2).unwrap().name, "alice2");
    let out = handle_message(&mut users, frame(a, b"\x04x"));
    assert_eq!(
        out,
        vec![
            Datagram { to: b, bytes: vec![0, 0, 0, b'x'] },
            Datagram { to: a, bytes: vec![0, 0, 0, b'x'] },
        ]
    );
}

#[test]
fn ids_past_one_byte_wrap_on_the_wire() {
    let mut users = Directory::new();
    for i in 0..258u32 {
        let from = Address::V4 { ip: 0x0a00_0000 + i, port: 1 };
        handle_message(&mut users, frame(from, b"\x01n"));
    }
    assert_eq!(users.len(), 258);
    let late = Address::V4 { ip: 0x0a00_0000 + 257, port: 1 };
    assert_eq!(users.find_user_by_addr(late).unwrap().id, 257);
    let out = handle_message(&mut users, frame(late, b"\x04z"));
    assert_eq!(out.len(), 257);
    assert!(out.iter().all(|d| d.bytes == vec![0, 1, 0, b'z']));
    assert!(out.iter().all(|d| d.to != late));
}

#[test]
fn dispatch_of_unknown_does_nothing() {
    let (mut users, _, _) = alice_and_bob();
    let before = snapshot(&users);
    assert!(dispatch(MessageType::Unknown, &mut users).is_empty());
    assert_eq!(snapshot(&users), before);
}

#[test]
fn dispatch_of_login_registers() {
    let mut users = Directory::new();
    let from = endpoint(4, 4);
    assert!(dispatch(MessageType::Login(from, String::from("dora")), &mut users).is_empty());
    assert_eq!(snapshot(&users), vec![User { addr: from, id: 0, name: String::from("dora"), color: None }]);
}

#[test]
fn dispatch_of_text_pairs_each_recipient_with_the_response() {
    let (mut users, a, b) = alice_and_bob();
    let bob = users.find_user_by_addr(b).unwrap();
    let sends = dispatch(MessageType::Text(bob, vec![1, 2]), &mut users);
    assert_eq!(
        sends,
        vec![Delivery {
            to: a,
            response: Response { response_type: ResponseType::Text, user_id: 1, color: 0, text: vec![1, 2] },
        }]
    );
}

#[test]
fn dispatch_of_query_answers_with_the_name() {
    let (mut users, a, b) = alice_and_bob();
    let alice = users.find_user_by_addr(a).unwrap();
    let bob = users.find_user_by_addr(b).unwrap();
    let sends = dispatch(MessageType::UserQuery(alice, bob), &mut users);
    assert_eq!(
        sends,
        vec![Delivery {
            to: a,
            response: Response {
                response_type: ResponseType::UserName,
                user_id: 0,
                color: 0,
                text: b"bob".to_vec(),
            },
        }]
    );
}

#[test]
fn dispatch_of_color_for_a_user_out_of_range_does_nothing() {
    let (mut users, _, _) = alice_and_bob();
    let before = snapshot(&users);
    let ghost = User { addr: endpoint(8, 8), id: 10, name: String::from("ghost"), color: None };
    assert!(dispatch(MessageType::Color(ghost, vec![5]), &mut users).is_empty());
    assert_eq!(snapshot(&users), before);
}

#[test]
fn ids_equal_positions_after_any_traffic() {
    let mut users = Directory::new();
    let a = endpoint(1, 1);
    let b = endpoint(2, 2);
    let c = endpoint(3, 3);
    let traffic: Vec<(Address, Vec<u8>)> = vec![
        (a, vec![4, 1]),
        (a, vec![1, b'a']),
        (b, vec![]),
        (b, vec![1, b'b']),
        (a, vec![2, 9]),
        (c, vec![3, 0]),
        (a, vec![1, b'x']),
        (b, vec![9, 9, 9]),
        (c, vec![1, 0xff]),
        (c, vec![1, b'c']),
        (b, vec![2]),
        (c, vec![4, b'!']),
    ];
    for (from, bytes) in traffic {
        let before = snapshot(&users);
        handle_message(&mut users, frame(from, &bytes));
        let after = snapshot(&users);
        assert!(after.len() >= before.len());
        for (position, user) in after.iter().enumerate() {
            assert_eq!(user.id, position);
        }
        for (old, new) in before.iter().zip(after.iter()) {
            assert_eq!((old.addr, old.id, &old.name), (new.addr, new.id, &new.name));
        }
    }
    let names: Vec<String> = snapshot(&users).into_iter().map(|u| u.name).collect();
    assert_eq!(names, vec!["a", "b", "x", "c"]);
}
