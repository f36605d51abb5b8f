//! User records.
use vstd::prelude::*;
use crate::address::Address;

verus! {

/// One registered client.
#[derive(Debug, PartialEq, Eq, Hash)]
pub struct User {
    /// The address the user registered from.
    pub addr: Address,
    /// The user's id: the number of users that were registered before it.
    pub id: usize,
    /// The display name given at registration.
    pub name: String,
    /// The color tag, `None` until the user sets one.
    pub color: Option<u8>,
}

/// What a [`User`] stands for in contracts.
pub struct UserView {
    pub addr: Address,
    pub id: nat,
    pub name: Seq<char>,
    pub color: Option<u8>,
}

impl View for User {
    type V = UserView;

    open spec fn view(&self) -> UserView {
        UserView { addr: self.addr, id: self.id as nat, name: self.name@, color: self.color }
    }
}

/// The color that goes on the wire for a user: its tag, or 0 while it has none.
pub open spec fn color_or_zero(color: Option<u8>) -> u8 {
    match color {
        Some(c) => c,
        None => 0,
    }
}

/// The one-byte form of an id on the wire: its low eight bits.
pub open spec fn wire_id(id: nat) -> u8 {
    (id % 256) as u8
}

impl User {
    /// A user without a color.
    pub fn new(addr: Address, id: usize, name: String) -> (user: User)
        ensures
            user@ == (UserView { addr, id: id as nat, name: name@, color: None }),
    {
        User { addr, id, name, color: None }
    }
}

impl Clone for User {
    fn clone(&self) -> (copy: User)
        ensures
            copy == *self,
    {
        User { addr: self.addr, id: self.id, name: self.name.clone(), color: self.color }
    }
}

} // verus!
