//! The user directory: every registered user, in the order of registration.
use vstd::prelude::*;
use crate::address::Address;
use crate::user::{User, UserView};

verus! {

/// Every record's id is its position in the sequence.
pub open spec fn ids_are_positions(users: Seq<UserView>) -> bool {
    forall|i: int| 0 <= i < users.len() ==> (#[trigger] users[i]).id == i
}

/// `i` is the position of the earliest record registered from `addr`.
pub open spec fn is_first_from(users: Seq<UserView>, addr: Address, i: int) -> bool {
    &&& 0 <= i < users.len()
    &&& users[i].addr == addr
    &&& forall|j: int| 0 <= j < i ==> (#[trigger] users[j]).addr != addr
}

/// The earliest record registered from `addr`, if there is one.
pub open spec fn find_by_addr(users: Seq<UserView>, addr: Address) -> Option<UserView> {
    if exists|i: int| is_first_from(users, addr, i) {
        Some(users[choose|i: int| is_first_from(users, addr, i)])
    } else {
        None
    }
}

/// No record in `users` was registered from `addr`.
pub open spec fn is_unregistered(users: Seq<UserView>, addr: Address) -> bool {
    forall|j: int| 0 <= j < users.len() ==> (#[trigger] users[j]).addr != addr
}

/// `i` is the position of the earliest record that carries `id`.
pub open spec fn is_first_with_id(users: Seq<UserView>, id: nat, i: int) -> bool {
    &&& 0 <= i < users.len()
    &&& users[i].id == id
    &&& forall|j: int| 0 <= j < i ==> (#[trigger] users[j]).id != id
}

/// The earliest record that carries `id`, if there is one.
pub open spec fn find_by_id(users: Seq<UserView>, id: nat) -> Option<UserView> {
    if exists|i: int| is_first_with_id(users, id, i) {
        Some(users[choose|i: int| is_first_with_id(users, id, i)])
    } else {
        None
    }
}

/// The directory after a user named `name` has registered from `addr`: the
/// new record goes last, its id is the number of records before it, and it
/// has no color.
pub open spec fn with_registered(users: Seq<UserView>, addr: Address, name: Seq<char>) -> Seq<
    UserView,
> {
    users.push(UserView { addr, id: users.len(), name, color: None })
}

/// The directory after the record at position `id` has taken `color`; the
/// directory itself where there is no such position.
pub open spec fn with_color(users: Seq<UserView>, id: nat, color: u8) -> Seq<UserView> {
    if id < users.len() {
        users.update(id as int, UserView { color: Some(color), ..users[id as int] })
    } else {
        users
    }
}

/// Where the earliest record from `addr` stands, it is what `find_by_addr` gives.
pub proof fn lemma_find_by_addr_at(users: Seq<UserView>, addr: Address, i: int)
    requires
        is_first_from(users, addr, i),
    ensures
        find_by_addr(users, addr) == Some(users[i]),
{
    let k = choose|k: int| is_first_from(users, addr, k);
    assert(k == i) by {
        if k < i {
            assert(users[k].addr != addr);
        }
        if i < k {
            assert(users[i].addr != addr);
        }
    }
}

/// What `find_by_addr` gives is a record from `addr`, and the earliest one:
/// the result is the position at which it stands.
pub proof fn lemma_find_by_addr_some(users: Seq<UserView>, addr: Address) -> (i: int)
    requires
        find_by_addr(users, addr) is Some,
    ensures
        is_first_from(users, addr, i),
        find_by_addr(users, addr) == Some(users[i]),
{
    choose|i: int| is_first_from(users, addr, i)
}

/// `find_by_addr` gives nothing exactly when no record is from `addr`.
pub proof fn lemma_find_by_addr_none(users: Seq<UserView>, addr: Address)
    ensures
        find_by_addr(users, addr) is None <==> is_unregistered(users, addr),
{
    if find_by_addr(users, addr) is None {
        assert forall|j: int| 0 <= j < users.len() implies (#[trigger] users[j]).addr != addr by {
            if users[j].addr == addr {
                lemma_first_from_exists(users, addr, j);
            }
        }
    } else {
        let k = choose|k: int| is_first_from(users, addr, k);
        assert(users[k].addr == addr);
    }
}

/// A record from `addr` at position `upto` means that an earliest one exists.
proof fn lemma_first_from_exists(users: Seq<UserView>, addr: Address, upto: int)
    requires
        0 <= upto < users.len(),
        users[upto].addr == addr,
    ensures
        exists|i: int| is_first_from(users, addr, i),
    decreases upto,
{
    if exists|j: int| 0 <= j < upto && (#[trigger] users[j]).addr == addr {
        let j = choose|j: int| 0 <= j < upto && (#[trigger] users[j]).addr == addr;
        lemma_first_from_exists(users, addr, j);
    } else {
        assert(is_first_from(users, addr, upto));
    }
}

/// Where the earliest record that carries `id` stands, it is what `find_by_id` gives.
pub proof fn lemma_find_by_id_at(users: Seq<UserView>, id: nat, i: int)
    requires
        is_first_with_id(users, id, i),
    ensures
        find_by_id(users, id) == Some(users[i]),
{
    let k = choose|k: int| is_first_with_id(users, id, k);
    assert(k == i) by {
        if k < i {
            assert(users[k].id != id);
        }
        if i < k {
            assert(users[i].id != id);
        }
    }
}

/// `find_by_id` gives nothing exactly when no record carries `id`.
pub proof fn lemma_find_by_id_none(users: Seq<UserView>, id: nat)
    ensures
        find_by_id(users, id) is None <==> forall|j: int|
            0 <= j < users.len() ==> (#[trigger] users[j]).id != id,
{
    if find_by_id(users, id) is None {
        assert forall|j: int| 0 <= j < users.len() implies (#[trigger] users[j]).id != id by {
            if users[j].id == id {
                lemma_first_with_id_exists(users, id, j);
            }
        }
    } else {
        let k = choose|k: int| is_first_with_id(users, id, k);
        assert(users[k].id == id);
    }
}

/// A record that carries `id` at position `upto` means that an earliest one exists.
proof fn lemma_first_with_id_exists(users: Seq<UserView>, id: nat, upto: int)
    requires
        0 <= upto < users.len(),
        users[upto].id == id,
    ensures
        exists|i: int| is_first_with_id(users, id, i),
    decreases upto,
{
    if exists|j: int| 0 <= j < upto && (#[trigger] users[j]).id == id {
        let j = choose|j: int| 0 <= j < upto && (#[trigger] users[j]).id == id;
        lemma_first_with_id_exists(users, id, j);
    } else {
        assert(is_first_with_id(users, id, upto));
    }
}

/// In a directory whose ids are positions, the record that carries `id` is
/// the one at position `id`, and ids from the length on are carried by none.
pub proof fn lemma_find_by_id_is_position(users: Seq<UserView>, id: nat)
    requires
        ids_are_positions(users),
    ensures
        id < users.len() ==> find_by_id(users, id) == Some(users[id as int]),
        id >= users.len() ==> find_by_id(users, id) is None,
{
    if id < users.len() {
        assert(is_first_with_id(users, id, id as int));
        lemma_find_by_id_at(users, id, id as int);
    } else {
        if exists|i: int| is_first_with_id(users, id, i) {
            let k = choose|k: int| is_first_with_id(users, id, k);
            assert(users[k].id == k);
        }
    }
}

/// Why a directory operation did nothing.
#[derive(Clone, Copy, Debug, PartialEq, Eq, Structural)]
pub enum DirectoryError {
    /// No user has the id that was given.
    UnknownId,
}

/// The users the relay knows, in the order in which they registered.
///
/// Users are only ever added, never removed. A directory can only be made
/// empty and changed through [`Directory::register`] and
/// [`Directory::update_color`], each of which keeps [`Directory::wf`], so a
/// user's id stays equal to its position for as long as the directory lives.
#[derive(Debug)]
pub struct Directory {
    users: Vec<User>,
}

impl View for Directory {
    type V = Seq<UserView>;

    closed spec fn view(&self) -> Seq<UserView> {
        self.users@.map_values(|u: User| u@)
    }
}

impl Directory {
    /// Every user's id is its position.
    pub open spec fn wf(&self) -> bool {
        ids_are_positions(self@)
    }

    /// A directory with no users.
    pub fn new() -> (directory: Directory)
        ensures
            directory@ == Seq::<UserView>::empty(),
            directory.wf(),
    {
        Directory { users: Vec::new() }
    }

    /// The number of registered users.
    pub fn len(&self) -> (n: usize)
        ensures
            n == self@.len(),
    {
        self.users.len()
    }

    /// The user at `position`, if the directory is that long.
    pub fn get(&self, position: usize) -> (found: Option<&User>)
        ensures
            found is Some <==> position < self@.len(),
            found is Some ==> found->0@ == self@[position as int],
    {
        if position < self.users.len() {
            Some(&self.users[position])
        } else {
            None
        }
    }

    /// The earliest user that registered from `addr`.
    pub fn find_user_by_addr(&self, addr: Address) -> (found: Option<User>)
        ensures
            match found {
                Some(user) => find_by_addr(self@, addr) == Some(user@),
                None => find_by_addr(self@, addr) is None,
            },
    {
        let mut i: usize = 0;
        while i < self.users.len()
            invariant
                i <= self.users@.len(),
                forall|j: int| 0 <= j < i ==> (#[trigger] self@[j]).addr != addr,
            decreases self.users@.len() - i,
        {
            if self.users[i].addr == addr {
                proof {
                    lemma_find_by_addr_at(self@, addr, i as int);
                }
                return Some(self.users[i].clone());
            }
            i += 1;
        }
        proof {
            lemma_find_by_addr_none(self@, addr);
        }
        None
    }

    /// The earliest user whose id is `id`.
    ///
    /// The search reads the id off each record and takes no position for
    /// granted. In a well-formed directory it finds the user at position
    /// `id` where the directory is that long, and nobody otherwise.
    pub fn find_user_by_id(&self, id: usize) -> (found: Option<User>)
        ensures
            match found {
                Some(user) => find_by_id(self@, id as nat) == Some(user@),
                None => find_by_id(self@, id as nat) is None,
            },
            self.wf() ==> (found is Some <==> id < self@.len()),
            self.wf() && found is Some ==> found->0@ == self@[id as int],
    {
        proof {
            if self.wf() {
                lemma_find_by_id_is_position(self@, id as nat);
            }
        }
        let mut i: usize = 0;
        while i < self.users.len()
            invariant
                i <= self.users@.len(),
                forall|j: int| 0 <= j < i ==> (#[trigger] self@[j]).id != id,
            decreases self.users@.len() - i,
        {
            if self.users[i].id == id {
                proof {
                    lemma_find_by_id_at(self@, id as nat, i as int);
                }
                return Some(self.users[i].clone());
            }
            i += 1;
        }
        proof {
            lemma_find_by_id_none(self@, id as nat);
        }
        None
    }

    /// Adds a user named `name` that registered from `addr`, and returns its
    /// record. The new user's id is the number of users before it.
    ///
    /// An address that is already known is accepted like any other: the new
    /// user stands beside the earlier one, and look-ups by that address keep
    /// finding the earlier one.
    pub fn register(&mut self, addr: Address, name: String) -> (user: User)
        ensures
            final(self)@ == with_registered(old(self)@, addr, name@),
            user@ == final(self)@.last(),
            old(self).wf() ==> final(self).wf(),
    {
        let user = User::new(addr, self.users.len(), name);
        let copy = user.clone();
        self.users.push(user);
        copy
    }

    /// Gives the user at position `id` the color `color` and leaves the rest
    /// of its record, and every other record, as it was. Where the directory
    /// is not that long it stays as it is and the error says so.
    pub fn update_color(&mut self, id: usize, color: u8) -> (done: Result<(), DirectoryError>)
        ensures
            final(self)@ == with_color(old(self)@, id as nat, color),
            done is Ok <==> id < old(self)@.len(),
            done is Err ==> done == Err::<(), DirectoryError>(DirectoryError::UnknownId),
            old(self).wf() ==> final(self).wf(),
    {
        if id < self.users.len() {
            self.users[id].color = Some(color);
            Ok(())
        } else {
            Err(DirectoryError::UnknownId)
        }
    }
}

} // verus!
