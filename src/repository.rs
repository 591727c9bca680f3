use vstd::prelude::*;
use std::collections::HashMap;

verus! {

/// A user record.
#[derive(Clone, Debug)]
pub struct User {
    pub id: u32,
    pub name: String,
    pub email: String,
}

/// Users stored by id.
pub struct UserRepository {
    users: HashMap<u32, User>,
}

impl View for UserRepository {
    type V = Map<u32, User>;

    closed spec fn view(&self) -> Map<u32, User> {
        self.users@
    }
}

impl UserRepository {
    /// An empty repository.
    pub fn new() -> (r: Self)
        ensures
            r@ == Map::<u32, User>::empty(),
    {
        UserRepository { users: HashMap::new() }
    }

    /// Stores `user` under its id, replacing any earlier user with that id.
    pub fn add(&mut self, user: User)
        ensures
            final(self)@ == old(self)@.insert(user.id, user),
    {
        self.users.insert(user.id, user);
    }

    /// The user stored under `id`, if any.
    pub fn find(&self, id: u32) -> (r: Option<&User>)
        ensures
            r matches Some(u) ==> self@.contains_key(id) && *u == self@[id],
            r is None ==> !self@.contains_key(id),
    {
        self.users.get(&id)
    }
}

} // verus!
