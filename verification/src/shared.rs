//! The session store: which opaque token stands for which user.

use vstd::hash_map::StringHashMap;
use vstd::prelude::*;

verus! {

/// The sessions that logins have opened, by token.
pub struct SessionStore {
    sessions: StringHashMap<String>,
}

impl View for SessionStore {
    type V = Map<Seq<char>, Seq<char>>;

    closed spec fn view(&self) -> Map<Seq<char>, Seq<char>> {
        self.sessions@.map_values(|username: String| username@)
    }
}

impl SessionStore {
    /// A store without sessions.
    pub fn new() -> (store: SessionStore)
        ensures
            store@ == Map::<Seq<char>, Seq<char>>::empty(),
    {
        let store = SessionStore { sessions: StringHashMap::new() };
        assert(store@ =~= Map::<Seq<char>, Seq<char>>::empty());
        store
    }

    /// Opens a session: from now on `token` stands for `username`.
    pub fn insert(&mut self, token: String, username: String)
        ensures
            final(self)@ == old(self)@.insert(token@, username@),
    {
        self.sessions.insert(token, username);
        assert(self@ =~= old(self)@.insert(token@, username@));
    }

    /// The user that `token` stands for, if it stands for one.
    pub fn validate(&self, token: &str) -> (username: Option<String>)
        ensures
            username is Some == self@.contains_key(token@),
            username matches Some(name) ==> name@ == self@[token@],
    {
        match self.sessions.get(token) {
            Some(name) => Some(name.clone()),
            None => None,
        }
    }

    /// Whether `token` stands for a user.
    pub fn contains(&self, token: &str) -> (known: bool)
        ensures
            known == self@.contains_key(token@),
    {
        self.sessions.contains_key(token)
    }
}

} // verus!
