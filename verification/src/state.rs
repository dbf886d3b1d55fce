//! The state that all the connections share: the registry of users and the
//! hub on which events are published.

use crate::clock::current_timestamp;
use crate::hub::{hub_open, hub_send, hub_subscribe, HUB_CAPACITY};
use crate::ident::{fresh_id, is_random_layout};
use crate::message::ServerMessage;
use crate::table::{table_entries, table_insert, table_new, table_remove, table_snapshot};
use crate::text::{is_name, lemma_trimmed_is_trimmed, trim_text, trimmed};
use crate::user::{JoinError, User, UserView};
use dashmap::DashMap;
use tokio::sync::broadcast::{Receiver, Sender};
use vstd::prelude::*;

verus! {

/// A registry as a mathematical value: the users by connection identity.
pub type Registry = Map<u128, UserView>;

/// Some registered user holds the name.
pub open spec fn name_taken(registry: Registry, name: Seq<char>) -> bool {
    exists|id: u128| #[trigger] registry.contains_key(id) && registry[id].username == name
}

/// A registry is well formed when it is finite, each user is stored under
/// its own identity, each name is not empty and has no whitespace at either
/// end, and no two users hold the same name.
pub open spec fn registry_wf(registry: Registry) -> bool {
    &&& registry.dom().finite()
    &&& forall|id: u128| #[trigger]
        registry.contains_key(id) ==> registry[id].id == id && is_name(registry[id].username)
    &&& forall|a: u128, b: u128|
        #![trigger registry.contains_key(a), registry.contains_key(b)]
        registry.contains_key(a) && registry.contains_key(b) && registry[a].username
            == registry[b].username ==> a == b
}

/// A list of names is a listing of a registry when it holds each registered
/// name once and nothing else.
pub open spec fn is_listing(registry: Registry, names: Seq<Seq<char>>) -> bool {
    &&& names.no_duplicates()
    &&& forall|name: Seq<char>| #[trigger] names.contains(name) <==> name_taken(registry, name)
}

/// What an attempt to claim a name yields. The name is trimmed first: the
/// attempt fails if nothing is left of it, or if a registered user holds the
/// trimmed name; otherwise the new user carries the trimmed name.
pub open spec fn claim_result(registry: Registry, name: Seq<char>, id: u128, now: u64) -> Result<
    UserView,
    JoinError,
> {
    if trimmed(name).len() == 0 {
        Err(JoinError::EmptyName)
    } else if name_taken(registry, trimmed(name)) {
        Err(JoinError::NameTaken)
    } else {
        Ok(UserView { id, username: trimmed(name), join_time: now })
    }
}

/// The registry after an attempt to claim a name.
pub open spec fn claim_registry(registry: Registry, name: Seq<char>, id: u128, now: u64) -> Registry {
    match claim_result(registry, name, id, now) {
        Ok(user) => registry.insert(id, user),
        Err(_) => registry,
    }
}

/// The view of what a claim returned.
pub open spec fn result_view(result: Result<User, JoinError>) -> Result<UserView, JoinError> {
    match result {
        Ok(user) => Ok(user@),
        Err(e) => Err(e),
    }
}

/// The shared state of the room.
pub struct AppState {
    users: DashMap<u128, User>,
    tx: Sender<ServerMessage>,
}

impl AppState {
    /// The registry that the state holds.
    pub closed spec fn view(&self) -> Registry {
        table_entries(self.users)
    }

    /// The state's invariant: its registry is well formed.
    pub open spec fn wf(&self) -> bool {
        registry_wf(self@)
    }

    /// A room without users and without subscribers.
    pub fn new() -> (state: Self)
        ensures
            state.wf(),
            state@ == Registry::empty(),
    {
        AppState { users: table_new(), tx: hub_open(HUB_CAPACITY) }
    }

    /// Claims `username` for the connection `id` at the time `now`.
    ///
    /// The name is trimmed of its leading and trailing whitespace. If
    /// nothing is left of it the claim is refused, and so it is if a
    /// registered user holds the trimmed name; neither changes the registry.
    /// Otherwise the trimmed name is registered under `id`, and the new user
    /// is returned.
    #[verifier::loop_isolation(false)]
    pub fn add_user_with(&mut self, username: String, id: u128, now: u64) -> (result: Result<
        User,
        JoinError,
    >)
        requires
            old(self).wf(),
        ensures
            final(self).wf(),
            result_view(result) == claim_result(old(self)@, username@, id, now),
            final(self)@ == claim_registry(old(self)@, username@, id, now),
    {
        let trimmed_name = trim_text(username.as_str());
        if trimmed_name.is_empty() {
            return Err(JoinError::EmptyName);
        }
        let name = String::from_str(trimmed_name);
        let items = table_snapshot(&self.users);
        let mut i: usize = 0;
        while i < items.len()
            invariant
                0 <= i <= items.len(),
                forall|j: int| 0 <= j < i ==> (#[trigger] items[j]).1@.username != name@,
            decreases items.len() - i,
        {
            if items[i].1.username == name {
                proof {
                    assert(self@.contains_key(items[i as int].0));
                }
                return Err(JoinError::NameTaken);
            }
            i += 1;
        }
        proof {
            lemma_trimmed_is_trimmed(username@);
            assert forall|k: u128| #[trigger] self@.contains_key(k) implies self@[k].username
                != name@ by {
                let j = choose|j: int| 0 <= j < items.len() && (#[trigger] items[j]).0 == k;
                assert(self@.contains_pair(items[j].0, items[j].1@));
            }
        }
        let user = User { id, username: name.clone(), join_time: now };
        let _ = table_insert(&mut self.users, id, User { id, username: name, join_time: now });
        Ok(user)
    }

    /// Claims `username` for a new connection: draws a random identity,
    /// reads the clock and registers the name as `add_user_with` does.
    pub fn add_user(&mut self, username: String) -> (result: Result<User, JoinError>)
        requires
            old(self).wf(),
        ensures
            final(self).wf(),
            exists|id: u128, now: u64|
                {
                    &&& is_random_layout(id)
                    &&& result_view(result) == #[trigger] claim_result(
                        old(self)@,
                        username@,
                        id,
                        now,
                    )
                    &&& final(self)@ == claim_registry(old(self)@, username@, id, now)
                },
    {
        let id = fresh_id();
        let now = current_timestamp();
        self.add_user_with(username, id, now)
    }

    /// Takes the user of the connection `user_id` out of the registry and
    /// returns it; does nothing if the connection has no user.
    pub fn remove_user(&mut self, user_id: u128) -> (removed: Option<User>)
        requires
            old(self).wf(),
        ensures
            final(self).wf(),
            final(self)@ == old(self)@.remove(user_id),
            removed is Some <==> old(self)@.contains_key(user_id),
            removed matches Some(user) ==> user@ == old(self)@[user_id],
    {
        table_remove(&mut self.users, user_id)
    }

    /// The names of the registered users, each once, in no particular order.
    #[verifier::loop_isolation(false)]
    pub fn get_user_list(&self) -> (names: Vec<String>)
        requires
            self.wf(),
        ensures
            is_listing(self@, names.deep_view()),
    {
        let items = table_snapshot(&self.users);
        let mut names: Vec<String> = Vec::new();
        let mut i: usize = 0;
        while i < items.len()
            invariant
                0 <= i <= items.len(),
                names.len() == i,
                forall|j: int| 0 <= j < i ==> (#[trigger] names[j])@ == items[j].1@.username,
            decreases items.len() - i,
        {
            names.push(items[i].1.username.clone());
            i += 1;
        }
        proof {
            let listed = names.deep_view();
            assert forall|a: int, b: int| 0 <= a < listed.len() && 0 <= b < listed.len() && a
                != b implies listed[a] != listed[b] by {
                assert(self@.contains_pair(items[a].0, items[a].1@));
                assert(self@.contains_pair(items[b].0, items[b].1@));
            }
            assert forall|name: Seq<char>| #[trigger]
                listed.contains(name) <==> name_taken(self@, name) by {
                if listed.contains(name) {
                    let a = choose|a: int| 0 <= a < listed.len() && listed[a] == name;
                    assert(self@.contains_pair(items[a].0, items[a].1@));
                    assert(self@.contains_key(items[a].0));
                }
                if name_taken(self@, name) {
                    let k = choose|k: u128| #[trigger]
                        self@.contains_key(k) && self@[k].username == name;
                    let a = choose|a: int| 0 <= a < items.len() && (#[trigger] items[a]).0 == k;
                    assert(self@.contains_pair(items[a].0, items[a].1@));
                    assert(listed[a] == name);
                }
            }
        }
        names
    }

    /// Publishes an event to every subscriber of the hub. The event is
    /// dropped if there is none.
    pub fn broadcast_message(&self, message: ServerMessage) {
        let _ = hub_send(&self.tx, message);
    }

    /// Subscribes to the hub: the receiver sees the events published from
    /// now on.
    pub fn subscribe(&self) -> Receiver<ServerMessage> {
        hub_subscribe(&self.tx)
    }
}

} // verus!
