//! The conversation store: the current workflow state of each (user, chat)
//! key, held in a concurrent map so that many chats can be mid-flow at once.

use vstd::prelude::*;
use dashmap::DashMap;
use std::collections::hash_map::RandomState;
use crate::states::{DialogueStorageKey, State};

verus! {

#[verifier::external_type_specification]
#[verifier::external_body]
#[verifier::reject_recursive_types(K)]
#[verifier::reject_recursive_types(V)]
#[verifier::reject_recursive_types(S)]
pub struct ExDashMap<K, V, S>(DashMap<K, V, S>);

/// The concurrent map the store is built on.
pub type DialogueMap = DashMap<DialogueStorageKey, State, RandomState>;

/// What the conversation map holds: the workflow state under each key.
pub uninterp spec fn dialogue_contents(m: DialogueMap) -> Map<DialogueStorageKey, State>;

/// Relies on dashmap's `DashMap::new`: a new map holds nothing.
#[verifier::external_body]
fn new_dialogue_map() -> (m: DialogueMap)
    ensures
        forall|k: DialogueStorageKey| !dialogue_contents(m).contains_key(k),
{
    DashMap::new()
}

/// The per-(user, chat) workflow states. A key with no entry is an idle
/// conversation.
pub struct UserDialogueStorage {
    pub storage: DialogueMap,
}

impl UserDialogueStorage {
    /// The state of each active conversation.
    pub open spec fn view_map(self) -> Map<DialogueStorageKey, State> {
        dialogue_contents(self.storage)
    }

    pub fn new() -> (r: Self)
        ensures
            r.view_map() == Map::<DialogueStorageKey, State>::empty(),
    {
        let r = UserDialogueStorage { storage: new_dialogue_map() };
        proof {
            assert(r.view_map() =~= Map::<DialogueStorageKey, State>::empty());
        }
        r
    }

    /// Relies on dashmap's `DashMap::get`, which hands back a guarded
    /// reference to the value under the key; the wrapper clones the state
    /// out.
    #[verifier::external_body]
    pub fn get_dialogue(&self, key: DialogueStorageKey) -> (r: Option<State>)
        ensures
            r == if dialogue_contents(self.storage).contains_key(key) {
                Some(dialogue_contents(self.storage)[key])
            } else {
                None::<State>
            },
    {
        self.storage.get(&key).map(|v| v.value().clone())
    }

    /// Relies on dashmap's `DashMap::insert`: the key now maps to the new
    /// state, no other key changes, and the previous state comes back.
    #[verifier::external_body]
    pub fn update_dialogue(&mut self, key: DialogueStorageKey, new_state: State) -> (r: Option<
        State,
    >)
        ensures
            dialogue_contents(final(self).storage) == dialogue_contents(old(self).storage).insert(
                key,
                new_state,
            ),
            r == if dialogue_contents(old(self).storage).contains_key(key) {
                Some(dialogue_contents(old(self).storage)[key])
            } else {
                None::<State>
            },
    {
        self.storage.insert(key, new_state)
    }

    /// Relies on dashmap's `DashMap::remove`: the key leaves the map, no
    /// other key changes, and the removed pair comes back.
    #[verifier::external_body]
    pub fn remove_dialogue(&mut self, key: DialogueStorageKey) -> (r: Option<
        (DialogueStorageKey, State),
    >)
        ensures
            dialogue_contents(final(self).storage) == dialogue_contents(old(self).storage).remove(
                key,
            ),
            r == if dialogue_contents(old(self).storage).contains_key(key) {
                Some((key, dialogue_contents(old(self).storage)[key]))
            } else {
                None::<(DialogueStorageKey, State)>
            },
    {
        self.storage.remove(&key)
    }
}

/// Law of store isolation: setting or clearing one conversation's state
/// leaves every other key's state exactly as it was.
pub proof fn lemma_dialogue_isolation(
    m: Map<DialogueStorageKey, State>,
    k1: DialogueStorageKey,
    k2: DialogueStorageKey,
    s: State,
)
    requires
        k1 != k2,
    ensures
        m.insert(k1, s).contains_key(k2) == m.contains_key(k2),
        m.contains_key(k2) ==> m.insert(k1, s)[k2] == m[k2],
        m.remove(k1).contains_key(k2) == m.contains_key(k2),
        m.contains_key(k2) ==> m.remove(k1)[k2] == m[k2],
{
}

} // verus!
