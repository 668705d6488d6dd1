//! Small helpers shared by the handlers.

use vstd::prelude::*;
use crate::common::MessageInfo;
use crate::handlers::spec_msg_key;
use crate::repo::dialogue_storage::UserDialogueStorage;
use crate::states::{DialogueStorageKey, State};

verus! {

/// Whether the message has a sender (channel posts have none).
pub fn is_user(msg: &MessageInfo) -> (r: bool)
    ensures
        r == (msg.from_user is Some),
{
    msg.from_user.is_some()
}

/// The conversation key of the message, when it has a sender.
pub fn get_key(msg: &MessageInfo) -> (r: Option<DialogueStorageKey>)
    ensures
        match r {
            Some(k) => msg.from_user is Some && k == spec_msg_key(*msg),
            None => msg.from_user is None,
        },
{
    match msg.from_user {
        Some(u) => Some((u, msg.chat_id)),
        None => None,
    }
}

/// The sender's current workflow state in this chat, if any.
pub fn get_current_state(msg: &MessageInfo, dialogue: &UserDialogueStorage) -> (r: Option<State>)
    ensures
        match r {
            Some(s) => msg.from_user is Some && dialogue.view_map().contains_key(
                spec_msg_key(*msg),
            ) && s == dialogue.view_map()[spec_msg_key(*msg)],
            None => msg.from_user is None || !dialogue.view_map().contains_key(
                spec_msg_key(*msg),
            ),
        },
{
    match get_key(msg) {
        Some(key) => dialogue.get_dialogue(key),
        None => None,
    }
}

} // verus!
