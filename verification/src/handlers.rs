//! The workflow engine: pure handlers that take an inbound event and the
//! stores, and return what to send and what outside work is still owed (a
//! durable write, a generation pass). The shell performs that work and hands
//! the outcome back.

pub mod add_sticker;
pub mod delete_sticker;
pub mod friday;
pub mod get_sticker;
pub mod list_stickers;
pub mod model_info;
pub mod rename_sticker;
pub mod root_handler;
pub mod slay;
pub mod state_dispatcher;
pub mod utils;

use vstd::prelude::*;
use crate::common::MessageInfo;
use crate::repo::dialogue_storage::UserDialogueStorage;
use crate::repo::sticker_storage::storage::{CatalogUpdate, StickerStorage};
use crate::states::{DialogueStorageKey, State};

verus! {

/// One outbound action: a text reply, a sticker send, an inline button grid,
/// or one-tap reply suggestions.
#[derive(Debug, Clone)]
pub enum Reply {
    Text(String),
    StickerFile(String),
    Menu { text: String, rows: Vec<Vec<String>> },
    Suggestions { text: String, options: Vec<String> },
}

/// A generation the shell still has to run through the provider pool.
pub struct GenerationRequest {
    pub input: String,
}

/// A decided catalog mutation whose durable write the shell still has to
/// perform; [`finish_persist`] closes it either way.
pub struct PendingPersist {
    pub update: CatalogUpdate,
    pub key: DialogueStorageKey,
    pub success_text: String,
    pub failure_text: String,
}

/// What one handled event asks of the shell.
pub struct Outcome {
    pub replies: Vec<Reply>,
    pub pending: Option<PendingPersist>,
    pub generate: Option<GenerationRequest>,
}

/// The outcome carries neither a durable write nor a generation.
pub open spec fn no_effects(o: Outcome) -> bool {
    o.pending is None && o.generate is None
}

/// The reply is this one text.
pub open spec fn one_text(rs: Seq<Reply>, t: Seq<char>) -> bool {
    rs.len() == 1 && (rs[0] matches Reply::Text(s) && s@ == t)
}

/// No reply at all.
pub open spec fn no_replies(rs: Seq<Reply>) -> bool {
    rs.len() == 0
}

/// Every conversation key but this one keeps exactly the state it had.
pub open spec fn touches_only(
    before: Map<DialogueStorageKey, State>,
    after: Map<DialogueStorageKey, State>,
    key: DialogueStorageKey,
) -> bool {
    forall|k: DialogueStorageKey|
        k != key ==> ((#[trigger] after.contains_key(k)) == before.contains_key(k) && (
        before.contains_key(k) ==> after[k] == before[k]))
}

/// The conversation key of a message's sender in its chat.
pub open spec fn spec_msg_key(msg: MessageInfo) -> DialogueStorageKey {
    match msg.from_user {
        Some(u) => (u, msg.chat_id),
        None => (0, msg.chat_id),
    }
}

/// A button press, reduced to the plain values the menu logic reads.
#[derive(Debug, Clone)]
pub struct CallbackInfo {
    pub from_user: u64,
    pub chat_id: Option<i64>,
    pub data: Option<String>,
}

/// The two parts, one after the other.
pub fn compose2(a: &str, b: &str) -> (r: String)
    ensures
        r@ == a@ + b@,
{
    let mut s = String::from_str(a);
    s.append(b);
    s
}

/// The three parts, one after the other.
pub fn compose3(a: &str, b: &str, c: &str) -> (r: String)
    ensures
        r@ == a@ + b@ + c@,
{
    let mut s = String::from_str(a);
    s.append(b);
    s.append(c);
    s
}

/// An outcome that only replies with one text.
pub fn text_outcome(t: String) -> (r: Outcome)
    ensures
        no_effects(r) && one_text(r.replies@, t@),
{
    let mut replies: Vec<Reply> = Vec::new();
    replies.push(Reply::Text(t));
    Outcome { replies, pending: None, generate: None }
}

/// An outcome with nothing to send and nothing owed.
pub fn silent_outcome() -> (r: Outcome)
    ensures
        no_effects(r) && no_replies(r.replies@),
{
    Outcome { replies: Vec::new(), pending: None, generate: None }
}

/// Closes a decided catalog mutation once the shell has attempted the durable
/// write: only a successful write is committed — a failed one leaves the
/// catalog exactly as it was, so cache and file never diverge — and the flow's
/// conversation state is cleared either way.
pub fn finish_persist(
    pending: PendingPersist,
    write_ok: bool,
    catalog: &mut StickerStorage,
    dialogue: &mut UserDialogueStorage,
) -> (r: Vec<Reply>)
    ensures
        write_ok ==> final(catalog).view_items() == pending.update.view_items()
            && final(catalog).wf(),
        !write_ok ==> *final(catalog) == *old(catalog),
        final(dialogue).view_map() == old(dialogue).view_map().remove(pending.key),
        one_text(
            r@,
            if write_ok {
                pending.success_text@
            } else {
                pending.failure_text@
            },
        ),
{
    let text = if write_ok {
        let t = String::from_str(pending.success_text.as_str());
        catalog.commit(pending.update);
        t
    } else {
        String::from_str(pending.failure_text.as_str())
    };
    dialogue.remove_dialogue(pending.key);
    let mut replies: Vec<Reply> = Vec::new();
    replies.push(Reply::Text(text));
    replies
}

} // verus!
