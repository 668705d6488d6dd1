//! Routes a plain message to the step of whatever flow its sender has open.

use vstd::prelude::*;
use crate::common::MessageInfo;
use crate::handlers::add_sticker::{
    process_new_name, process_new_name_post, receive_sticker, receive_sticker_post,
};
use crate::handlers::delete_sticker::{delete_sticker, delete_sticker_post};
use crate::handlers::rename_sticker::{
    process_new_sticker_name, process_new_sticker_name_post, rename_sticker, rename_sticker_post,
};
use crate::handlers::utils::{get_current_state, get_key};
use crate::handlers::{
    no_effects, no_replies, silent_outcome, spec_msg_key, touches_only, Outcome,
};
use crate::repo::dialogue_storage::UserDialogueStorage;
use crate::repo::sticker_storage::storage::StickerStorage;
use crate::states::{DialogueStorageKey, State};

verus! {

/// What a plain message does: it advances the sender's open flow, and does
/// nothing at all when no flow is open or a menu is showing.
pub open spec fn state_dispatcher_post(
    msg: MessageInfo,
    catalog_items: Seq<(Seq<char>, Seq<char>)>,
    before: Map<DialogueStorageKey, State>,
    after: Map<DialogueStorageKey, State>,
    r: Outcome,
) -> bool {
    match msg.from_user {
        None => after == before && no_replies(r.replies@) && no_effects(r),
        Some(u) => {
            let key = (u, msg.chat_id);
            if !before.contains_key(key) {
                after == before && no_replies(r.replies@) && no_effects(r)
            } else {
                match before[key] {
                    State::AwaitingStickerNameForAdd => process_new_name_post(
                        msg,
                        catalog_items,
                        before,
                        after,
                        r,
                    ),
                    State::AwaitingStickerMediaForAdd { .. } => receive_sticker_post(
                        msg,
                        catalog_items,
                        before,
                        after,
                        r,
                    ),
                    State::AwaitingStickerNameForRename => rename_sticker_post(
                        msg,
                        catalog_items,
                        before,
                        after,
                        r,
                    ),
                    State::AwaitingNewNameForRename { .. } => process_new_sticker_name_post(
                        msg,
                        catalog_items,
                        before,
                        after,
                        r,
                    ),
                    State::AwaitingStickerNameForDelete => delete_sticker_post(
                        msg,
                        catalog_items,
                        before,
                        after,
                        r,
                    ),
                    State::ShowingCommandMenu { .. } => after == before && no_replies(r.replies@)
                        && no_effects(r),
                }
            }
        },
    }
}

/// Advances the sender's open flow with this message.
pub fn state_dispatcher(
    msg: &MessageInfo,
    dialogue: &mut UserDialogueStorage,
    catalog: &StickerStorage,
) -> (r: Outcome)
    requires
        catalog.wf(),
    ensures
        touches_only(old(dialogue).view_map(), final(dialogue).view_map(), spec_msg_key(*msg)),
        state_dispatcher_post(
            *msg,
            catalog.view_items(),
            old(dialogue).view_map(),
            final(dialogue).view_map(),
            r,
        ),
{
    match get_key(msg) {
        Some(_) => {},
        None => {
            return silent_outcome();
        },
    }
    match get_current_state(msg, dialogue) {
        Some(State::AwaitingStickerNameForAdd) => process_new_name(msg, dialogue, catalog),
        Some(State::AwaitingStickerMediaForAdd { .. }) => receive_sticker(msg, dialogue, catalog),
        Some(State::AwaitingStickerNameForRename) => rename_sticker(msg, dialogue, catalog),
        Some(State::AwaitingNewNameForRename { .. }) => process_new_sticker_name(
            msg,
            dialogue,
            catalog,
        ),
        Some(State::AwaitingStickerNameForDelete) => delete_sticker(msg, dialogue, catalog),
        Some(State::ShowingCommandMenu { .. }) => silent_outcome(),
        None => silent_outcome(),
    }
}

} // verus!
