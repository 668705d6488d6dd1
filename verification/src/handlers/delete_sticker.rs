//! The delete flow: trigger and name step.

use vstd::prelude::*;
use crate::common::{MessageContent, MessageInfo};
use crate::handlers::utils::{get_current_state, get_key};
use crate::handlers::{
    compose3, no_effects, no_replies, one_text, silent_outcome, text_outcome, Outcome,
    PendingPersist,
};
use crate::repo::dialogue_storage::UserDialogueStorage;
use crate::repo::sticker_storage::storage::{has_name, index_of, StickerStorage};
use crate::states::{DialogueStorageKey, State};

verus! {

/// What `/delete` does: it asks which sticker to remove. The menu dispatch
/// may carry the conversation key of the menu's owner instead of the
/// message's sender.
pub open spec fn trigger_delete_post(
    msg: MessageInfo,
    optional_key: Option<DialogueStorageKey>,
    before: Map<DialogueStorageKey, State>,
    after: Map<DialogueStorageKey, State>,
    r: Outcome,
) -> bool {
    &&& no_effects(r)
    &&& match (msg.from_user, optional_key) {
        (None, None) => after == before && one_text(r.replies@, "Каналы не поддерживаются"@),
        (_, Some(key)) => after == before.insert(key, State::AwaitingStickerNameForDelete)
            && one_text(r.replies@, "Введите название стикера для удаления"@),
        (Some(u), None) => after == before.insert(
            (u, msg.chat_id),
            State::AwaitingStickerNameForDelete,
        ) && one_text(r.replies@, "Введите название стикера для удаления"@),
    }
}

/// Starts the delete flow.
pub fn trigger_delete(
    msg: &MessageInfo,
    optional_key: Option<DialogueStorageKey>,
    dialogue: &mut UserDialogueStorage,
) -> (r: Outcome)
    ensures
        trigger_delete_post(
            *msg,
            optional_key,
            old(dialogue).view_map(),
            final(dialogue).view_map(),
            r,
        ),
{
    let key = match optional_key {
        Some(k) => k,
        None => match get_key(msg) {
            Some(k) => k,
            None => {
                return text_outcome(String::from_str("Каналы не поддерживаются"));
            },
        },
    };
    dialogue.update_dialogue(key, State::AwaitingStickerNameForDelete);
    text_outcome(String::from_str("Введите название стикера для удаления"))
}

/// What the name step does: the text name of an existing sticker hands the
/// shell the decided removal to persist; a missing name ends the flow with
/// "not found"; a non-text message is refused and the flow stays.
pub open spec fn delete_sticker_post(
    msg: MessageInfo,
    catalog_items: Seq<(Seq<char>, Seq<char>)>,
    before: Map<DialogueStorageKey, State>,
    after: Map<DialogueStorageKey, State>,
    r: Outcome,
) -> bool {
    match msg.from_user {
        None => after == before && one_text(r.replies@, "Каналы не поддерживаются"@)
            && no_effects(r),
        Some(u) => {
            let key = (u, msg.chat_id);
            if !(before.contains_key(key) && before[key]
                matches State::AwaitingStickerNameForDelete) {
                after == before && no_replies(r.replies@) && no_effects(r)
            } else {
                match msg.content {
                    MessageContent::Text(name) => {
                        if !has_name(catalog_items, name@) {
                            &&& after == before.remove(key)
                            &&& one_text(
                                r.replies@,
                                "Стикер с названием "@ + name@
                                    + " не найден, попробуйте другое название"@,
                            )
                            &&& no_effects(r)
                        } else {
                            &&& after == before
                            &&& no_replies(r.replies@)
                            &&& r.generate is None
                            &&& (r.pending matches Some(p) && {
                                &&& p.key == key
                                &&& p.update.view_items() == catalog_items.remove(
                                    index_of(catalog_items, name@),
                                )
                                &&& p.success_text@ == "Стикер "@ + name@
                                    + " успешно удален"@
                                &&& p.failure_text@
                                    == "Произошла ошибка удаления стикера"@
                            })
                        }
                    },
                    _ => after == before && one_text(
                        r.replies@,
                        "Сообщение пустое, либо это не текстовое сообщение"@,
                    ) && no_effects(r),
                }
            }
        },
    }
}

/// The name step of the delete flow.
pub fn delete_sticker(
    msg: &MessageInfo,
    dialogue: &mut UserDialogueStorage,
    catalog: &StickerStorage,
) -> (r: Outcome)
    requires
        catalog.wf(),
    ensures
        delete_sticker_post(
            *msg,
            catalog.view_items(),
            old(dialogue).view_map(),
            final(dialogue).view_map(),
            r,
        ),
{
    let key = match get_key(msg) {
        Some(k) => k,
        None => {
            return text_outcome(String::from_str("Каналы не поддерживаются"));
        },
    };
    match get_current_state(msg, dialogue) {
        Some(State::AwaitingStickerNameForDelete) => {},
        _ => {
            return silent_outcome();
        },
    }
    let name = match &msg.content {
        MessageContent::Text(t) => t,
        _ => {
            return text_outcome(
                String::from_str("Сообщение пустое, либо это не текстовое сообщение"),
            );
        },
    };
    match catalog.remove_sticker(name.as_str()) {
        Ok(update) => {
            let pending = PendingPersist {
                update,
                key,
                success_text: compose3("Стикер ", name.as_str(), " успешно удален"),
                failure_text: String::from_str("Произошла ошибка удаления стикера"),
            };
            Outcome { replies: Vec::new(), pending: Some(pending), generate: None }
        },
        Err(_) => {
            dialogue.remove_dialogue(key);
            text_outcome(
                compose3(
                    "Стикер с названием ",
                    name.as_str(),
                    " не найден, попробуйте другое название",
                ),
            )
        },
    }
}

} // verus!
