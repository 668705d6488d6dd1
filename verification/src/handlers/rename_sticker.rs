//! The rename flow: trigger, old-name step, new-name step.

use vstd::prelude::*;
use crate::common::{MessageContent, MessageInfo};
use crate::handlers::utils::{get_current_state, get_key};
use crate::handlers::{
    compose3, no_effects, no_replies, one_text, silent_outcome, text_outcome, touches_only,
    Outcome, PendingPersist,
};
use crate::repo::dialogue_storage::UserDialogueStorage;
use crate::repo::sticker_storage::storage::{has_name, index_of, StickerStorage};
use crate::states::State;
use crate::utils::is_blank;

verus! {

/// What `/rename` does: it asks which sticker to rename.
pub open spec fn trigger_rename_post(
    msg: MessageInfo,
    before: Map<crate::states::DialogueStorageKey, State>,
    after: Map<crate::states::DialogueStorageKey, State>,
    r: Outcome,
) -> bool {
    &&& no_effects(r)
    &&& match msg.from_user {
        None => after == before && one_text(r.replies@, "Каналы не поддерживаются"@),
        Some(u) => {
            &&& after == before.insert((u, msg.chat_id), State::AwaitingStickerNameForRename)
            &&& one_text(
                r.replies@,
                "Введите название стикера, который хотите переименовать"@,
            )
        },
    }
}

/// Starts the rename flow for this sender.
pub fn trigger_rename(msg: &MessageInfo, dialogue: &mut UserDialogueStorage) -> (r: Outcome)
    ensures
        trigger_rename_post(*msg, old(dialogue).view_map(), final(dialogue).view_map(), r),
{
    let key = match get_key(msg) {
        Some(k) => k,
        None => {
            return text_outcome(String::from_str("Каналы не поддерживаются"));
        },
    };
    dialogue.update_dialogue(key, State::AwaitingStickerNameForRename);
    text_outcome(String::from_str("Введите название стикера, который хотите переименовать"))
}

/// What the old-name step does: only the text name of an existing sticker
/// advances the flow; a missing name or a non-text message is refused and the
/// flow stays.
pub open spec fn rename_sticker_post(
    msg: MessageInfo,
    catalog_items: Seq<(Seq<char>, Seq<char>)>,
    before: Map<crate::states::DialogueStorageKey, State>,
    after: Map<crate::states::DialogueStorageKey, State>,
    r: Outcome,
) -> bool {
    &&& no_effects(r)
    &&& match msg.from_user {
        None => after == before && one_text(r.replies@, "Каналы не поддерживаются"@),
        Some(u) => {
            let key = (u, msg.chat_id);
            if !(before.contains_key(key) && before[key]
                matches State::AwaitingStickerNameForRename) {
                after == before && no_replies(r.replies@)
            } else {
                match msg.content {
                    MessageContent::Text(name) => {
                        if is_blank(name@) {
                            &&& after == before
                            &&& one_text(
                                r.replies@,
                                "Сообщение пустое, либо это не текстовое сообщение"@,
                            )
                        } else if !has_name(catalog_items, name@) {
                            &&& after == before
                            &&& one_text(
                                r.replies@,
                                "Стикер с именем "@ + name@
                                    + " не существует, попробуй другое"@,
                            )
                        } else {
                            &&& touches_only(before, after, key)
                            &&& after.contains_key(key)
                            &&& (after[key] matches State::AwaitingNewNameForRename { old_name }
                                && old_name@ == name@)
                            &&& one_text(r.replies@, "Введите новое название"@)
                        }
                    },
                    _ => after == before && one_text(
                        r.replies@,
                        "Сообщение пустое, либо это не текстовое сообщение"@,
                    ),
                }
            }
        },
    }
}

/// The old-name step of the rename flow.
pub fn rename_sticker(
    msg: &MessageInfo,
    dialogue: &mut UserDialogueStorage,
    catalog: &StickerStorage,
) -> (r: Outcome)
    requires
        catalog.wf(),
    ensures
        rename_sticker_post(
            *msg,
            catalog.view_items(),
            old(dialogue).view_map(),
            final(dialogue).view_map(),
            r,
        ),
{
    let key = match get_key(msg) {
        Some(k) => k,
        None => {
            return text_outcome(String::from_str("Каналы не поддерживаются"));
        },
    };
    match get_current_state(msg, dialogue) {
        Some(State::AwaitingStickerNameForRename) => {},
        _ => {
            return silent_outcome();
        },
    }
    let name = match &msg.content {
        MessageContent::Text(t) => t,
        _ => {
            return text_outcome(
                String::from_str("Сообщение пустое, либо это не текстовое сообщение"),
            );
        },
    };
    if crate::utils::str_is_blank(name.as_str()) {
        return text_outcome(
            String::from_str("Сообщение пустое, либо это не текстовое сообщение"),
        );
    }
    if !catalog.is_already_created(name.as_str()) {
        return text_outcome(
            compose3("Стикер с именем ", name.as_str(), " не существует, попробуй другое"),
        );
    }
    dialogue.update_dialogue(
        key,
        State::AwaitingNewNameForRename { old_name: String::from_str(name.as_str()) },
    );
    text_outcome(String::from_str("Введите новое название"))
}

/// What the new-name step does: a free text name hands the shell the decided
/// relabel to persist; a taken name, a vanished old name or a non-text
/// message ends the flow with the matching message.
pub open spec fn process_new_sticker_name_post(
    msg: MessageInfo,
    catalog_items: Seq<(Seq<char>, Seq<char>)>,
    before: Map<crate::states::DialogueStorageKey, State>,
    after: Map<crate::states::DialogueStorageKey, State>,
    r: Outcome,
) -> bool {
    match msg.from_user {
        None => after == before && one_text(r.replies@, "Каналы не поддерживаются"@)
            && no_effects(r),
        Some(u) => {
            let key = (u, msg.chat_id);
            if !(before.contains_key(key) && before[key] matches State::AwaitingNewNameForRename {
                ..
            }) {
                after == before && no_replies(r.replies@) && no_effects(r)
            } else {
                (before[key] matches State::AwaitingNewNameForRename { old_name }
                    ==> match msg.content {
                    MessageContent::Text(new_name) => {
                        if !has_name(catalog_items, old_name@) {
                            &&& after == before.remove(key)
                            &&& one_text(r.replies@, "Произошла неизвестная ошибка"@)
                            &&& no_effects(r)
                        } else if has_name(catalog_items, new_name@) {
                            &&& after == before.remove(key)
                            &&& one_text(
                                r.replies@,
                                "Стикер с именем "@ + new_name@
                                    + " уже существует, попробуй другое"@,
                            )
                            &&& no_effects(r)
                        } else {
                            &&& after == before
                            &&& no_replies(r.replies@)
                            &&& r.generate is None
                            &&& (r.pending matches Some(p) && {
                                &&& p.key == key
                                &&& p.update.view_items() == catalog_items.update(
                                    index_of(catalog_items, old_name@),
                                    (
                                        new_name@,
                                        catalog_items[index_of(catalog_items, old_name@)].1,
                                    ),
                                )
                                &&& p.success_text@ == "Новое имя '"@ + new_name@
                                    + "' сохранено! 🎉"@
                                &&& p.failure_text@ == "Произошла неизвестная ошибка"@
                            })
                        }
                    },
                    _ => after == before && one_text(
                        r.replies@,
                        "Сообщение пустое, пожалуйста укажите название"@,
                    ) && no_effects(r),
                })
            }
        },
    }
}

/// The new-name step of the rename flow. A conflict with an existing name
/// clears the flow, so the user restarts with the rename command, as the
/// delete and add flows do on their terminal refusals.
pub fn process_new_sticker_name(
    msg: &MessageInfo,
    dialogue: &mut UserDialogueStorage,
    catalog: &StickerStorage,
) -> (r: Outcome)
    requires
        catalog.wf(),
    ensures
        process_new_sticker_name_post(
            *msg,
            catalog.view_items(),
            old(dialogue).view_map(),
            final(dialogue).view_map(),
            r,
        ),
{
    let key = match get_key(msg) {
        Some(k) => k,
        None => {
            return text_outcome(String::from_str("Каналы не поддерживаются"));
        },
    };
    let old_name = match get_current_state(msg, dialogue) {
        Some(State::AwaitingNewNameForRename { old_name }) => old_name,
        _ => {
            return silent_outcome();
        },
    };
    let new_name = match &msg.content {
        MessageContent::Text(t) => t,
        _ => {
            return text_outcome(
                String::from_str("Сообщение пустое, пожалуйста укажите название"),
            );
        },
    };
    match catalog.rename_sticker(old_name.as_str(), new_name.as_str()) {
        Ok(update) => {
            let pending = PendingPersist {
                update,
                key,
                success_text: compose3("Новое имя '", new_name.as_str(), "' сохранено! 🎉"),
                failure_text: String::from_str("Произошла неизвестная ошибка"),
            };
            Outcome { replies: Vec::new(), pending: Some(pending), generate: None }
        },
        Err(crate::errors::ApiError::StickerAlreadyExists) => {
            dialogue.remove_dialogue(key);
            text_outcome(
                compose3(
                    "Стикер с именем ",
                    new_name.as_str(),
                    " уже существует, попробуй другое",
                ),
            )
        },
        Err(_) => {
            dialogue.remove_dialogue(key);
            text_outcome(String::from_str("Произошла неизвестная ошибка"))
        },
    }
}

} // verus!
