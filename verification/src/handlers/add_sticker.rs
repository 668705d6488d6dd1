//! The add-sticker flow: trigger, name step, media step.

use vstd::prelude::*;
use crate::common::{MessageContent, MessageInfo};
use crate::handlers::utils::{get_current_state, get_key};
use crate::handlers::{
    compose3, no_effects, no_replies, one_text, silent_outcome, spec_msg_key, text_outcome,
    touches_only, Outcome, PendingPersist,
};
use crate::repo::dialogue_storage::UserDialogueStorage;
use crate::repo::sticker_storage::dto::StickerEntry;
use crate::repo::sticker_storage::storage::{has_name, StickerStorage};
use crate::states::State;
use crate::utils::{is_blank, str_is_blank};

verus! {

/// What `/add` does: without a name it asks for one, with a fresh name it
/// asks for the sticker, and a taken name is refused on the spot.
pub open spec fn trigger_add_post(
    msg: MessageInfo,
    name: Seq<char>,
    catalog_items: Seq<(Seq<char>, Seq<char>)>,
    before: Map<crate::states::DialogueStorageKey, State>,
    after: Map<crate::states::DialogueStorageKey, State>,
    r: Outcome,
) -> bool {
    &&& no_effects(r)
    &&& match msg.from_user {
        None => after == before && one_text(r.replies@, "Каналы не поддерживаются"@),
        Some(u) => {
            let key = (u, msg.chat_id);
            if is_blank(name) {
                &&& after == before.insert(key, State::AwaitingStickerNameForAdd)
                &&& one_text(r.replies@, "Введите название стикера"@)
            } else if has_name(catalog_items, name) {
                &&& after == before
                &&& one_text(
                    r.replies@,
                    "Стикер с именем "@ + name + " уже существует, попробуй другое"@,
                )
            } else {
                &&& touches_only(before, after, key)
                &&& after.contains_key(key)
                &&& (after[key] matches State::AwaitingStickerMediaForAdd { sticker_name }
                    && sticker_name@ == name)
                &&& one_text(r.replies@, "Отправь мне стикер для '"@ + name + "'"@)
            }
        },
    }
}

/// Starts the add flow for this sender.
pub fn trigger_add(
    msg: &MessageInfo,
    name: &String,
    dialogue: &mut UserDialogueStorage,
    catalog: &StickerStorage,
) -> (r: Outcome)
    requires
        catalog.wf(),
    ensures
        trigger_add_post(
            *msg,
            name@,
            catalog.view_items(),
            old(dialogue).view_map(),
            final(dialogue).view_map(),
            r,
        ),
{
    let key = match get_key(msg) {
        Some(k) => k,
        None => {
            return text_outcome(String::from_str("Каналы не поддерживаются"));
        },
    };
    if str_is_blank(name.as_str()) {
        dialogue.update_dialogue(key, State::AwaitingStickerNameForAdd);
        text_outcome(String::from_str("Введите название стикера"))
    } else if catalog.is_already_created(name.as_str()) {
        text_outcome(
            compose3("Стикер с именем ", name.as_str(), " уже существует, попробуй другое"),
        )
    } else {
        dialogue.update_dialogue(
            key,
            State::AwaitingStickerMediaForAdd { sticker_name: String::from_str(name.as_str()) },
        );
        text_outcome(compose3("Отправь мне стикер для '", name.as_str(), "'"))
    }
}

/// What the name step does: only a non-blank, untaken text name advances the
/// flow to the media step; everything else is refused and the flow stays.
pub open spec fn process_new_name_post(
    msg: MessageInfo,
    catalog_items: Seq<(Seq<char>, Seq<char>)>,
    before: Map<crate::states::DialogueStorageKey, State>,
    after: Map<crate::states::DialogueStorageKey, State>,
    r: Outcome,
) -> bool {
    &&& no_effects(r)
    &&& match msg.from_user {
        None => after == before && one_text(r.replies@, "Каналы не поддерживаются"@),
        Some(u) => {
            let key = (u, msg.chat_id);
            if !(before.contains_key(key) && before[key] matches State::AwaitingStickerNameForAdd) {
                after == before && no_replies(r.replies@)
            } else {
                match msg.content {
                    MessageContent::Text(name) => {
                        if is_blank(name@) {
                            &&& after == before
                            &&& one_text(
                                r.replies@,
                                "Сообщение пустое, либо это не текстовое сообщение"@,
                            )
                        } else if has_name(catalog_items, name@) {
                            &&& after == before
                            &&& one_text(
                                r.replies@,
                                "Стикер с именем "@ + name@
                                    + " уже существует, попробуй другое"@,
                            )
                        } else {
                            &&& touches_only(before, after, key)
                            &&& after.contains_key(key)
                            &&& (after[key] matches State::AwaitingStickerMediaForAdd {
                                sticker_name,
                            } && sticker_name@ == name@)
                            &&& one_text(r.replies@, "Отправьте стикер"@)
                        }
                    },
                    _ => after == before && one_text(
                        r.replies@,
                        "Сообщение пустое, либо это не текстовое сообщение"@,
                    ),
                }
            }
        },
    }
}

/// The name step of the add flow.
pub fn process_new_name(
    msg: &MessageInfo,
    dialogue: &mut UserDialogueStorage,
    catalog: &StickerStorage,
) -> (r: Outcome)
    requires
        catalog.wf(),
    ensures
        process_new_name_post(
            *msg,
            catalog.view_items(),
            old(dialogue).view_map(),
            final(dialogue).view_map(),
            r,
        ),
{
    let key = match get_key(msg) {
        Some(k) => k,
        None => {
            return text_outcome(String::from_str("Каналы не поддерживаются"));
        },
    };
    match get_current_state(msg, dialogue) {
        Some(State::AwaitingStickerNameForAdd) => {},
        _ => {
            return silent_outcome();
        },
    }
    let name = match &msg.content {
        MessageContent::Text(t) => t,
        _ => {
            return text_outcome(
                String::from_str("Сообщение пустое, либо это не текстовое сообщение"),
            );
        },
    };
    if str_is_blank(name.as_str()) {
        return text_outcome(
            String::from_str("Сообщение пустое, либо это не текстовое сообщение"),
        );
    }
    if catalog.is_already_created(name.as_str()) {
        return text_outcome(
            compose3("Стикер с именем ", name.as_str(), " уже существует, попробуй другое"),
        );
    }
    dialogue.update_dialogue(
        key,
        State::AwaitingStickerMediaForAdd { sticker_name: String::from_str(name.as_str()) },
    );
    text_outcome(String::from_str("Отправьте стикер"))
}

/// What the media step does: a sticker with a still-free name hands the shell
/// the decided insertion to persist; a name taken meanwhile ends the flow; a
/// non-sticker is refused and the flow stays.
pub open spec fn receive_sticker_post(
    msg: MessageInfo,
    catalog_items: Seq<(Seq<char>, Seq<char>)>,
    before: Map<crate::states::DialogueStorageKey, State>,
    after: Map<crate::states::DialogueStorageKey, State>,
    r: Outcome,
) -> bool {
    match msg.from_user {
        None => after == before && one_text(r.replies@, "Каналы не поддерживаются"@)
            && no_effects(r),
        Some(u) => {
            let key = (u, msg.chat_id);
            if !(before.contains_key(key) && before[key] matches State::AwaitingStickerMediaForAdd {
                ..
            }) {
                after == before && no_replies(r.replies@) && no_effects(r)
            } else {
                (before[key] matches State::AwaitingStickerMediaForAdd { sticker_name }
                    ==> match msg.content {
                    MessageContent::Sticker(file_id) => {
                        if has_name(catalog_items, sticker_name@) {
                            &&& after == before.remove(key)
                            &&& one_text(
                                r.replies@,
                                "Стикер '"@ + sticker_name@
                                    + "' уже существует. Попробуйте другое имя"@,
                            )
                            &&& no_effects(r)
                        } else {
                            &&& after == before
                            &&& no_replies(r.replies@)
                            &&& r.generate is None
                            &&& (r.pending matches Some(p) && {
                                &&& p.key == key
                                &&& p.update.view_items() == catalog_items.push(
                                    (sticker_name@, file_id@),
                                )
                                &&& p.success_text@ == "Стикер '"@ + sticker_name@
                                    + "' сохранен! 🎉"@
                                &&& p.failure_text@
                                    == "Произошла ошибка сохранения стикера"@
                            })
                        }
                    },
                    _ => after == before && one_text(
                        r.replies@,
                        "Это не стикер. Отправьте стикер или /cancel."@,
                    ) && no_effects(r),
                })
            }
        },
    }
}

/// The media step of the add flow.
pub fn receive_sticker(
    msg: &MessageInfo,
    dialogue: &mut UserDialogueStorage,
    catalog: &StickerStorage,
) -> (r: Outcome)
    requires
        catalog.wf(),
    ensures
        receive_sticker_post(
            *msg,
            catalog.view_items(),
            old(dialogue).view_map(),
            final(dialogue).view_map(),
            r,
        ),
{
    let key = match get_key(msg) {
        Some(k) => k,
        None => {
            return text_outcome(String::from_str("Каналы не поддерживаются"));
        },
    };
    let sticker_name = match get_current_state(msg, dialogue) {
        Some(State::AwaitingStickerMediaForAdd { sticker_name }) => sticker_name,
        _ => {
            return silent_outcome();
        },
    };
    let file_id = match &msg.content {
        MessageContent::Sticker(f) => f,
        _ => {
            return text_outcome(
                String::from_str("Это не стикер. Отправьте стикер или /cancel."),
            );
        },
    };
    let entry = StickerEntry::new(
        String::from_str(sticker_name.as_str()),
        String::from_str(file_id.as_str()),
    );
    match catalog.add_sticker(&entry) {
        Ok(update) => {
            let pending = PendingPersist {
                update,
                key,
                success_text: compose3("Стикер '", sticker_name.as_str(), "' сохранен! 🎉"),
                failure_text: String::from_str("Произошла ошибка сохранения стикера"),
            };
            Outcome { replies: Vec::new(), pending: Some(pending), generate: None }
        },
        Err(_) => {
            dialogue.remove_dialogue(key);
            text_outcome(
                compose3(
                    "Стикер '",
                    sticker_name.as_str(),
                    "' уже существует. Попробуйте другое имя",
                ),
            )
        },
    }
}

} // verus!
