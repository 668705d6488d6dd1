//! The command dispatcher: one entry point per inbound command, each branch
//! proved against the handler it runs. Whatever the command, no conversation
//! key but the sender's own is ever touched.

use vstd::prelude::*;
use crate::commands::{descriptions, spec_descriptions, Command};
use crate::common::MessageInfo;
use crate::generation_controller::GenerationController;
use crate::handlers::add_sticker::{trigger_add, trigger_add_post};
use crate::handlers::delete_sticker::{trigger_delete, trigger_delete_post};
use crate::handlers::friday::{friday, friday_post};
use crate::handlers::get_sticker::{get_sticker, get_sticker_post};
use crate::handlers::list_stickers::{list_stickers, list_stickers_post};
use crate::handlers::model_info::{model_info, model_info_post};
use crate::handlers::rename_sticker::{trigger_rename, trigger_rename_post};
use crate::handlers::slay::{slay, slay_post};
use crate::handlers::utils::get_key;
use crate::handlers::{
    no_effects, no_replies, one_text, silent_outcome, spec_msg_key, text_outcome, touches_only,
    Outcome,
};
use crate::repo::dialogue_storage::UserDialogueStorage;
use crate::repo::sticker_storage::storage::StickerStorage;
use crate::states::{DialogueStorageKey, State};
use crate::utils::MoscowNow;

verus! {

/// What `/help` does: the command list.
pub fn help() -> (r: Outcome)
    ensures
        no_effects(r) && one_text(r.replies@, spec_descriptions()),
{
    text_outcome(descriptions())
}

/// What `/cancel` does: an active flow is cleared and confirmed; with no flow
/// open, nothing happens.
pub open spec fn cancel_post(
    msg: MessageInfo,
    before: Map<DialogueStorageKey, State>,
    after: Map<DialogueStorageKey, State>,
    r: Outcome,
) -> bool {
    &&& no_effects(r)
    &&& match msg.from_user {
        None => after == before && one_text(r.replies@, "Каналы не поддерживаются"@),
        Some(u) => {
            let key = (u, msg.chat_id);
            if before.contains_key(key) {
                after == before.remove(key) && one_text(r.replies@, "Операция отменена."@)
            } else {
                after == before && no_replies(r.replies@)
            }
        },
    }
}

/// Cancels whatever flow the sender has open in this chat.
pub fn cancel(msg: &MessageInfo, dialogue: &mut UserDialogueStorage) -> (r: Outcome)
    ensures
        cancel_post(*msg, old(dialogue).view_map(), final(dialogue).view_map(), r),
{
    let key = match get_key(msg) {
        Some(k) => k,
        None => {
            return text_outcome(String::from_str("Каналы не поддерживаются"));
        },
    };
    match dialogue.get_dialogue(key) {
        Some(_) => {
            dialogue.remove_dialogue(key);
            text_outcome(String::from_str("Операция отменена."))
        },
        None => silent_outcome(),
    }
}

/// Runs one command. Whatever it is, every conversation key but the sender's
/// own keeps exactly the state it had.
pub fn handle_command(
    cmd: &Command,
    msg: &MessageInfo,
    now: &MoscowNow,
    dialogue: &mut UserDialogueStorage,
    catalog: &StickerStorage,
    generator: &GenerationController,
) -> (r: Outcome)
    requires
        catalog.wf(),
        now.wf(),
    ensures
        touches_only(old(dialogue).view_map(), final(dialogue).view_map(), spec_msg_key(*msg)),
        match *cmd {
            Command::Help => final(dialogue).view_map() == old(dialogue).view_map() && no_effects(
                r,
            ) && one_text(r.replies@, spec_descriptions()),
            Command::Friday => final(dialogue).view_map() == old(dialogue).view_map()
                && friday_post(*now, r),
            Command::Model => final(dialogue).view_map() == old(dialogue).view_map()
                && model_info_post(*msg, generator.history(), r),
            Command::Sticker(ref name) => final(dialogue).view_map() == old(dialogue).view_map()
                && get_sticker_post(name@, catalog.view_items(), r),
            Command::ListStickers => final(dialogue).view_map() == old(dialogue).view_map()
                && list_stickers_post(catalog.view_items(), r),
            Command::AddSticker(ref name) => trigger_add_post(
                *msg,
                name@,
                catalog.view_items(),
                old(dialogue).view_map(),
                final(dialogue).view_map(),
                r,
            ),
            Command::RenameSticker => trigger_rename_post(
                *msg,
                old(dialogue).view_map(),
                final(dialogue).view_map(),
                r,
            ),
            Command::DeleteSticker => trigger_delete_post(
                *msg,
                None,
                old(dialogue).view_map(),
                final(dialogue).view_map(),
                r,
            ),
            Command::Cancel => cancel_post(
                *msg,
                old(dialogue).view_map(),
                final(dialogue).view_map(),
                r,
            ),
            Command::Slay => slay_post(
                *msg,
                old(dialogue).view_map(),
                final(dialogue).view_map(),
                r,
            ),
        },
{
    match cmd {
        Command::Help => help(),
        Command::Friday => friday(now),
        Command::Model => model_info(msg, generator),
        Command::Sticker(name) => get_sticker(name, catalog),
        Command::ListStickers => list_stickers(catalog),
        Command::AddSticker(name) => trigger_add(msg, name, dialogue, catalog),
        Command::RenameSticker => trigger_rename(msg, dialogue),
        Command::DeleteSticker => trigger_delete(msg, None, dialogue),
        Command::Cancel => cancel(msg, dialogue),
        Command::Slay => slay(msg, dialogue),
    }
}

} // verus!
