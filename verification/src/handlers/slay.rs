//! The command menu: `/slay` shows the commands as a button grid owned by its
//! sender, and a button press dispatches the chosen command against the
//! stored original message — for the owner alone.

use vstd::prelude::*;
use crate::commands::{
    descriptions, menu_commands, parse_command, spec_descriptions, spec_menu_labels, Command,
    CommandView, spec_parse_command,
};
use crate::common::{msg_eqv, MessageInfo};
use crate::handlers::add_sticker::{trigger_add, trigger_add_post};
use crate::handlers::delete_sticker::{trigger_delete, trigger_delete_post};
use crate::handlers::friday::{friday, friday_post};
use crate::handlers::list_stickers::{
    contains_name_str, list_stickers, list_stickers_post, sorted_sticker_names,
};
use crate::handlers::rename_sticker::{trigger_rename, trigger_rename_post};
use crate::handlers::utils::get_key;
use crate::handlers::{
    compose2, no_effects, no_replies, one_text, silent_outcome, text_outcome, touches_only,
    CallbackInfo, Outcome, Reply,
};
use crate::repo::dialogue_storage::UserDialogueStorage;
use crate::repo::sticker_storage::storage::StickerStorage;
use crate::states::{DialogueStorageKey, State};
use crate::utils::{lemma_lex_le_prefix, sorted_by_name, MoscowNow};

verus! {

/// The rows of a button grid, flattened back to one list.
pub open spec fn rows_flat(rows: Seq<Vec<String>>) -> Seq<String>
    decreases rows.len(),
{
    if rows.len() == 0 {
        Seq::empty()
    } else {
        rows_flat(rows.drop_last()) + rows.last()@
    }
}

/// Lays the labels out as a grid: full rows of `per_row` buttons, the last
/// row holding the remainder; no grid at all for no labels.
pub fn setup_inline_callback_keyboard(labels: &Vec<String>, per_row: usize) -> (r: Option<
    Vec<Vec<String>>,
>)
    requires
        per_row >= 1,
    ensures
        match r {
            None => labels@.len() == 0,
            Some(rows) => {
                &&& labels@.len() > 0
                &&& rows@.len() > 0
                &&& rows_flat(rows@).len() == labels@.len()
                &&& (forall|k: int|
                    0 <= k < labels@.len() ==> (#[trigger] rows_flat(rows@)[k])@ == labels@[k]@)
                &&& (forall|a: int|
                    0 <= a < rows@.len() ==> 1 <= (#[trigger] rows@[a])@.len() <= per_row)
                &&& (forall|a: int|
                    0 <= a < rows@.len() - 1 ==> (#[trigger] rows@[a])@.len() == per_row)
            },
        },
{
    let n = labels.len();
    if n == 0 {
        return None;
    }
    let mut rows: Vec<Vec<String>> = Vec::new();
    let mut cur: Vec<String> = Vec::new();
    let mut i: usize = 0;
    assert(rows_flat(rows@) =~= Seq::<String>::empty());
    while i < n
        invariant
            i <= n,
            n == labels@.len(),
            per_row >= 1,
            cur@.len() < per_row,
            rows_flat(rows@).len() + cur@.len() == i,
            forall|k: int|
                0 <= k < rows_flat(rows@).len() ==> (#[trigger] rows_flat(rows@)[k])@
                    == labels@[k]@,
            forall|k: int|
                0 <= k < cur@.len() ==> (#[trigger] cur@[k])@ == labels@[rows_flat(
                    rows@,
                ).len() + k]@,
            forall|a: int| 0 <= a < rows@.len() ==> (#[trigger] rows@[a])@.len() == per_row,
        decreases n - i,
    {
        cur.push(String::from_str(labels[i].as_str()));
        i = i + 1;
        if cur.len() == per_row {
            let ghost old_rows = rows@;
            let ghost old_cur = cur@;
            rows.push(cur);
            cur = Vec::new();
            proof {
                assert(rows@.drop_last() =~= old_rows);
                assert(rows_flat(rows@) =~= rows_flat(old_rows) + old_cur);
            }
        }
    }
    if cur.len() > 0 {
        let ghost old_rows = rows@;
        let ghost old_cur = cur@;
        rows.push(cur);
        proof {
            assert(rows@.drop_last() =~= old_rows);
            assert(rows_flat(rows@) =~= rows_flat(old_rows) + old_cur);
        }
    }
    Some(rows)
}

/// The menu grid holds exactly the menu's command labels, four to a row.
pub open spec fn menu_rows_ok(rows: Seq<Vec<String>>) -> bool {
    &&& rows.len() > 0
    &&& rows_flat(rows).len() == spec_menu_labels().len()
    &&& (forall|k: int|
        0 <= k < spec_menu_labels().len() ==> (#[trigger] rows_flat(rows)[k])@
            == spec_menu_labels()[k])
    &&& (forall|a: int| 0 <= a < rows.len() ==> 1 <= (#[trigger] rows[a])@.len() <= 4)
    &&& (forall|a: int| 0 <= a < rows.len() - 1 ==> (#[trigger] rows[a])@.len() == 4)
}

/// What `/slay` does: it opens the command menu and records its owner and the
/// originating message.
pub open spec fn slay_post(
    msg: MessageInfo,
    before: Map<DialogueStorageKey, State>,
    after: Map<DialogueStorageKey, State>,
    r: Outcome,
) -> bool {
    &&& no_effects(r)
    &&& match msg.from_user {
        None => after == before && one_text(r.replies@, "Каналы не поддерживаются"@),
        Some(u) => {
            let key = (u, msg.chat_id);
            &&& touches_only(before, after, key)
            &&& after.contains_key(key)
            &&& (after[key] matches State::ShowingCommandMenu { owner_user_id, original_message }
                && owner_user_id == u && msg_eqv(original_message, msg))
            &&& r.replies@.len() == 1
            &&& (r.replies@[0] matches Reply::Menu { text, rows } && text@
                == "Выберите команду"@ && menu_rows_ok(rows@))
        },
    }
}

/// Opens the command menu for this sender.
pub fn slay(msg: &MessageInfo, dialogue: &mut UserDialogueStorage) -> (r: Outcome)
    ensures
        slay_post(*msg, old(dialogue).view_map(), final(dialogue).view_map(), r),
{
    let key = match get_key(msg) {
        Some(k) => k,
        None => {
            return text_outcome(String::from_str("Каналы не поддерживаются"));
        },
    };
    let labels = menu_commands();
    let rows = match setup_inline_callback_keyboard(&labels, 4) {
        Some(rows) => rows,
        None => {
            proof {
                assert(false);
            }
            return silent_outcome();
        },
    };
    dialogue.update_dialogue(
        key,
        State::ShowingCommandMenu { owner_user_id: key.0, original_message: msg.duplicate() },
    );
    let mut replies: Vec<Reply> = Vec::new();
    replies.push(Reply::Menu { text: String::from_str("Выберите команду"), rows });
    Outcome { replies, pending: None, generate: None }
}

/// Whether this option is the one-tap fetch of some catalog name.
pub open spec fn option_is_get_of(
    options: Seq<String>,
    i: int,
    items: Seq<(Seq<char>, Seq<char>)>,
) -> bool {
    exists|j: int| 0 <= j < items.len() && options[i]@ == "/get "@ + (#[trigger] items[j]).0
}

/// Whether some option is the one-tap fetch of this name.
pub open spec fn has_get_option(options: Seq<String>, name: Seq<char>) -> bool {
    exists|i: int| 0 <= i < options.len() && (#[trigger] options[i])@ == "/get "@ + name
}

/// What the menu's sticker button does: the catalog's names, each as a
/// one-tap `/get` suggestion, in ascending order.
pub open spec fn sticker_menu_post(catalog_items: Seq<(Seq<char>, Seq<char>)>, r: Outcome) -> bool {
    &&& no_effects(r)
    &&& if catalog_items.len() == 0 {
        one_text(r.replies@, "No stickers available"@)
    } else {
        r.replies@.len() == 1 && (r.replies@[0] matches Reply::Suggestions { text, options } && {
            &&& text@ == "Выберите опцию"@
            &&& options@.len() == catalog_items.len()
            &&& sorted_by_name(options@)
            &&& (forall|i: int|
                0 <= i < options@.len() ==> #[trigger] option_is_get_of(
                    options@,
                    i,
                    catalog_items,
                ))
            &&& (forall|j: int|
                0 <= j < catalog_items.len() ==> has_get_option(
                    options@,
                    (#[trigger] catalog_items[j]).0,
                ))
        })
    }
}

/// Offers every sticker as a one-tap fetch.
pub fn sticker_menu(catalog: &StickerStorage) -> (r: Outcome)
    requires
        catalog.wf(),
    ensures
        sticker_menu_post(catalog.view_items(), r),
{
    let ghost items = catalog.view_items();
    let names = match sorted_sticker_names(catalog) {
        None => {
            return text_outcome(String::from_str("No stickers available"));
        },
        Some(ns) => ns,
    };
    let mut options: Vec<String> = Vec::new();
    let mut i: usize = 0;
    while i < names.len()
        invariant
            i <= names@.len(),
            options@.len() == i,
            forall|k: int|
                0 <= k < i ==> (#[trigger] options@[k])@ == "/get "@ + names@[k]@,
        decreases names@.len() - i,
    {
        options.push(compose2("/get ", names[i].as_str()));
        i = i + 1;
    }
    proof {
        assert forall|a: int, b: int| 0 <= a < b < options@.len() implies crate::utils::lex_le(
            (#[trigger] options@[a])@,
            (#[trigger] options@[b])@,
        ) by {
            lemma_lex_le_prefix("/get "@, names@[a]@, names@[b]@);
        }
        assert forall|a: int| 0 <= a < options@.len() implies #[trigger] option_is_get_of(
            options@,
            a,
            items,
        ) by {
            let n = names@[a]@;
            assert(crate::repo::sticker_storage::storage::has_name(items, n));
            let j = choose|j: int| 0 <= j < items.len() && (#[trigger] items[j]).0 == n;
            assert(options@[a]@ == "/get "@ + items[j].0);
        }
        assert forall|j: int| 0 <= j < items.len() implies has_get_option(
            options@,
            (#[trigger] items[j]).0,
        ) by {
            assert(contains_name_str(names@, items[j].0));
            let a = choose|a: int|
                0 <= a < names@.len() && (#[trigger] names@[a])@ == items[j].0;
            assert(options@[a]@ == "/get "@ + items[j].0);
        }
    }
    let mut replies: Vec<Reply> = Vec::new();
    replies.push(
        Reply::Suggestions { text: String::from_str("Выберите опцию"), options },
    );
    Outcome { replies, pending: None, generate: None }
}

/// What a button press does: nothing at all unless it comes from the owner of
/// an open menu in that chat; the owner's choice closes the menu and runs the
/// chosen command against the stored original message.
pub open spec fn callback_post(
    cb: CallbackInfo,
    catalog_items: Seq<(Seq<char>, Seq<char>)>,
    now: MoscowNow,
    before: Map<DialogueStorageKey, State>,
    after: Map<DialogueStorageKey, State>,
    r: Outcome,
) -> bool {
    match cb.chat_id {
        None => after == before && no_replies(r.replies@) && no_effects(r),
        Some(chat) => {
            let key = (cb.from_user, chat);
            if !(before.contains_key(key) && before[key] matches State::ShowingCommandMenu {
                ..
            }) {
                after == before && no_replies(r.replies@) && no_effects(r)
            } else {
                (before[key] matches State::ShowingCommandMenu { owner_user_id, original_message }
                    ==> if owner_user_id != cb.from_user {
                    after == before && no_replies(r.replies@) && no_effects(r)
                } else {
                    match cb.data {
                        None => after == before && no_replies(r.replies@) && no_effects(r),
                        Some(data) => {
                            let mid = before.remove(key);
                            match spec_parse_command(data@) {
                                Some(CommandView::Help) => after == mid && no_effects(r)
                                    && one_text(r.replies@, spec_descriptions()),
                                Some(CommandView::Friday) => after == mid && friday_post(now, r),
                                Some(CommandView::ListStickers) => after == mid
                                    && list_stickers_post(catalog_items, r),
                                Some(CommandView::Sticker(_)) => after == mid && sticker_menu_post(
                                    catalog_items,
                                    r,
                                ),
                                Some(CommandView::Cancel) => after == mid && no_replies(r.replies@)
                                    && no_effects(r),
                                Some(CommandView::AddSticker(name)) => trigger_add_post(
                                    original_message,
                                    name,
                                    catalog_items,
                                    mid,
                                    after,
                                    r,
                                ),
                                Some(CommandView::RenameSticker) => trigger_rename_post(
                                    original_message,
                                    mid,
                                    after,
                                    r,
                                ),
                                Some(CommandView::DeleteSticker) => trigger_delete_post(
                                    original_message,
                                    None,
                                    mid,
                                    after,
                                    r,
                                ),
                                _ => after == mid && no_effects(r) && one_text(
                                    r.replies@,
                                    "Команда пока не поддерживается"@,
                                ),
                            }
                        },
                    }
                })
            }
        },
    }
}

/// Resolves a button press against the open menu.
pub fn inline_choice_callback(
    cb: &CallbackInfo,
    now: &MoscowNow,
    dialogue: &mut UserDialogueStorage,
    catalog: &StickerStorage,
) -> (r: Outcome)
    requires
        catalog.wf(),
        now.wf(),
    ensures
        callback_post(
            *cb,
            catalog.view_items(),
            *now,
            old(dialogue).view_map(),
            final(dialogue).view_map(),
            r,
        ),
{
    let chat = match cb.chat_id {
        Some(c) => c,
        None => {
            return silent_outcome();
        },
    };
    let key = (cb.from_user, chat);
    let (owner, original_message) = match dialogue.get_dialogue(key) {
        Some(State::ShowingCommandMenu { owner_user_id, original_message }) => (
            owner_user_id,
            original_message,
        ),
        _ => {
            return silent_outcome();
        },
    };
    if owner != cb.from_user {
        return silent_outcome();
    }
    let data = match &cb.data {
        Some(d) => d,
        None => {
            return silent_outcome();
        },
    };
    dialogue.remove_dialogue(key);
    match parse_command(data.as_str()) {
        Some(Command::Help) => text_outcome(descriptions()),
        Some(Command::Friday) => friday(now),
        Some(Command::ListStickers) => list_stickers(catalog),
        Some(Command::Sticker(_)) => sticker_menu(catalog),
        Some(Command::Cancel) => silent_outcome(),
        Some(Command::AddSticker(name)) => trigger_add(&original_message, &name, dialogue, catalog),
        Some(Command::RenameSticker) => trigger_rename(&original_message, dialogue),
        Some(Command::DeleteSticker) => trigger_delete(&original_message, None, dialogue),
        _ => text_outcome(String::from_str("Команда пока не поддерживается")),
    }
}

} // verus!
