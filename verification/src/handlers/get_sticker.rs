//! The `/get` command: send the sticker of a given name.

use vstd::prelude::*;
use crate::handlers::{no_effects, one_text, text_outcome, Outcome, Reply};
use crate::repo::sticker_storage::storage::{spec_get, StickerStorage};
use crate::utils::{is_blank, str_is_blank};

verus! {

/// What `/get` does: a blank name is refused, a known name sends its sticker,
/// an unknown one is reported.
pub open spec fn get_sticker_post(
    name: Seq<char>,
    catalog_items: Seq<(Seq<char>, Seq<char>)>,
    r: Outcome,
) -> bool {
    &&& no_effects(r)
    &&& if is_blank(name) {
        one_text(r.replies@, "Укажите имя стикера"@)
    } else {
        match spec_get(catalog_items, name) {
            Some(file_id) => r.replies@.len() == 1 && (r.replies@[0] matches Reply::StickerFile(f)
                && f@ == file_id),
            None => one_text(r.replies@, "Стикера с таким названием нет"@),
        }
    }
}

/// Sends the sticker filed under the name, or says that none is.
pub fn get_sticker(sticker_name: &String, catalog: &StickerStorage) -> (r: Outcome)
    requires
        catalog.wf(),
    ensures
        get_sticker_post(sticker_name@, catalog.view_items(), r),
{
    if str_is_blank(sticker_name.as_str()) {
        return text_outcome(String::from_str("Укажите имя стикера"));
    }
    match catalog.get_sticker(sticker_name.as_str()) {
        Some(entry) => {
            let mut replies: Vec<Reply> = Vec::new();
            replies.push(Reply::StickerFile(entry.file_id));
            Outcome { replies, pending: None, generate: None }
        },
        None => text_outcome(String::from_str("Стикера с таким названием нет")),
    }
}

} // verus!
