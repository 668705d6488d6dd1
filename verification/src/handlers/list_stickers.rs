//! The `/list` command: all sticker names, sorted, as one-tap suggestions.

use vstd::prelude::*;
use crate::handlers::{no_effects, one_text, text_outcome, Outcome, Reply};
use crate::repo::sticker_storage::storage::{has_name, StickerStorage};
use crate::utils::{sort_names, sorted_by_name};

verus! {

/// Whether one of the options carries exactly this name.
pub open spec fn contains_name_str(options: Seq<String>, name: Seq<char>) -> bool {
    exists|i: int| 0 <= i < options.len() && (#[trigger] options[i])@ == name
}

/// What `/list` does: an empty catalog is reported; otherwise the suggestions
/// hold exactly the catalog's names, in ascending order.
pub open spec fn list_stickers_post(
    catalog_items: Seq<(Seq<char>, Seq<char>)>,
    r: Outcome,
) -> bool {
    &&& no_effects(r)
    &&& if catalog_items.len() == 0 {
        one_text(r.replies@, "Список стикеров пуст"@)
    } else {
        r.replies@.len() == 1 && (r.replies@[0] matches Reply::Suggestions { text, options } && {
            &&& text@ == "Доступные стикеры:"@
            &&& options@.len() == catalog_items.len()
            &&& sorted_by_name(options@)
            &&& (forall|i: int|
                0 <= i < options@.len() ==> has_name(catalog_items, (#[trigger] options@[i])@))
            &&& (forall|j: int|
                0 <= j < catalog_items.len() ==> contains_name_str(
                    options@,
                    (#[trigger] catalog_items[j]).0,
                ))
        })
    }
}

/// The catalog's names in ascending order, or `None` when it is empty.
pub fn sorted_sticker_names(catalog: &StickerStorage) -> (r: Option<Vec<String>>)
    requires
        catalog.wf(),
    ensures
        match r {
            None => catalog.view_items().len() == 0,
            Some(names) => {
                &&& names@.len() == catalog.view_items().len()
                &&& names@.len() > 0
                &&& sorted_by_name(names@)
                &&& (forall|i: int|
                    0 <= i < names@.len() ==> has_name(
                        catalog.view_items(),
                        (#[trigger] names@[i])@,
                    ))
                &&& (forall|j: int|
                    0 <= j < catalog.view_items().len() ==> contains_name_str(
                        names@,
                        (#[trigger] catalog.view_items()[j]).0,
                    ))
            },
        },
{
    broadcast use vstd::seq_lib::group_to_multiset_ensures;

    let ghost items = catalog.view_items();
    let entries = match catalog.list_stickers() {
        None => {
            return None;
        },
        Some(es) => es,
    };
    let mut names: Vec<String> = Vec::new();
    let mut i: usize = 0;
    while i < entries.len()
        invariant
            i <= entries@.len(),
            names@.len() == i,
            crate::repo::sticker_storage::codec::catalog_view(entries@) == items,
            items.len() == entries@.len(),
            forall|j: int| 0 <= j < i ==> (#[trigger] names@[j])@ == items[j].0,
        decreases entries@.len() - i,
    {
        proof {
            assert(items[i as int] == entries@[i as int].view_pair());
        }
        names.push(String::from_str(entries[i].name.as_str()));
        i = i + 1;
    }
    let ghost before = names@;
    sort_names(&mut names);
    proof {
        let after = names@;
        assert(after.to_multiset().len() == after.len());
        assert(before.to_multiset().len() == before.len());
        assert(after.len() == before.len());
        assert forall|a: int| 0 <= a < after.len() implies has_name(
            items,
            (#[trigger] after[a])@,
        ) by {
            assert(after.contains(after[a]));
            assert(after.to_multiset().count(after[a]) > 0);
            assert(before.to_multiset().count(after[a]) > 0);
            assert(before.contains(after[a]));
            let j = choose|j: int| 0 <= j < before.len() && before[j] == after[a];
            assert(items[j].0 == after[a]@);
        }
        assert forall|j: int| 0 <= j < items.len() implies contains_name_str(
            names@,
            (#[trigger] items[j]).0,
        ) by {
            assert(before.contains(before[j]));
            assert(before.to_multiset().count(before[j]) > 0);
            assert(after.to_multiset().count(before[j]) > 0);
            assert(after.contains(before[j]));
            let a = choose|a: int| 0 <= a < after.len() && after[a] == before[j];
            assert(after[a]@ == items[j].0);
        }
    }
    Some(names)
}

/// Lists the catalog's names, sorted, as reply suggestions.
pub fn list_stickers(catalog: &StickerStorage) -> (r: Outcome)
    requires
        catalog.wf(),
    ensures
        list_stickers_post(catalog.view_items(), r),
{
    let names = match sorted_sticker_names(catalog) {
        None => {
            return text_outcome(String::from_str("Список стикеров пуст"));
        },
        Some(ns) => ns,
    };
    let mut replies: Vec<Reply> = Vec::new();
    replies.push(
        Reply::Suggestions { text: String::from_str("Доступные стикеры:"), options: names },
    );
    Outcome { replies, pending: None, generate: None }
}

} // verus!
