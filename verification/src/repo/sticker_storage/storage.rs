//! The sticker catalog: an in-memory entry list that is the image of the
//! durable file. A mutation is decided here (`add_sticker`, `rename_sticker`,
//! `remove_sticker` return the prospective new list as a [`CatalogUpdate`]),
//! the shell writes the update's payload to the file, and only a successful
//! write is committed with [`StickerStorage::commit`] — so the cache never
//! runs ahead of the file, and a failed write rolls back by not committing.

use vstd::prelude::*;
use crate::errors::{ApiError, RepoError};
use crate::repo::sticker_storage::codec::{
    catalog_view, encode_catalog, parse_catalog, sp_catalog, spec_encode_catalog,
};
use crate::repo::sticker_storage::dto::StickerEntry;
use crate::utils::str_eq;

verus! {

/// Whether some record of the list carries this name.
pub open spec fn has_name(items: Seq<(Seq<char>, Seq<char>)>, name: Seq<char>) -> bool {
    exists|i: int| 0 <= i < items.len() && items[i].0 == name
}

/// The index of the record carrying this name.
pub open spec fn index_of(items: Seq<(Seq<char>, Seq<char>)>, name: Seq<char>) -> int {
    choose|i: int| 0 <= i < items.len() && items[i].0 == name
}

/// No two records of the list carry the same name.
pub open spec fn unique_names(items: Seq<(Seq<char>, Seq<char>)>) -> bool {
    forall|i: int, j: int|
        0 <= i < j < items.len() ==> (#[trigger] items[i]).0 != (#[trigger] items[j]).0
}

/// The media reference filed under this name, if any.
pub open spec fn spec_get(items: Seq<(Seq<char>, Seq<char>)>, name: Seq<char>) -> Option<
    Seq<char>,
> {
    if has_name(items, name) {
        Some(items[index_of(items, name)].1)
    } else {
        None
    }
}

/// A decided catalog mutation: the full entry list as it will stand once the
/// durable write has succeeded. Only the catalog's own deciders construct
/// one, so the list always has unique names.
pub struct CatalogUpdate {
    entries: Vec<StickerEntry>,
}

impl CatalogUpdate {
    /// The prospective entry list.
    pub closed spec fn view_items(self) -> Seq<(Seq<char>, Seq<char>)> {
        catalog_view(self.entries@)
    }

    #[verifier::type_invariant]
    spec fn inv(self) -> bool {
        unique_names(self.view_items())
    }

    /// The document to write to the durable file for this update.
    pub fn payload(&self) -> (r: String)
        ensures
            r@ == spec_encode_catalog(self.view_items()),
    {
        encode_catalog(&self.entries)
    }
}

/// The catalog: the committed entry list, equal to what the durable file
/// holds.
pub struct StickerStorage {
    entries: Vec<StickerEntry>,
}

impl StickerStorage {
    /// The committed records: name and media reference of each.
    pub closed spec fn view_items(self) -> Seq<(Seq<char>, Seq<char>)> {
        catalog_view(self.entries@)
    }

    /// The catalog never holds two records of one name.
    pub closed spec fn wf(self) -> bool {
        unique_names(self.view_items())
    }

    /// An empty catalog.
    pub fn new() -> (r: Self)
        ensures
            r.view_items() == Seq::<(Seq<char>, Seq<char>)>::empty(),
            r.wf(),
    {
        let r = StickerStorage { entries: Vec::new() };
        assert(r.view_items() =~= Seq::<(Seq<char>, Seq<char>)>::empty());
        r
    }

    /// Seeds the catalog from the durable file's content: succeeds exactly on
    /// a well-formed document whose names are unique.
    pub fn load(text: &str) -> (r: Result<StickerStorage, RepoError>)
        ensures
            match r {
                Ok(s) => {
                    &&& sp_catalog(text@) == Some(s.view_items())
                    &&& s.wf()
                },
                Err(e) => {
                    &&& e == RepoError::ReadJSONError
                    &&& match sp_catalog(text@) {
                        Some(items) => !unique_names(items),
                        None => true,
                    }
                },
            },
    {
        let entries = match parse_catalog(text) {
            Ok(es) => es,
            Err(e) => {
                return Err(e);
            },
        };
        let ghost items = catalog_view(entries@);
        let mut i: usize = 1;
        while i < entries.len()
            invariant
                1 <= i,
                items == catalog_view(entries@),
                items.len() == entries@.len(),
                sp_catalog(text@) == Some(items),
                forall|a: int, b: int|
                    0 <= a < b < i && b < items.len() ==> (#[trigger] items[a]).0 != (
                    #[trigger] items[b]).0,
            decreases entries@.len() - i,
        {
            let mut j: usize = 0;
            while j < i
                invariant
                    j <= i < entries@.len(),
                    items == catalog_view(entries@),
                    items.len() == entries@.len(),
                    sp_catalog(text@) == Some(items),
                    forall|a: int| 0 <= a < j ==> (#[trigger] items[a]).0 != items[i as int].0,
                decreases i - j,
            {
                if str_eq(entries[j].name.as_str(), entries[i].name.as_str()) {
                    assert(items[j as int].0 == items[i as int].0);
                    assert(!unique_names(items));
                    return Err(RepoError::ReadJSONError);
                }
                j = j + 1;
            }
            i = i + 1;
        }
        let s = StickerStorage { entries };
        assert(unique_names(s.view_items()));
        Ok(s)
    }

    /// The index of the record with this name.
    fn find(&self, name: &str) -> (r: Option<usize>)
        ensures
            match r {
                Some(i) => i < self.view_items().len() && self.view_items()[i as int].0 == name@,
                None => !has_name(self.view_items(), name@),
            },
    {
        let mut i: usize = 0;
        while i < self.entries.len()
            invariant
                i <= self.entries@.len(),
                self.view_items().len() == self.entries@.len(),
                forall|j: int| 0 <= j < i ==> (#[trigger] self.view_items()[j]).0 != name@,
            decreases self.entries@.len() - i,
        {
            if str_eq(self.entries[i].name.as_str(), name) {
                return Some(i);
            }
            i = i + 1;
        }
        None
    }

    /// Whether a record of this name exists.
    pub fn is_already_created(&self, sticker_name: &str) -> (r: bool)
        ensures
            r == has_name(self.view_items(), sticker_name@),
    {
        self.find(sticker_name).is_some()
    }

    /// The record of this name, if any: a cache-only read.
    pub fn get_sticker(&self, sticker_name: &str) -> (r: Option<StickerEntry>)
        requires
            self.wf(),
        ensures
            match r {
                Some(e) => {
                    &&& e.name@ == sticker_name@
                    &&& Some(e.file_id@) == spec_get(self.view_items(), sticker_name@)
                },
                None => spec_get(self.view_items(), sticker_name@) is None,
            },
    {
        match self.find(sticker_name) {
            Some(i) => {
                let e = &self.entries[i];
                proof {
                    let k = index_of(self.view_items(), sticker_name@);
                    assert(self.view_items()[k].0 == sticker_name@);
                    assert(k == i as int);
                }
                Some(StickerEntry::new(String::from_str(e.name.as_str()), String::from_str(
                    e.file_id.as_str(),
                )))
            },
            None => None,
        }
    }

    /// All records, in storage order, or `None` when the catalog is empty.
    pub fn list_stickers(&self) -> (r: Option<Vec<StickerEntry>>)
        ensures
            match r {
                Some(v) => catalog_view(v@) == self.view_items() && v@.len() > 0,
                None => self.view_items().len() == 0,
            },
    {
        if self.entries.len() == 0 {
            assert(self.view_items().len() == 0);
            return None;
        }
        let mut v: Vec<StickerEntry> = Vec::new();
        let mut i: usize = 0;
        while i < self.entries.len()
            invariant
                i <= self.entries@.len(),
                v@.len() == i,
                forall|j: int|
                    0 <= j < i ==> (#[trigger] v@[j]).view_pair() == self.view_items()[j],
            decreases self.entries@.len() - i,
        {
            let e = &self.entries[i];
            v.push(StickerEntry::new(String::from_str(e.name.as_str()), String::from_str(
                e.file_id.as_str(),
            )));
            i = i + 1;
        }
        assert(catalog_view(v@) =~= self.view_items());
        Some(v)
    }

    /// A copy of the committed entry list.
    fn cloned_entries(&self) -> (r: Vec<StickerEntry>)
        ensures
            catalog_view(r@) == self.view_items(),
    {
        let mut v: Vec<StickerEntry> = Vec::new();
        let mut i: usize = 0;
        while i < self.entries.len()
            invariant
                i <= self.entries@.len(),
                v@.len() == i,
                forall|j: int|
                    0 <= j < i ==> (#[trigger] v@[j]).view_pair() == self.view_items()[j],
            decreases self.entries@.len() - i,
        {
            let e = &self.entries[i];
            v.push(StickerEntry::new(String::from_str(e.name.as_str()), String::from_str(
                e.file_id.as_str(),
            )));
            i = i + 1;
        }
        assert(catalog_view(v@) =~= self.view_items());
        v
    }

    /// Decides an insertion: refused when the name is taken, and otherwise
    /// the update appends the record.
    pub fn add_sticker(&self, sticker: &StickerEntry) -> (r: Result<CatalogUpdate, ApiError>)
        requires
            self.wf(),
        ensures
            match r {
                Ok(upd) => {
                    &&& !has_name(self.view_items(), sticker.name@)
                    &&& upd.view_items() == self.view_items().push(sticker.view_pair())
                },
                Err(e) => e == ApiError::StickerAlreadyExists && has_name(
                    self.view_items(),
                    sticker.name@,
                ),
            },
    {
        if self.is_already_created(sticker.name.as_str()) {
            return Err(ApiError::StickerAlreadyExists);
        }
        let mut entries = self.cloned_entries();
        let ghost before = catalog_view(entries@);
        entries.push(StickerEntry::new(String::from_str(sticker.name.as_str()), String::from_str(
            sticker.file_id.as_str(),
        )));
        assert(catalog_view(entries@) =~= before.push(sticker.view_pair()));
        proof {
            let items = catalog_view(entries@);
            assert forall|i: int, j: int| 0 <= i < j < items.len() implies (#[trigger] items[i]).0
                != (#[trigger] items[j]).0 by {
                if j == items.len() - 1 {
                    assert(items[i] == self.view_items()[i]);
                    assert(!has_name(self.view_items(), sticker.name@));
                }
            }
        }
        Ok(CatalogUpdate { entries })
    }

    /// Decides a rename: refused when the old name is absent or the new one
    /// is taken, and otherwise the update relabels the record in place,
    /// keeping its media reference.
    pub fn rename_sticker(&self, old_name: &str, new_name: &str) -> (r: Result<
        CatalogUpdate,
        ApiError,
    >)
        requires
            self.wf(),
        ensures
            match r {
                Ok(upd) => {
                    &&& has_name(self.view_items(), old_name@)
                    &&& !has_name(self.view_items(), new_name@)
                    &&& upd.view_items() == self.view_items().update(
                        index_of(self.view_items(), old_name@),
                        (new_name@, self.view_items()[index_of(self.view_items(), old_name@)].1),
                    )
                },
                Err(e) => {
                    ||| (e == ApiError::StickerNotFound && !has_name(
                        self.view_items(),
                        old_name@,
                    ))
                    ||| (e == ApiError::StickerAlreadyExists && has_name(
                        self.view_items(),
                        old_name@,
                    ) && has_name(self.view_items(), new_name@))
                },
            },
    {
        let i = match self.find(old_name) {
            Some(i) => i,
            None => {
                return Err(ApiError::StickerNotFound);
            },
        };
        if self.is_already_created(new_name) {
            return Err(ApiError::StickerAlreadyExists);
        }
        let mut entries = self.cloned_entries();
        let ghost before = catalog_view(entries@);
        let file_id = String::from_str(entries[i].file_id.as_str());
        entries.set(i, StickerEntry::new(String::from_str(new_name), file_id));
        proof {
            let k = index_of(self.view_items(), old_name@);
            assert(self.view_items()[k].0 == old_name@);
            assert(k == i as int);
            assert(catalog_view(entries@) =~= self.view_items().update(
                i as int,
                (new_name@, self.view_items()[i as int].1),
            ));
            let items = catalog_view(entries@);
            assert forall|a: int, b: int| 0 <= a < b < items.len() implies (#[trigger] items[a]).0
                != (#[trigger] items[b]).0 by {
                if a != i && b != i {
                    assert(items[a] == self.view_items()[a]);
                    assert(items[b] == self.view_items()[b]);
                } else if a == i {
                    assert(items[b] == self.view_items()[b]);
                    assert(!has_name(self.view_items(), new_name@));
                } else {
                    assert(items[a] == self.view_items()[a]);
                    assert(!has_name(self.view_items(), new_name@));
                }
            }
        }
        Ok(CatalogUpdate { entries })
    }

    /// Decides a removal: refused when the name is absent, and otherwise the
    /// update drops the record.
    pub fn remove_sticker(&self, sticker_name: &str) -> (r: Result<CatalogUpdate, ApiError>)
        requires
            self.wf(),
        ensures
            match r {
                Ok(upd) => {
                    &&& has_name(self.view_items(), sticker_name@)
                    &&& upd.view_items() == self.view_items().remove(
                        index_of(self.view_items(), sticker_name@),
                    )
                },
                Err(e) => e == ApiError::StickerNotFound && !has_name(
                    self.view_items(),
                    sticker_name@,
                ),
            },
    {
        let i = match self.find(sticker_name) {
            Some(i) => i,
            None => {
                return Err(ApiError::StickerNotFound);
            },
        };
        let mut entries = self.cloned_entries();
        let ghost before = catalog_view(entries@);
        entries.remove(i);
        proof {
            let k = index_of(self.view_items(), sticker_name@);
            assert(self.view_items()[k].0 == sticker_name@);
            assert(k == i as int);
            assert(catalog_view(entries@) =~= before.remove(i as int));
            let items = catalog_view(entries@);
            assert forall|a: int, b: int| 0 <= a < b < items.len() implies (#[trigger] items[a]).0
                != (#[trigger] items[b]).0 by {
                let a0 = if a < i as int { a } else { a + 1 };
                let b0 = if b < i as int { b } else { b + 1 };
                assert(items[a] == self.view_items()[a0]);
                assert(items[b] == self.view_items()[b0]);
            }
        }
        Ok(CatalogUpdate { entries })
    }

    /// Installs a decided update after its durable write succeeded. A failed
    /// write is rolled back by never committing: the cache then still equals
    /// the file.
    pub fn commit(&mut self, update: CatalogUpdate)
        ensures
            final(self).view_items() == update.view_items(),
            final(self).wf(),
    {
        proof {
            use_type_invariant(&update);
        }
        self.entries = update.entries;
    }
}

/// Law of catalog insertion: committing an `add` makes the new name report
/// the new reference and leaves every other name exactly as it was. (That a
/// second `add` of a taken name is refused, with nothing changed, is the
/// `Err` case of [`StickerStorage::add_sticker`], which does not touch the
/// catalog at all.)
pub proof fn lemma_add_get(
    items: Seq<(Seq<char>, Seq<char>)>,
    name: Seq<char>,
    file_id: Seq<char>,
    probe: Seq<char>,
)
    requires
        unique_names(items),
        !has_name(items, name),
    ensures
        spec_get(items.push((name, file_id)), probe) == if probe == name {
            Some(file_id)
        } else {
            spec_get(items, probe)
        },
{
    let upd = items.push((name, file_id));
    assert(upd[items.len() as int].0 == name);
    if probe == name {
        assert(has_name(upd, name));
        let k = index_of(upd, name);
        assert(upd[k].0 == name);
        if k < items.len() {
            assert(items[k].0 == name);
            assert(has_name(items, name));
        }
        assert(k == items.len());
    } else {
        if has_name(upd, probe) {
            let k = index_of(upd, probe);
            assert(upd[k].0 == probe);
            assert(k < items.len());
            assert(items[k].0 == probe);
            assert(has_name(items, probe));
            let k2 = index_of(items, probe);
            assert(items[k2].0 == probe);
            if k != k2 {
                if k < k2 {
                    assert(items[k].0 != items[k2].0);
                } else {
                    assert(items[k2].0 != items[k].0);
                }
            }
            assert(spec_get(upd, probe) == spec_get(items, probe));
        } else {
            if has_name(items, probe) {
                let k = index_of(items, probe);
                assert(upd[k].0 == probe);
                assert(has_name(upd, probe));
            }
        }
    }
}

/// Law of catalog rename: committing a rename makes the old name report
/// nothing, the new name report the untouched media reference, and leaves
/// every other name as it was. The refusals — `NotFound` for an absent old
/// name, `AlreadyExists` for a taken new name, both with nothing changed —
/// are the `Err` cases of [`StickerStorage::rename_sticker`].
pub proof fn lemma_rename_get(
    items: Seq<(Seq<char>, Seq<char>)>,
    i: int,
    new_name: Seq<char>,
    probe: Seq<char>,
)
    requires
        unique_names(items),
        0 <= i < items.len(),
        !has_name(items, new_name),
    ensures
        ({
            let upd = items.update(i, (new_name, items[i].1));
            &&& spec_get(upd, items[i].0) == None::<Seq<char>>
            &&& spec_get(upd, new_name) == Some(items[i].1)
            &&& (probe != items[i].0 && probe != new_name ==> spec_get(upd, probe) == spec_get(
                items,
                probe,
            ))
        }),
{
    let old_name = items[i].0;
    let upd = items.update(i, (new_name, items[i].1));
    assert(upd[i].0 == new_name);
    // the old name is gone
    assert(old_name != new_name);
    if has_name(upd, old_name) {
        let k = index_of(upd, old_name);
        assert(upd[k].0 == old_name);
        assert(k != i);
        assert(items[k].0 == old_name);
        if k < i {
            assert(items[k].0 != items[i].0);
        } else {
            assert(items[i].0 != items[k].0);
        }
    }
    // the new name reports the kept reference
    assert(has_name(upd, new_name));
    let k = index_of(upd, new_name);
    assert(upd[k].0 == new_name);
    if k != i {
        assert(items[k].0 == new_name);
        assert(has_name(items, new_name));
    }
    assert(upd[k].1 == items[i].1);
    // other names are untouched
    if probe != old_name && probe != new_name {
        if has_name(upd, probe) {
            let a = index_of(upd, probe);
            assert(upd[a].0 == probe);
            assert(a != i);
            assert(items[a].0 == probe);
            assert(has_name(items, probe));
            let b = index_of(items, probe);
            assert(items[b].0 == probe);
            if a != b {
                if a < b {
                    assert(items[a].0 != items[b].0);
                } else {
                    assert(items[b].0 != items[a].0);
                }
            }
            assert(spec_get(upd, probe) == spec_get(items, probe));
        } else if has_name(items, probe) {
            let a = index_of(items, probe);
            assert(items[a].0 == probe);
            assert(a != i);
            assert(upd[a].0 == probe);
            assert(has_name(upd, probe));
        }
    }
}

/// Law of catalog deletion: committing a removal makes the removed name
/// report nothing and leaves every other name as it was. The refusal —
/// `NotFound` for an absent name, with nothing changed — is the `Err` case of
/// [`StickerStorage::remove_sticker`].
pub proof fn lemma_remove_get(items: Seq<(Seq<char>, Seq<char>)>, i: int, probe: Seq<char>)
    requires
        unique_names(items),
        0 <= i < items.len(),
    ensures
        ({
            let upd = items.remove(i);
            &&& spec_get(upd, items[i].0) == None::<Seq<char>>
            &&& (probe != items[i].0 ==> spec_get(upd, probe) == spec_get(items, probe))
        }),
{
    let name = items[i].0;
    let upd = items.remove(i);
    assert(forall|a: int|
        0 <= a < upd.len() ==> #[trigger] upd[a] == (if a < i {
            items[a]
        } else {
            items[a + 1]
        }));
    if has_name(upd, name) {
        let k = index_of(upd, name);
        assert(upd[k].0 == name);
        let k0 = if k < i {
            k
        } else {
            k + 1
        };
        assert(items[k0].0 == name);
        assert(k0 != i);
        if k0 < i {
            assert(items[k0].0 != items[i].0);
        } else {
            assert(items[i].0 != items[k0].0);
        }
    }
    if probe != name {
        if has_name(upd, probe) {
            let a = index_of(upd, probe);
            assert(upd[a].0 == probe);
            let a0 = if a < i {
                a
            } else {
                a + 1
            };
            assert(items[a0].0 == probe);
            assert(has_name(items, probe));
            let b = index_of(items, probe);
            assert(items[b].0 == probe);
            if a0 != b {
                if a0 < b {
                    assert(items[a0].0 != items[b].0);
                } else {
                    assert(items[b].0 != items[a0].0);
                }
            }
            assert(spec_get(upd, probe) == spec_get(items, probe));
        } else if has_name(items, probe) {
            let b = index_of(items, probe);
            assert(items[b].0 == probe);
            assert(b != i);
            let a = if b < i {
                b
            } else {
                b - 1
            };
            assert(upd[a].0 == probe);
            assert(has_name(upd, probe));
        }
    }
}

} // verus!
