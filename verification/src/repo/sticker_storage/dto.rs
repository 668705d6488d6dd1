//! The catalog's record: a sticker name and the media reference it stands
//! for.

use vstd::prelude::*;

verus! {

/// One catalog record. Identity is the name alone: two entries with the same
/// name are the same logical record, whatever their references.
#[derive(Debug, Clone)]
pub struct StickerEntry {
    pub name: String,
    pub file_id: String,
}

impl StickerEntry {
    /// The record as a plain pair: the characters of the name and of the
    /// media reference.
    pub open spec fn view_pair(self) -> (Seq<char>, Seq<char>) {
        (self.name@, self.file_id@)
    }

    pub fn new(name: String, file_id: String) -> (r: Self)
        ensures
            r.name == name,
            r.file_id == file_id,
    {
        StickerEntry { name, file_id }
    }
}

impl PartialEq for StickerEntry {
    /// Entries are equal when their names are: the catalog's identity.
    fn eq(&self, other: &Self) -> (r: bool) {
        self.name == other.name
    }
}

impl vstd::std_specs::cmp::PartialEqSpecImpl for StickerEntry {
    open spec fn obeys_eq_spec() -> bool {
        true
    }

    open spec fn eq_spec(&self, other: &Self) -> bool {
        self.name@ == other.name@
    }
}

} // verus!
