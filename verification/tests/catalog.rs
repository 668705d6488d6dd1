//! The sticker catalog: uniqueness, rename, delete, rollback, and the file
//! format's round trip.

use slay_bot::errors::ApiError;
use slay_bot::repo::sticker_storage::codec::{encode_catalog, parse_catalog};
use slay_bot::repo::sticker_storage::dto::StickerEntry;
use slay_bot::repo::sticker_storage::storage::StickerStorage;

fn entry(name: &str, file_id: &str) -> StickerEntry {
    StickerEntry::new(name.to_string(), file_id.to_string())
}

#[test]
fn add_then_get() {
    let mut catalog = StickerStorage::new();
    let upd = catalog.add_sticker(&entry("foo", "ref-1")).unwrap();
    catalog.commit(upd);
    let got = catalog.get_sticker("foo").unwrap();
    assert_eq!(got.name, "foo");
    assert_eq!(got.file_id, "ref-1");
    assert!(catalog.is_already_created("foo"));
    assert!(!catalog.is_already_created("bar"));
}

#[test]
fn catalog_uniqueness() {
    let mut catalog = StickerStorage::new();
    let upd = catalog.add_sticker(&entry("name", "r1")).unwrap();
    catalog.commit(upd);
    let second = catalog.add_sticker(&entry("name", "r2"));
    assert!(matches!(second, Err(ApiError::StickerAlreadyExists)));
    // the catalog still reports the first reference
    assert_eq!(catalog.get_sticker("name").unwrap().file_id, "r1");
}

#[test]
fn catalog_rename() {
    let mut catalog = StickerStorage::new();
    let upd = catalog.add_sticker(&entry("a", "r")).unwrap();
    catalog.commit(upd);
    let upd = catalog.rename_sticker("a", "b").unwrap();
    catalog.commit(upd);
    assert!(catalog.get_sticker("a").is_none());
    assert_eq!(catalog.get_sticker("b").unwrap().file_id, "r");

    let missing = catalog.rename_sticker("missing", "x");
    assert!(matches!(missing, Err(ApiError::StickerNotFound)));

    let upd = catalog.add_sticker(&entry("c", "r2")).unwrap();
    catalog.commit(upd);
    let collision = catalog.rename_sticker("b", "c");
    assert!(matches!(collision, Err(ApiError::StickerAlreadyExists)));
    // both entries untouched
    assert_eq!(catalog.get_sticker("b").unwrap().file_id, "r");
    assert_eq!(catalog.get_sticker("c").unwrap().file_id, "r2");
}

#[test]
fn catalog_delete() {
    let mut catalog = StickerStorage::new();
    let upd = catalog.add_sticker(&entry("gone", "r")).unwrap();
    catalog.commit(upd);
    let upd = catalog.remove_sticker("gone").unwrap();
    catalog.commit(upd);
    assert!(catalog.get_sticker("gone").is_none());
    let absent = catalog.remove_sticker("gone");
    assert!(matches!(absent, Err(ApiError::StickerNotFound)));
}

#[test]
fn rollback_on_failed_write() {
    // a durable write that fails is never committed: the cache answers as if
    // the mutation had not happened
    let mut catalog = StickerStorage::new();
    let upd = catalog.add_sticker(&entry("doomed", "r")).unwrap();
    drop(upd);
    assert!(catalog.get_sticker("doomed").is_none());

    let upd = catalog.add_sticker(&entry("kept", "r0")).unwrap();
    catalog.commit(upd);
    let upd = catalog.rename_sticker("kept", "renamed").unwrap();
    drop(upd);
    assert_eq!(catalog.get_sticker("kept").unwrap().file_id, "r0");
    assert!(catalog.get_sticker("renamed").is_none());

    let upd = catalog.remove_sticker("kept").unwrap();
    drop(upd);
    assert_eq!(catalog.get_sticker("kept").unwrap().file_id, "r0");
}

#[test]
fn list_is_all_entries() {
    let mut catalog = StickerStorage::new();
    assert!(catalog.list_stickers().is_none());
    for (n, f) in [("b", "2"), ("a", "1")] {
        let upd = catalog.add_sticker(&entry(n, f)).unwrap();
        catalog.commit(upd);
    }
    let all = catalog.list_stickers().unwrap();
    assert_eq!(all.len(), 2);
}

#[test]
fn encode_exact_document() {
    let entries = vec![entry("a", "b"), entry("c", "d")];
    let text = encode_catalog(&entries);
    assert_eq!(text, "[{\"name\":\"a\",\"file_id\":\"b\"},{\"name\":\"c\",\"file_id\":\"d\"}]");
    let empty: Vec<StickerEntry> = Vec::new();
    assert_eq!(encode_catalog(&empty), "[]");
}

#[test]
fn encode_escapes_specials() {
    let entries = vec![entry("q\"u\\o\nte", "x")];
    let text = encode_catalog(&entries);
    assert_eq!(text, "[{\"name\":\"q\\\"u\\\\o\\nte\",\"file_id\":\"x\"}]");
}

#[test]
fn codec_round_trip() {
    let entries = vec![
        entry("простое имя", "CAAC123"),
        entry("with \"quotes\" and \\slashes\\", "ref\t2"),
        entry("control\u{1}char", "\u{1f}"),
    ];
    let text = encode_catalog(&entries);
    let back = parse_catalog(&text).unwrap();
    assert_eq!(back.len(), entries.len());
    for (a, b) in entries.iter().zip(back.iter()) {
        assert_eq!(a.name, b.name);
        assert_eq!(a.file_id, b.file_id);
    }
}

#[test]
fn parse_rejects_malformed() {
    assert!(parse_catalog("").is_err());
    assert!(parse_catalog("garbage").is_err());
    assert!(parse_catalog("[").is_err());
    assert!(parse_catalog("[]x").is_err());
    assert!(parse_catalog("[{\"name\":\"a\",\"file_id\":\"b\"}").is_err());
    assert!(parse_catalog("[{\"name\":\"a\",\"file_id\":\"b\"},]").is_err());
    // a raw control character inside a string is refused
    assert!(parse_catalog("[{\"name\":\"a\nb\",\"file_id\":\"c\"}]").is_err());
}

#[test]
fn load_seeds_and_guards_uniqueness() {
    let entries = vec![entry("a", "1"), entry("b", "2")];
    let text = encode_catalog(&entries);
    let catalog = StickerStorage::load(&text).unwrap();
    assert_eq!(catalog.get_sticker("a").unwrap().file_id, "1");
    assert_eq!(catalog.get_sticker("b").unwrap().file_id, "2");

    let dup = encode_catalog(&vec![entry("a", "1"), entry("a", "2")]);
    assert!(StickerStorage::load(&dup).is_err());
}
