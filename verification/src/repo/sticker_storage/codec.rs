//! The catalog's durable file format: a JSON array of objects
//! `{"name": ..., "file_id": ...}`, written as a whole on every mutation and
//! read back as a whole on startup. The encoder and the parser are verified
//! against one grammar: the parser accepts exactly the encoder's language.

use vstd::prelude::*;
use crate::errors::RepoError;
use crate::repo::sticker_storage::dto::StickerEntry;
use crate::utils::{char_from_byte, push_char};

verus! {

/// The entry list as plain pairs: name and media reference of each record.
pub open spec fn catalog_view(s: Seq<StickerEntry>) -> Seq<(Seq<char>, Seq<char>)> {
    Seq::new(s.len(), |i: int| s[i].view_pair())
}

/// The lower-case hexadecimal digit of a value below sixteen.
pub open spec fn spec_hex_digit(n: int) -> char {
    if n == 0 {
        '0'
    } else if n == 1 {
        '1'
    } else if n == 2 {
        '2'
    } else if n == 3 {
        '3'
    } else if n == 4 {
        '4'
    } else if n == 5 {
        '5'
    } else if n == 6 {
        '6'
    } else if n == 7 {
        '7'
    } else if n == 8 {
        '8'
    } else if n == 9 {
        '9'
    } else if n == 10 {
        'a'
    } else if n == 11 {
        'b'
    } else if n == 12 {
        'c'
    } else if n == 13 {
        'd'
    } else if n == 14 {
        'e'
    } else {
        'f'
    }
}

/// Whether the character is a short escape's mark: one of the five control
/// characters with a two-character escape, the quote, or the backslash.
pub open spec fn is_short_escaped(c: char) -> bool {
    c == '"' || c == '\\' || c == '\u{8}' || c == '\u{c}' || c == '\n' || c == '\r' || c == '\t'
}

/// The mark that follows the backslash in a short escape.
pub open spec fn short_escape_mark(c: char) -> char {
    if c == '"' {
        '"'
    } else if c == '\\' {
        '\\'
    } else if c == '\u{8}' {
        'b'
    } else if c == '\u{c}' {
        'f'
    } else if c == '\n' {
        'n'
    } else if c == '\r' {
        'r'
    } else {
        't'
    }
}

/// How one character appears inside an encoded string: itself, a short
/// escape, or `\u00..` for the remaining control characters.
pub open spec fn spec_escape_char(c: char) -> Seq<char> {
    if is_short_escaped(c) {
        seq!['\\', short_escape_mark(c)]
    } else if (c as u32) < 0x20 {
        seq![
            '\\',
            'u',
            '0',
            '0',
            spec_hex_digit((c as u32) as int / 16),
            spec_hex_digit((c as u32) as int % 16),
        ]
    } else {
        seq![c]
    }
}

/// A whole string's characters, escaped one after the other.
pub open spec fn spec_escape(s: Seq<char>) -> Seq<char>
    decreases s.len(),
{
    if s.len() == 0 {
        Seq::empty()
    } else {
        spec_escape_char(s.first()) + spec_escape(s.skip(1))
    }
}

/// Escaping a string one character longer appends that character's escape.
pub proof fn lemma_escape_push(s: Seq<char>, c: char)
    ensures
        spec_escape(s.push(c)) == spec_escape(s) + spec_escape_char(c),
    decreases s.len(),
{
    if s.len() == 0 {
        assert(s.push(c).first() == c);
        assert(s.push(c).skip(1) =~= Seq::<char>::empty());
        assert(spec_escape(Seq::<char>::empty()) == Seq::<char>::empty());
        assert(spec_escape(s.push(c)) == spec_escape_char(c) + spec_escape(
            Seq::<char>::empty(),
        ));
        assert(spec_escape(s.push(c)) =~= spec_escape_char(c));
        assert(spec_escape(s) + spec_escape_char(c) =~= spec_escape_char(c));
    } else {
        assert(s.push(c).skip(1) =~= s.skip(1).push(c));
        lemma_escape_push(s.skip(1), c);
        assert(spec_escape(s.push(c)) =~= spec_escape(s) + spec_escape_char(c));
    }
}

/// One encoded record.
pub open spec fn spec_encode_entry(name: Seq<char>, file_id: Seq<char>) -> Seq<char> {
    "{\"name\":\""@ + spec_escape(name) + "\",\"file_id\":\""@ + spec_escape(file_id) + "\"}"@
}

/// The records of the array, comma-separated.
pub open spec fn spec_encode_items(items: Seq<(Seq<char>, Seq<char>)>) -> Seq<char>
    decreases items.len(),
{
    if items.len() == 0 {
        Seq::empty()
    } else if items.len() == 1 {
        spec_encode_entry(items[0].0, items[0].1)
    } else {
        spec_encode_entry(items[0].0, items[0].1) + ","@ + spec_encode_items(items.skip(1))
    }
}

/// Encoding one more record appends a comma (except to an empty array body)
/// and the record.
pub proof fn lemma_encode_items_push(items: Seq<(Seq<char>, Seq<char>)>, e: (Seq<char>, Seq<char>))
    ensures
        spec_encode_items(items.push(e)) == if items.len() == 0 {
            spec_encode_entry(e.0, e.1)
        } else {
            spec_encode_items(items) + ","@ + spec_encode_entry(e.0, e.1)
        },
    decreases items.len(),
{
    if items.len() == 0 {
        assert(items.push(e)[0] == e);
    } else {
        assert(items.push(e).skip(1) =~= items.skip(1).push(e));
        lemma_encode_items_push(items.skip(1), e);
        if items.len() == 1 {
            assert(items.skip(1).len() == 0);
            assert(spec_encode_items(items.push(e)) =~= spec_encode_items(items) + ","@
                + spec_encode_entry(e.0, e.1));
        } else {
            assert(spec_encode_items(items.push(e)) =~= spec_encode_items(items) + ","@
                + spec_encode_entry(e.0, e.1));
        }
    }
}

/// The whole document: the array of all records.
pub open spec fn spec_encode_catalog(items: Seq<(Seq<char>, Seq<char>)>) -> Seq<char> {
    "["@ + spec_encode_items(items) + "]"@
}

/// The lower-case hexadecimal digit of a nibble.
fn hex_digit_char(n: u8) -> (r: char)
    requires
        n < 16,
    ensures
        r == spec_hex_digit(n as int),
{
    if n == 0 {
        '0'
    } else if n == 1 {
        '1'
    } else if n == 2 {
        '2'
    } else if n == 3 {
        '3'
    } else if n == 4 {
        '4'
    } else if n == 5 {
        '5'
    } else if n == 6 {
        '6'
    } else if n == 7 {
        '7'
    } else if n == 8 {
        '8'
    } else if n == 9 {
        '9'
    } else if n == 10 {
        'a'
    } else if n == 11 {
        'b'
    } else if n == 12 {
        'c'
    } else if n == 13 {
        'd'
    } else if n == 14 {
        'e'
    } else {
        'f'
    }
}

/// Appends the string's characters to `out`, escaped for the file format.
fn append_escaped(out: &mut String, s: &str)
    ensures
        final(out)@ == old(out)@ + spec_escape(s@),
{
    let n = s.unicode_len();
    let mut i: usize = 0;
    assert(s@.take(0) =~= Seq::<char>::empty());
    assert(out@ =~= old(out)@ + spec_escape(s@.take(0)));
    while i < n
        invariant
            i <= n,
            n == s@.len(),
            out@ == old(out)@ + spec_escape(s@.take(i as int)),
        decreases n - i,
    {
        let c = s.get_char(i);
        if c == '"' {
            push_char(out, '\\');
            push_char(out, '"');
        } else if c == '\\' {
            push_char(out, '\\');
            push_char(out, '\\');
        } else if c == '\u{8}' {
            push_char(out, '\\');
            push_char(out, 'b');
        } else if c == '\u{c}' {
            push_char(out, '\\');
            push_char(out, 'f');
        } else if c == '\n' {
            push_char(out, '\\');
            push_char(out, 'n');
        } else if c == '\r' {
            push_char(out, '\\');
            push_char(out, 'r');
        } else if c == '\t' {
            push_char(out, '\\');
            push_char(out, 't');
        } else if (c as u32) < 0x20 {
            let v = (c as u32) as u8;
            push_char(out, '\\');
            push_char(out, 'u');
            push_char(out, '0');
            push_char(out, '0');
            push_char(out, hex_digit_char(v / 16));
            push_char(out, hex_digit_char(v % 16));
        } else {
            push_char(out, c);
        }
        proof {
            lemma_escape_push(s@.take(i as int), c);
            assert(s@.take(i + 1) =~= s@.take(i as int).push(c));
            assert(out@ =~= old(out)@ + spec_escape(s@.take(i + 1)));
        }
        i = i + 1;
    }
    assert(s@.take(n as int) =~= s@);
}

/// Appends one encoded record to `out`.
fn append_entry(out: &mut String, entry: &StickerEntry)
    ensures
        final(out)@ == old(out)@ + spec_encode_entry(entry.name@, entry.file_id@),
{
    out.append("{\"name\":\"");
    append_escaped(out, entry.name.as_str());
    out.append("\",\"file_id\":\"");
    append_escaped(out, entry.file_id.as_str());
    out.append("\"}");
}

/// Encodes the whole entry list as the durable document.
pub fn encode_catalog(entries: &Vec<StickerEntry>) -> (r: String)
    ensures
        r@ == spec_encode_catalog(catalog_view(entries@)),
{
    let ghost items = catalog_view(entries@);
    let mut out = String::new();
    out.append("[");
    let mut i: usize = 0;
    assert(items.take(0) =~= Seq::<(Seq<char>, Seq<char>)>::empty());
    while i < entries.len()
        invariant
            i <= entries.len(),
            items == catalog_view(entries@),
            items.len() == entries@.len(),
            forall|j: int| 0 <= j < entries@.len() ==> items[j] == entries@[j].view_pair(),
            out@ == "["@ + spec_encode_items(items.take(i as int)),
        decreases entries.len() - i,
    {
        if i > 0 {
            out.append(",");
        }
        append_entry(&mut out, &entries[i]);
        proof {
            let before = items.take(i as int);
            let after = items.take(i + 1);
            assert(after =~= before.push(items[i as int]));
            lemma_encode_items_push(before, items[i as int]);
            assert(out@ =~= "["@ + spec_encode_items(after));
        }
        i = i + 1;
    }
    assert(items.take(entries@.len() as int) =~= items);
    out.append("]");
    out
}

/// The value of a lower-case hexadecimal digit, or a negative number for any
/// other character.
pub open spec fn spec_hex_val(c: char) -> int {
    if c == '0' {
        0
    } else if c == '1' {
        1
    } else if c == '2' {
        2
    } else if c == '3' {
        3
    } else if c == '4' {
        4
    } else if c == '5' {
        5
    } else if c == '6' {
        6
    } else if c == '7' {
        7
    } else if c == '8' {
        8
    } else if c == '9' {
        9
    } else if c == 'a' {
        10
    } else if c == 'b' {
        11
    } else if c == 'c' {
        12
    } else if c == 'd' {
        13
    } else if c == 'e' {
        14
    } else if c == 'f' {
        15
    } else {
        -1
    }
}

/// Whether the character may follow a backslash as a short escape's mark.
pub open spec fn is_short_mark(m: char) -> bool {
    m == '"' || m == '\\' || m == 'b' || m == 'f' || m == 'n' || m == 'r' || m == 't'
}

/// The character a short escape stands for.
pub open spec fn short_unescape(m: char) -> char {
    if m == '"' {
        '"'
    } else if m == '\\' {
        '\\'
    } else if m == 'b' {
        '\u{8}'
    } else if m == 'f' {
        '\u{c}'
    } else if m == 'n' {
        '\n'
    } else if m == 'r' {
        '\r'
    } else {
        '\t'
    }
}

/// Parses an encoded string from position `i` (just after the opening quote)
/// to its closing quote: the decoded characters and the position after the
/// quote. Accepts exactly the escaping the encoder writes.
pub open spec fn sp_string(t: Seq<char>, i: int) -> Option<(Seq<char>, int)>
    decreases t.len() - i,
{
    if i < 0 || i >= t.len() {
        None
    } else if t[i] == '"' {
        Some((Seq::empty(), i + 1))
    } else if t[i] == '\\' {
        if i + 1 >= t.len() {
            None
        } else if is_short_mark(t[i + 1]) {
            match sp_string(t, i + 2) {
                Some((s, j)) => Some((seq![short_unescape(t[i + 1])] + s, j)),
                None => None,
            }
        } else if t[i + 1] == 'u' {
            if i + 5 >= t.len() {
                None
            } else if t[i + 2] == '0' && t[i + 3] == '0' && spec_hex_val(t[i + 4]) >= 0
                && spec_hex_val(t[i + 5]) >= 0 {
                let v = 16 * spec_hex_val(t[i + 4]) + spec_hex_val(t[i + 5]);
                if v < 0x20 && !is_short_escaped(((v as u32) as char)) {
                    match sp_string(t, i + 6) {
                        Some((s, j)) => Some((seq![((v as u32) as char)] + s, j)),
                        None => None,
                    }
                } else {
                    None
                }
            } else {
                None
            }
        } else {
            None
        }
    } else if (t[i] as u32) < 0x20 {
        None
    } else {
        match sp_string(t, i + 1) {
            Some((s, j)) => Some((seq![t[i]] + s, j)),
            None => None,
        }
    }
}

/// The position after a fixed text, when the input carries it at `i`.
pub open spec fn sp_expect(t: Seq<char>, i: int, lit: Seq<char>) -> Option<int> {
    if 0 <= i && i + lit.len() <= t.len() && t.subrange(i, i + lit.len()) == lit {
        Some(i + lit.len())
    } else {
        None
    }
}

/// Parses one encoded record starting at `i`: the name and reference pair and
/// the position after the closing brace.
pub open spec fn sp_entry(t: Seq<char>, i: int) -> Option<((Seq<char>, Seq<char>), int)> {
    match sp_expect(t, i, "{\"name\":\""@) {
        None => None,
        Some(j) => match sp_string(t, j) {
            None => None,
            Some((name, k)) => match sp_expect(t, k, ",\"file_id\":\""@) {
                None => None,
                Some(l) => match sp_string(t, l) {
                    None => None,
                    Some((file_id, m)) => match sp_expect(t, m, "}"@) {
                        None => None,
                        Some(end) => Some(((name, file_id), end)),
                    },
                },
            },
        },
    }
}

/// A successful string parse moves the position forward.
pub proof fn lemma_sp_string_advances(t: Seq<char>, i: int)
    ensures
        sp_string(t, i) matches Some((s, j)) ==> i < j <= t.len(),
    decreases t.len() - i,
{
    if 0 <= i && i < t.len() {
        if t[i] == '\\' {
            if i + 2 <= t.len() {
                lemma_sp_string_advances(t, i + 2);
                if i + 6 <= t.len() {
                    lemma_sp_string_advances(t, i + 6);
                }
            }
        } else {
            lemma_sp_string_advances(t, i + 1);
        }
    }
}

/// A successful record parse moves the position forward.
pub proof fn lemma_sp_entry_advances(t: Seq<char>, i: int)
    ensures
        sp_entry(t, i) matches Some((e, j)) ==> i < j <= t.len(),
{
    if sp_entry(t, i) is Some {
        let j = sp_expect(t, i, "{\"name\":\""@).unwrap();
        lemma_sp_string_advances(t, j);
        let (name, k) = sp_string(t, j).unwrap();
        let l = sp_expect(t, k, ",\"file_id\":\""@).unwrap();
        lemma_sp_string_advances(t, l);
    }
}

/// Parses the comma-separated records from `i` on: the records and the
/// position after the last one.
pub open spec fn sp_items(t: Seq<char>, i: int) -> Option<(Seq<(Seq<char>, Seq<char>)>, int)>
    decreases t.len() - i,
    via sp_items_decreases
{
    match sp_entry(t, i) {
        None => None,
        Some((e, j)) => if j < t.len() && t[j] == ',' {
            match sp_items(t, j + 1) {
                Some((es, k)) => Some((seq![e] + es, k)),
                None => None,
            }
        } else {
            Some((seq![e], j))
        },
    }
}

#[via_fn]
proof fn sp_items_decreases(t: Seq<char>, i: int) {
    lemma_sp_entry_advances(t, i);
}

/// The hexadecimal digit of a nibble reads back as that nibble.
proof fn lemma_hex_round_trip(n: int)
    requires
        0 <= n < 16,
    ensures
        spec_hex_val(spec_hex_digit(n)) == n,
{
}

/// A string parse starting where an escaped string and its closing quote lie
/// recovers exactly the original characters.
proof fn lemma_sp_string_round_trip(t: Seq<char>, i: int, s: Seq<char>)
    requires
        0 <= i,
        i + spec_escape(s).len() + 1 <= t.len(),
        forall|k: int|
            0 <= k < spec_escape(s).len() + 1 ==> t[i + k] == (spec_escape(s) + seq!['"'])[k],
    ensures
        sp_string(t, i) == Some((s, i + spec_escape(s).len() + 1)),
    decreases s.len(),
{
    if s.len() == 0 {
        assert(t[i + 0] == (spec_escape(s) + seq!['"'])[0]);
        assert((spec_escape(s) + seq!['"'])[0] == '"');
        assert(t[i] == '"');
    } else {
        let c = s.first();
        let s1 = s.skip(1);
        let ec = spec_escape_char(c);
        let e1 = spec_escape(s1);
        let d = ec.len() as int;
        assert(spec_escape(s) == ec + e1);
        assert forall|k: int| 0 <= k < e1.len() + 1 implies t[i + d + k] == (e1 + seq!['"'])[k] by {
            assert(t[i + d + k] == (spec_escape(s) + seq!['"'])[d + k]);
            assert((spec_escape(s) + seq!['"'])[d + k] == (e1 + seq!['"'])[k]);
        }
        lemma_sp_string_round_trip(t, i + d, s1);
        assert(seq![c] + s1 =~= s);
        assert forall|k: int| 0 <= k < d implies t[i + k] == ec[k] by {
            assert(t[i + k] == (spec_escape(s) + seq!['"'])[k]);
            assert((spec_escape(s) + seq!['"'])[k] == ec[k]);
        }
        if is_short_escaped(c) {
            assert(t[i + 0] == ec[0]);
            assert(t[i] == '\\');
            assert(t[i + 1] == ec[1]);
            assert(t[i + 1] == short_escape_mark(c));
            assert(is_short_mark(short_escape_mark(c)));
            assert(short_unescape(short_escape_mark(c)) == c);
            assert(sp_string(t, i) == Some((s, i + spec_escape(s).len() + 1)));
        } else if (c as u32) < 0x20 {
            let cv = (c as u32) as int;
            assert(t[i + 0] == ec[0]);
            assert(t[i] == '\\');
            assert(t[i + 1] == ec[1]);
            assert(t[i + 1] == 'u');
            assert(t[i + 2] == ec[2]);
            assert(t[i + 3] == ec[3]);
            assert(t[i + 4] == ec[4]);
            assert(t[i + 5] == ec[5]);
            assert(!is_short_mark('u'));
            assert(t[i + 2] == '0');
            assert(t[i + 3] == '0');
            assert(t[i + 4] == spec_hex_digit(cv / 16));
            assert(t[i + 5] == spec_hex_digit(cv % 16));
            lemma_hex_round_trip(cv / 16);
            lemma_hex_round_trip(cv % 16);
            let v = 16 * spec_hex_val(t[i + 4]) + spec_hex_val(t[i + 5]);
            assert(v == cv);
            assert((v as u32) == c as u32);
            vstd::utf8::char_u32_cast(c, c as u32);
            assert(((v as u32) as char) == c);
            assert(sp_string(t, i) == Some((s, i + spec_escape(s).len() + 1)));
        } else {
            assert(t[i + 0] == ec[0]);
            assert(t[i] == c);
            assert(c != '"' && c != '\\');
            assert(sp_string(t, i) == Some((s, i + spec_escape(s).len() + 1)));
        }
    }
}

/// A record parse starting where an encoded record lies recovers exactly its
/// name and reference.
proof fn lemma_sp_entry_round_trip(t: Seq<char>, i: int, name: Seq<char>, fid: Seq<char>)
    requires
        0 <= i,
        i + spec_encode_entry(name, fid).len() <= t.len(),
        forall|k: int|
            0 <= k < spec_encode_entry(name, fid).len() ==> t[i + k] == spec_encode_entry(
                name,
                fid,
            )[k],
    ensures
        sp_entry(t, i) == Some(((name, fid), i + spec_encode_entry(name, fid).len())),
{
    reveal_strlit("{\"name\":\"");
    reveal_strlit("\",\"file_id\":\"");
    reveal_strlit(",\"file_id\":\"");
    reveal_strlit("\"}");
    reveal_strlit("}");
    let p1 = "{\"name\":\""@;
    let p2 = "\",\"file_id\":\""@;
    let p2t = ",\"file_id\":\""@;
    let p3 = "\"}"@;
    let e = spec_encode_entry(name, fid);
    let en = spec_escape(name);
    let ef = spec_escape(fid);
    assert(p1.len() == 9);
    assert(p2.len() == 13);
    assert(p2t.len() == 12);
    assert(p3.len() == 2);
    // the opening literal
    assert(t.subrange(i, i + 9) =~= p1) by {
        assert forall|k: int| 0 <= k < 9 implies t.subrange(i, i + 9)[k] == p1[k] by {
            assert(t[i + k] == e[k]);
            assert(e[k] == p1[k]);
        }
    }
    assert(sp_expect(t, i, p1) == Some(i + 9));
    // the name string with its closing quote (the first character of p2)
    let ni = i + 9;
    assert(p2[0] == '"');
    assert forall|k: int| 0 <= k < en.len() + 1 implies t[ni + k] == (en + seq!['"'])[k] by {
        assert(t[ni + k] == e[9 + k]);
        if k < en.len() {
            assert(e[9 + k] == en[k]);
        } else {
            assert(e[9 + k] == p2[0]);
        }
    }
    lemma_sp_string_round_trip(t, ni, name);
    let k0 = ni + en.len() + 1;
    // the middle literal, without the quote the string parse consumed
    assert(t.subrange(k0, k0 + 12) =~= p2t) by {
        assert forall|k: int| 0 <= k < 12 implies t.subrange(k0, k0 + 12)[k] == p2t[k] by {
            assert(t[k0 + k] == e[9 + en.len() + 1 + k]);
            assert(e[9 + en.len() + 1 + k] == p2[1 + k]);
            assert(p2[1 + k] == p2t[k]);
        }
    }
    assert(sp_expect(t, k0, p2t) == Some(k0 + 12));
    // the reference string with its closing quote (the first character of p3)
    let fi = k0 + 12;
    assert(p3[0] == '"');
    assert forall|k: int| 0 <= k < ef.len() + 1 implies t[fi + k] == (ef + seq!['"'])[k] by {
        assert(t[fi + k] == e[9 + en.len() + 13 + k]);
        if k < ef.len() {
            assert(e[9 + en.len() + 13 + k] == ef[k]);
        } else {
            assert(e[9 + en.len() + 13 + k] == p3[0]);
        }
    }
    lemma_sp_string_round_trip(t, fi, fid);
    let m0 = fi + ef.len() + 1;
    // the closing brace
    assert(t.subrange(m0, m0 + 1) =~= "}"@) by {
        assert(t[m0] == e[e.len() - 1]);
        assert(e[e.len() - 1] == p3[1]);
        assert(p3[1] == '}');
        assert("}"@[0] == '}');
    }
    assert(sp_expect(t, m0, "}"@) == Some(m0 + 1));
    assert(m0 + 1 == i + e.len());
}

/// An items parse starting where one or more encoded records lie, not
/// followed by a comma, recovers exactly those records.
proof fn lemma_sp_items_round_trip(t: Seq<char>, i: int, items: Seq<(Seq<char>, Seq<char>)>)
    requires
        items.len() >= 1,
        0 <= i,
        i + spec_encode_items(items).len() <= t.len(),
        forall|k: int|
            0 <= k < spec_encode_items(items).len() ==> t[i + k] == spec_encode_items(items)[k],
        i + spec_encode_items(items).len() < t.len() ==> t[i + spec_encode_items(items).len()]
            != ',',
    ensures
        sp_items(t, i) == Some((items, i + spec_encode_items(items).len())),
    decreases items.len(),
{
    let e0 = spec_encode_entry(items[0].0, items[0].1);
    let body = spec_encode_items(items);
    if items.len() == 1 {
        assert(body == e0);
        lemma_sp_entry_round_trip(t, i, items[0].0, items[0].1);
        let j = i + e0.len();
        assert(j < t.len() ==> t[j] != ',');
        assert(seq![items[0]] =~= items);
    } else {
        let rest = spec_encode_items(items.skip(1));
        assert(body == e0 + ","@ + rest);
        reveal_strlit(",");
        assert(","@.len() == 1);
        assert(","@[0] == ',');
        assert forall|k: int| 0 <= k < e0.len() implies t[i + k] == e0[k] by {
            assert(t[i + k] == body[k]);
            assert(body[k] == e0[k]);
        }
        lemma_sp_entry_round_trip(t, i, items[0].0, items[0].1);
        let j = i + e0.len();
        assert(t[j] == body[e0.len() as int]);
        assert(body[e0.len() as int] == ',');
        assert(j < t.len());
        assert forall|k: int| 0 <= k < rest.len() implies t[j + 1 + k] == rest[k] by {
            assert(t[j + 1 + k] == body[e0.len() + 1 + k]);
            assert(body[e0.len() + 1 + k] == rest[k]);
        }
        assert(j + 1 + rest.len() == i + body.len());
        lemma_sp_items_round_trip(t, j + 1, items.skip(1));
        assert(seq![items[0]] + items.skip(1) =~= items);
    }
}

/// Law of the file format: parsing what the encoder wrote recovers exactly
/// the records that were encoded.
pub proof fn lemma_codec_round_trip(items: Seq<(Seq<char>, Seq<char>)>)
    ensures
        sp_catalog(spec_encode_catalog(items)) == Some(items),
{
    reveal_strlit("[");
    reveal_strlit("]");
    let body = spec_encode_items(items);
    let t = spec_encode_catalog(items);
    assert(t =~= seq!['['] + body + seq![']']);
    assert(t[0] == '[');
    if items.len() == 0 {
        assert(body =~= Seq::<char>::empty());
        assert(t.len() == 2);
        assert(t[1] == ']');
    } else {
        reveal_strlit("{\"name\":\"");
        assert(spec_encode_entry(items[0].0, items[0].1).len() >= 9);
        assert(body.len() >= 9) by {
            if items.len() == 1 {
            } else {
                assert(body.len() >= spec_encode_entry(items[0].0, items[0].1).len());
            }
        }
        assert(t.len() > 2);
        assert forall|k: int| 0 <= k < body.len() implies t[1 + k] == body[k] by {}
        assert(t[1 + body.len() as int] == ']');
        lemma_sp_items_round_trip(t, 1, items);
        assert(sp_items(t, 1) == Some((items, 1 + body.len() as int)));
        assert(1 + body.len() as int == t.len() - 1);
    }
}

/// Parses a whole document: the records of the array, when the input is
/// exactly one encoded catalog.
pub open spec fn sp_catalog(t: Seq<char>) -> Option<Seq<(Seq<char>, Seq<char>)>> {
    if t.len() < 2 || t[0] != '[' {
        None
    } else if t.len() == 2 && t[1] == ']' {
        Some(Seq::empty())
    } else {
        match sp_items(t, 1) {
            Some((es, j)) => if j == t.len() - 1 && t[j] == ']' {
                Some(es)
            } else {
                None
            },
            None => None,
        }
    }
}

/// The value of a lower-case hexadecimal digit.
fn hex_val_char(c: char) -> (r: Option<u8>)
    ensures
        match r {
            Some(v) => v < 16 && spec_hex_val(c) == v as int,
            None => spec_hex_val(c) < 0,
        },
{
    if c == '0' {
        Some(0)
    } else if c == '1' {
        Some(1)
    } else if c == '2' {
        Some(2)
    } else if c == '3' {
        Some(3)
    } else if c == '4' {
        Some(4)
    } else if c == '5' {
        Some(5)
    } else if c == '6' {
        Some(6)
    } else if c == '7' {
        Some(7)
    } else if c == '8' {
        Some(8)
    } else if c == '9' {
        Some(9)
    } else if c == 'a' {
        Some(10)
    } else if c == 'b' {
        Some(11)
    } else if c == 'c' {
        Some(12)
    } else if c == 'd' {
        Some(13)
    } else if c == 'e' {
        Some(14)
    } else if c == 'f' {
        Some(15)
    } else {
        None
    }
}

/// Advances past a fixed text when the input carries it at `i`.
fn expect_lit(text: &str, i: usize, lit: &str) -> (r: Option<usize>)
    ensures
        match r {
            Some(j) => sp_expect(text@, i as int, lit@) == Some(j as int) && i <= j <= text@.len(),
            None => sp_expect(text@, i as int, lit@) is None,
        },
{
    let n = text.unicode_len();
    let nl = lit.unicode_len();
    if i > n || n - i < nl {
        return None;
    }
    let mut k: usize = 0;
    while k < nl
        invariant
            k <= nl,
            i + nl <= n,
            n == text@.len(),
            nl == lit@.len(),
            forall|m: int| 0 <= m < k ==> text@[i + m] == lit@[m],
        decreases nl - k,
    {
        if text.get_char(i + k) != lit.get_char(k) {
            assert(text@.subrange(i as int, i + nl)[k as int] != lit@[k as int]);
            return None;
        }
        k = k + 1;
    }
    assert(text@.subrange(i as int, i + nl) =~= lit@);
    Some(i + nl)
}

/// Parses an encoded string from just after its opening quote: the decoded
/// characters and the position after the closing quote.
fn parse_string_at(text: &str, i: usize) -> (r: Option<(String, usize)>)
    requires
        i <= text@.len(),
    ensures
        match r {
            Some((s, j)) => sp_string(text@, i as int) == Some((s@, j as int)) && i < j
                <= text@.len(),
            None => sp_string(text@, i as int) is None,
        },
{
    let ghost t = text@;
    let n = text.unicode_len();
    let mut acc = String::new();
    let mut pos: usize = i;
    assert(acc@ =~= Seq::<char>::empty());
    loop
        invariant
            i <= pos <= n,
            n == t.len(),
            t == text@,
            match sp_string(t, pos as int) {
                Some((s, j)) => sp_string(t, i as int) == Some((acc@ + s, j)),
                None => sp_string(t, i as int) is None,
            },
        decreases n - pos,
    {
        if pos >= n {
            return None;
        }
        let c = text.get_char(pos);
        if c == '"' {
            assert(acc@ + Seq::<char>::empty() =~= acc@);
            return Some((acc, pos + 1));
        }
        if c == '\\' {
            if pos + 1 >= n {
                return None;
            }
            let m = text.get_char(pos + 1);
            if m == '"' || m == '\\' || m == 'b' || m == 'f' || m == 'n' || m == 'r' || m == 't' {
                let u = if m == '"' {
                    '"'
                } else if m == '\\' {
                    '\\'
                } else if m == 'b' {
                    '\u{8}'
                } else if m == 'f' {
                    '\u{c}'
                } else if m == 'n' {
                    '\n'
                } else if m == 'r' {
                    '\r'
                } else {
                    '\t'
                };
                assert(u == short_unescape(m));
                let ghost acc_old = acc@;
                push_char(&mut acc, u);
                proof {
                    if let Some((s, j)) = sp_string(t, pos + 2) {
                        assert(acc_old + (seq![u] + s) =~= acc@ + s);
                    }
                }
                pos = pos + 2;
            } else if m == 'u' {
                if n - pos <= 5 {
                    return None;
                }
                if text.get_char(pos + 2) != '0' || text.get_char(pos + 3) != '0' {
                    return None;
                }
                let h1 = match hex_val_char(text.get_char(pos + 4)) {
                    Some(v) => v,
                    None => {
                        return None;
                    },
                };
                let h2 = match hex_val_char(text.get_char(pos + 5)) {
                    Some(v) => v,
                    None => {
                        return None;
                    },
                };
                let v = 16 * h1 + h2;
                if v >= 0x20 {
                    return None;
                }
                let ch = char_from_byte(v);
                assert(ch == (((16 * spec_hex_val(t[pos + 4]) + spec_hex_val(t[pos + 5])) as u32)
                    as char));
                if ch == '"' || ch == '\\' || ch == '\u{8}' || ch == '\u{c}' || ch == '\n' || ch
                    == '\r' || ch == '\t' {
                    return None;
                }
                let ghost acc_old = acc@;
                push_char(&mut acc, ch);
                proof {
                    if let Some((s, j)) = sp_string(t, pos + 6) {
                        assert(acc_old + (seq![ch] + s) =~= acc@ + s);
                    }
                }
                pos = pos + 6;
            } else {
                return None;
            }
        } else if (c as u32) < 0x20 {
            return None;
        } else {
            let ghost acc_old = acc@;
            push_char(&mut acc, c);
            proof {
                if let Some((s, j)) = sp_string(t, pos + 1) {
                    assert(acc_old + (seq![c] + s) =~= acc@ + s);
                }
            }
            pos = pos + 1;
        }
    }
}

/// Parses one encoded record: the entry and the position after its closing
/// brace.
fn parse_entry_at(text: &str, i: usize) -> (r: Option<(StickerEntry, usize)>)
    requires
        i <= text@.len(),
    ensures
        match r {
            Some((e, j)) => sp_entry(text@, i as int) == Some(((e.name@, e.file_id@), j as int))
                && i < j <= text@.len(),
            None => sp_entry(text@, i as int) is None,
        },
{
    let j = match expect_lit(text, i, "{\"name\":\"") {
        Some(j) => j,
        None => {
            return None;
        },
    };
    let (name, k) = match parse_string_at(text, j) {
        Some(x) => x,
        None => {
            return None;
        },
    };
    let l = match expect_lit(text, k, ",\"file_id\":\"") {
        Some(l) => l,
        None => {
            return None;
        },
    };
    let (file_id, m) = match parse_string_at(text, l) {
        Some(x) => x,
        None => {
            return None;
        },
    };
    let end = match expect_lit(text, m, "}") {
        Some(end) => end,
        None => {
            return None;
        },
    };
    Some((StickerEntry::new(name, file_id), end))
}

/// Parses a whole durable document back into the entry list. Succeeds exactly
/// on the encoder's outputs: for any list, parsing its encoding returns that
/// list ([`lemma_codec_round_trip`]), and anything else is refused.
pub fn parse_catalog(text: &str) -> (r: Result<Vec<StickerEntry>, RepoError>)
    ensures
        match r {
            Ok(es) => sp_catalog(text@) == Some(catalog_view(es@)),
            Err(e) => sp_catalog(text@) is None && e == RepoError::ReadJSONError,
        },
{
    let ghost t = text@;
    let n = text.unicode_len();
    if n < 2 {
        return Err(RepoError::ReadJSONError);
    }
    if text.get_char(0) != '[' {
        return Err(RepoError::ReadJSONError);
    }
    if n == 2 {
        if text.get_char(1) == ']' {
            let out: Vec<StickerEntry> = Vec::new();
            assert(catalog_view(out@) =~= Seq::<(Seq<char>, Seq<char>)>::empty());
            return Ok(out);
        } else {
            proof {
                reveal_strlit("{\"name\":\"");
            }
            return Err(RepoError::ReadJSONError);
        }
    }
    let mut out: Vec<StickerEntry> = Vec::new();
    let mut pos: usize = 1;
    assert(catalog_view(out@) =~= Seq::<(Seq<char>, Seq<char>)>::empty());
    loop
        invariant
            1 <= pos <= n,
            n == t.len(),
            t == text@,
            n > 2,
            t[0] == '[',
            match sp_items(t, pos as int) {
                Some((es, j)) => sp_items(t, 1) == Some((catalog_view(out@) + es, j)),
                None => sp_items(t, 1) is None,
            },
        decreases n - pos,
    {
        let (entry, j) = match parse_entry_at(text, pos) {
            Some(x) => x,
            None => {
                return Err(RepoError::ReadJSONError);
            },
        };
        let ghost pair = (entry.name@, entry.file_id@);
        if j < n && text.get_char(j) == ',' {
            let ghost out_old = catalog_view(out@);
            out.push(entry);
            proof {
                assert(catalog_view(out@) =~= out_old.push(pair));
                if let Some((es, k)) = sp_items(t, j + 1) {
                    assert(out_old + (seq![pair] + es) =~= catalog_view(out@) + es);
                }
            }
            pos = j + 1;
        } else {
            let ghost out_old = catalog_view(out@);
            out.push(entry);
            proof {
                assert(catalog_view(out@) =~= out_old.push(pair));
                assert(sp_items(t, pos as int) == Some((seq![pair], j as int)));
                assert(out_old + seq![pair] =~= catalog_view(out@));
            }
            if j == n - 1 && text.get_char(j) == ']' {
                return Ok(out);
            }
            return Err(RepoError::ReadJSONError);
        }
    }
}

} // verus!
