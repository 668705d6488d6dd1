//! Small verified helpers: string comparison and ordering, decimal
//! formatting, and the friday countdown.

use vstd::prelude::*;
use chrono::{Datelike, Timelike};

verus! {

/// The decimal digit of a value below ten.
pub open spec fn spec_dec_digit(n: int) -> char {
    if n == 0 {
        '0'
    } else if n == 1 {
        '1'
    } else if n == 2 {
        '2'
    } else if n == 3 {
        '3'
    } else if n == 4 {
        '4'
    } else if n == 5 {
        '5'
    } else if n == 6 {
        '6'
    } else if n == 7 {
        '7'
    } else if n == 8 {
        '8'
    } else {
        '9'
    }
}

/// The decimal notation of a number, most significant digit first.
pub open spec fn spec_digits(n: nat) -> Seq<char>
    decreases n,
{
    if n < 10 {
        seq![spec_dec_digit(n as int)]
    } else {
        spec_digits(n / 10) + seq![spec_dec_digit((n % 10) as int)]
    }
}

/// The decimal digit of a value below ten.
fn dec_digit_char(n: u8) -> (r: char)
    requires
        n < 10,
    ensures
        r == spec_dec_digit(n as int),
{
    if n == 0 {
        '0'
    } else if n == 1 {
        '1'
    } else if n == 2 {
        '2'
    } else if n == 3 {
        '3'
    } else if n == 4 {
        '4'
    } else if n == 5 {
        '5'
    } else if n == 6 {
        '6'
    } else if n == 7 {
        '7'
    } else if n == 8 {
        '8'
    } else {
        '9'
    }
}

/// Writes a number in decimal.
pub fn u64_to_string(n: u64) -> (r: String)
    ensures
        r@ == spec_digits(n as nat),
    decreases n,
{
    if n < 10 {
        let mut s = String::new();
        push_char(&mut s, dec_digit_char(n as u8));
        assert(s@ =~= seq![spec_dec_digit(n as int)]);
        s
    } else {
        let mut s = u64_to_string(n / 10);
        push_char(&mut s, dec_digit_char((n % 10) as u8));
        assert(s@ =~= spec_digits((n / 10) as nat) + seq![spec_dec_digit((n % 10) as int)]);
        s
    }
}

/// The moment "now" in Moscow, reduced to what the countdown reads: the
/// weekday (1 is Monday, 7 is Sunday) and the seconds passed since midnight.
#[derive(Debug, Clone, Copy)]
pub struct MoscowNow {
    pub weekday_from_monday: u8,
    pub secs_into_day: u32,
}

impl MoscowNow {
    pub open spec fn wf(self) -> bool {
        1 <= self.weekday_from_monday <= 7 && self.secs_into_day < 86400
    }
}

/// Relies on chrono's `Utc::now` taken into chrono-tz's Moscow time zone:
/// whatever the moment, the weekday number from Monday lies in 1..=7 and the
/// seconds into the day below 86400.
#[verifier::external_body]
pub fn moscow_now() -> (r: MoscowNow)
    ensures
        r.wf(),
{
    let now = chrono::Utc::now().with_timezone(&chrono_tz::Europe::Moscow);
    MoscowNow {
        weekday_from_monday: now.weekday().number_from_monday() as u8,
        secs_into_day: now.time().num_seconds_from_midnight(),
    }
}

/// A time span, split for display.
#[derive(Debug, Clone, Copy, PartialEq, Eq, Structural)]
pub struct TimeDelta {
    pub days: u64,
    pub hours: u64,
    pub minutes: u64,
}

/// Whole days to wait until the next Friday; zero on a Friday itself.
pub open spec fn spec_days_to_friday(weekday: int) -> int {
    (5 + 7 - weekday) % 7
}

/// The time remaining until the next Friday's midnight, or `None` on a
/// Friday.
pub fn get_time_until_friday(now: &MoscowNow) -> (r: Option<TimeDelta>)
    requires
        now.wf(),
    ensures
        match r {
            None => now.weekday_from_monday == 5,
            Some(td) => {
                let rem = spec_days_to_friday(now.weekday_from_monday as int) * 86400
                    - now.secs_into_day;
                &&& now.weekday_from_monday != 5
                &&& td.days == rem / 86400
                &&& td.hours == (rem % 86400) / 3600
                &&& td.minutes == (rem % 3600) / 60
            },
        },
{
    let wd = now.weekday_from_monday as u64;
    let days_to_add = (5 + 7 - wd) % 7;
    if days_to_add == 0 {
        return None;
    }
    let rem = days_to_add * 86400 - (now.secs_into_day as u64);
    Some(
        TimeDelta {
            days: rem / 86400,
            hours: (rem % 86400) / 3600,
            minutes: (rem % 3600) / 60,
        },
    )
}

/// What `format_time_delta` writes.
pub open spec fn spec_time_delta_text(td: TimeDelta) -> Seq<char> {
    spec_digits(td.days as nat) + " дней, "@ + spec_digits(td.hours as nat) + " часов, "@
        + spec_digits(td.minutes as nat) + " минут"@
}

/// Writes a time span as days, hours and minutes.
pub fn format_time_delta(td: &TimeDelta) -> (r: String)
    ensures
        r@ == spec_time_delta_text(*td),
{
    let mut s = u64_to_string(td.days);
    s.append(" дней, ");
    let hours = u64_to_string(td.hours);
    s.append(hours.as_str());
    s.append(" часов, ");
    let minutes = u64_to_string(td.minutes);
    s.append(minutes.as_str());
    s.append(" минут");
    s
}

/// Lexicographic order on character sequences, by code point.
pub open spec fn lex_le(a: Seq<char>, b: Seq<char>) -> bool
    decreases a.len(),
{
    if a.len() == 0 {
        true
    } else if b.len() == 0 {
        false
    } else if a.first() == b.first() {
        lex_le(a.skip(1), b.skip(1))
    } else {
        (a.first() as u32) < (b.first() as u32)
    }
}

/// The order is total: one of the two directions always holds.
pub proof fn lemma_lex_le_total(a: Seq<char>, b: Seq<char>)
    ensures
        lex_le(a, b) || lex_le(b, a),
    decreases a.len(),
{
    if a.len() > 0 && b.len() > 0 {
        if a.first() == b.first() {
            lemma_lex_le_total(a.skip(1), b.skip(1));
        } else {
            vstd::utf8::char_u32_cast(a.first(), a.first() as u32);
            vstd::utf8::char_u32_cast(b.first(), b.first() as u32);
            assert((a.first() as u32) != (b.first() as u32));
        }
    }
}

/// The order is transitive.
pub proof fn lemma_lex_le_trans(a: Seq<char>, b: Seq<char>, c: Seq<char>)
    requires
        lex_le(a, b),
        lex_le(b, c),
    ensures
        lex_le(a, c),
    decreases a.len(),
{
    if a.len() > 0 && b.len() > 0 && c.len() > 0 && a.first() == b.first() && b.first()
        == c.first() {
        lemma_lex_le_trans(a.skip(1), b.skip(1), c.skip(1));
    }
}

/// A shared prefix changes nothing about the order.
pub proof fn lemma_lex_le_prefix(p: Seq<char>, a: Seq<char>, b: Seq<char>)
    ensures
        lex_le(p + a, p + b) == lex_le(a, b),
    decreases p.len(),
{
    if p.len() == 0 {
        assert(p + a =~= a);
        assert(p + b =~= b);
    } else {
        assert((p + a).first() == p.first());
        assert((p + b).first() == p.first());
        assert((p + a).skip(1) =~= p.skip(1) + a);
        assert((p + b).skip(1) =~= p.skip(1) + b);
        lemma_lex_le_prefix(p.skip(1), a, b);
    }
}

/// Relies on std's `<=` for `&str`, which orders by bytes; UTF-8 byte order
/// coincides with code-point order, so this is `lex_le` on the characters.
#[verifier::external_body]
pub fn str_le(a: &str, b: &str) -> (r: bool)
    ensures
        r == lex_le(a@, b@),
{
    a <= b
}

/// Whether the names stand in ascending order: every earlier one is at most
/// every later one.
pub open spec fn sorted_by_name(s: Seq<String>) -> bool {
    forall|i: int, j: int| 0 <= i < j < s.len() ==> lex_le((#[trigger] s[i])@, (#[trigger] s[j])@)
}

/// Sorts the names in place, by insertion, keeping exactly the same names.
pub fn sort_names(v: &mut Vec<String>)
    ensures
        sorted_by_name(final(v)@),
        final(v)@.to_multiset() == old(v)@.to_multiset(),
{
    broadcast use vstd::seq_lib::group_to_multiset_ensures, vstd::seq_lib::to_multiset_insert;

    let n = v.len();
    if n == 0 {
        return ;
    }
    let mut i: usize = 1;
    while i < n
        invariant
            1 <= i <= n,
            n == v@.len(),
            sorted_by_name(v@.take(i as int)),
            v@.to_multiset() == old(v)@.to_multiset(),
        decreases n - i,
    {
        proof {
            assert forall|a: int, b: int| 0 <= a < b < i implies lex_le(
                (#[trigger] v@[a])@,
                (#[trigger] v@[b])@,
            ) by {
                assert(v@.take(i as int)[a] == v@[a]);
                assert(v@.take(i as int)[b] == v@[b]);
            }
        }
        let mut j: usize = i;
        while j > 0 && !str_le(v[j - 1].as_str(), v[j].as_str())
            invariant
                j <= i < n,
                n == v@.len(),
                v@.to_multiset() == old(v)@.to_multiset(),
                // before j: pairwise ascending
                forall|a: int, b: int|
                    0 <= a < b < j ==> lex_le((#[trigger] v@[a])@, (#[trigger] v@[b])@),
                // from j to i: pairwise ascending
                forall|a: int, b: int|
                    j <= a < b <= i ==> lex_le((#[trigger] v@[a])@, (#[trigger] v@[b])@),
                // across the gap, skipping position j itself
                forall|a: int, b: int|
                    0 <= a < j < b <= i ==> lex_le((#[trigger] v@[a])@, (#[trigger] v@[b])@),
            decreases j,
        {
            proof {
                lemma_lex_le_total(v@[j - 1]@, v@[j as int]@);
            }
            let ghost before = v@;
            let moved = v.remove(j - 1);
            let ghost mid = v@;
            v.insert(j, moved);
            proof {
                assert(v@ =~= before.update(j - 1, before[j as int]).update(
                    j as int,
                    before[j - 1],
                ));
                broadcast use vstd::multiset::group_multiset_axioms;

                before.to_multiset_ensures();
                assert(before.contains(before[j - 1]));
                assert(before.to_multiset().count(before[j - 1]) > 0);
                vstd::seq_lib::to_multiset_remove(before, j - 1);
                vstd::seq_lib::to_multiset_insert(mid, j as int, before[j - 1]);
                assert(v@.to_multiset() =~= before.to_multiset());
            }
            j = j - 1;
        }
        proof {
            if j > 0 {
                assert(lex_le(v@[j - 1]@, v@[j as int]@));
            }
            assert forall|a: int, b: int| 0 <= a < b <= i implies lex_le(
                (#[trigger] v@[a])@,
                (#[trigger] v@[b])@,
            ) by {
                if b == j as int && a < j - 1 {
                    lemma_lex_le_trans(v@[a]@, v@[j - 1]@, v@[j as int]@);
                } else if a == j as int || b < j as int || (j < a) || (a < j && j < b) || (a == j
                    - 1 && b == j as int) {
                }
            }
            assert(sorted_by_name(v@.take(i + 1)));
        }
        i = i + 1;
    }
    assert(v@.take(n as int) =~= v@);
}

/// Relies on std's `String::push`: it appends exactly the one character.
#[verifier::external_body]
pub fn push_char(s: &mut String, c: char)
    ensures
        final(s)@ == old(s)@.push(c),
{
    s.push(c);
}

/// The character of a byte below 0x80: the scalar value of the same number.
pub fn char_from_byte(v: u8) -> (r: char)
    requires
        v < 0x80,
    ensures
        r == ((v as u32) as char),
{
    v as char
}

/// Whether the character is one of the blanks a name may not consist of.
pub open spec fn is_space_char(c: char) -> bool {
    c == ' ' || c == '\t' || c == '\n' || c == '\r'
}

/// Whether the text holds nothing but blanks.
pub open spec fn is_blank(s: Seq<char>) -> bool {
    forall|i: int| 0 <= i < s.len() ==> is_space_char(#[trigger] s[i])
}

/// Whether the text holds nothing but blanks.
pub fn str_is_blank(s: &str) -> (r: bool)
    ensures
        r == is_blank(s@),
{
    let n = s.unicode_len();
    let mut i: usize = 0;
    while i < n
        invariant
            i <= n,
            n == s@.len(),
            forall|j: int| 0 <= j < i ==> is_space_char(#[trigger] s@[j]),
        decreases n - i,
    {
        let c = s.get_char(i);
        if !(c == ' ' || c == '\t' || c == '\n' || c == '\r') {
            return false;
        }
        i = i + 1;
    }
    true
}

/// Whether two string slices hold the same characters.
pub fn str_eq(a: &str, b: &str) -> (r: bool)
    ensures
        r == (a@ == b@),
{
    let an = a.unicode_len();
    let bn = b.unicode_len();
    if an != bn {
        assert(a@ != b@);
        return false;
    }
    let mut i: usize = 0;
    while i < an
        invariant
            i <= an,
            an == a@.len(),
            an == b@.len(),
            forall|j: int| 0 <= j < i ==> a@[j] == b@[j],
        decreases an - i,
    {
        if a.get_char(i) != b.get_char(i) {
            return false;
        }
        i = i + 1;
    }
    assert(a@ =~= b@);
    true
}

} // verus!
