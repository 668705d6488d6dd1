//! A bounded history of successful generations, used for best-effort
//! provider attribution: which provider produced a given text.

use vstd::prelude::*;
use std::collections::VecDeque;
use crate::common::Model;
use crate::utils::str_eq;

verus! {

/// How many successful generations the history keeps by default.
pub const HISTORY_CAPACITY: usize = 20;

/// One successful generation: which provider produced which text.
#[derive(Debug, Clone)]
pub struct HistoryEntry {
    pub model: Model,
    pub message: String,
}

impl HistoryEntry {
    /// The entry as a plain pair: the provider and the characters of the text.
    pub open spec fn view_pair(self) -> (Model, Seq<char>) {
        (self.model, self.message@)
    }

    pub fn new(model: Model, message: String) -> (r: Self)
        ensures
            r.model == model,
            r.message == message,
    {
        HistoryEntry { model, message }
    }
}

/// The abstract content of the buffer: provider and text of each entry,
/// oldest first.
pub open spec fn history_view_of(s: Seq<HistoryEntry>) -> Seq<(Model, Seq<char>)> {
    Seq::new(s.len(), |i: int| s[i].view_pair())
}

/// What the buffer holds after an entry is recorded: the entry is appended,
/// and the oldest entry leaves when the buffer is at capacity.
pub open spec fn push_evict(
    s: Seq<(Model, Seq<char>)>,
    e: (Model, Seq<char>),
    capacity: nat,
) -> Seq<(Model, Seq<char>)> {
    if s.len() < capacity {
        s.push(e)
    } else {
        s.skip(1).push(e)
    }
}

/// The attribution lookup: the provider of the newest entry whose text equals
/// `text`, or `None` when no entry matches.
pub open spec fn spec_lookup(s: Seq<(Model, Seq<char>)>, text: Seq<char>) -> Option<Model>
    decreases s.len(),
{
    if s.len() == 0 {
        None
    } else if s.last().1 == text {
        Some(s.last().0)
    } else {
        spec_lookup(s.drop_last(), text)
    }
}

/// A fixed-capacity ring of the most recent successful generations; the
/// oldest entry is evicted when a new one arrives at capacity.
pub struct MessageHistoryStorage {
    storage: VecDeque<HistoryEntry>,
    capacity: usize,
}

impl MessageHistoryStorage {
    /// The recorded entries, oldest first.
    pub closed spec fn entries(self) -> Seq<(Model, Seq<char>)> {
        history_view_of(self.storage@)
    }

    pub closed spec fn spec_capacity(self) -> nat {
        self.capacity as nat
    }

    /// The buffer never exceeds its capacity, which is at least one.
    pub closed spec fn wf(self) -> bool {
        self.storage@.len() <= self.capacity && self.capacity >= 1
    }

    pub fn new() -> (r: Self)
        ensures
            r.entries() == Seq::<(Model, Seq<char>)>::empty(),
            r.spec_capacity() == HISTORY_CAPACITY as nat,
            r.wf(),
    {
        let r = MessageHistoryStorage { storage: VecDeque::new(), capacity: HISTORY_CAPACITY };
        assert(r.entries() =~= Seq::<(Model, Seq<char>)>::empty());
        r
    }

    /// A history with a chosen capacity.
    pub fn with_capacity(capacity: usize) -> (r: Self)
        requires
            capacity >= 1,
        ensures
            r.entries() == Seq::<(Model, Seq<char>)>::empty(),
            r.spec_capacity() == capacity as nat,
            r.wf(),
    {
        let r = MessageHistoryStorage { storage: VecDeque::new(), capacity };
        assert(r.entries() =~= Seq::<(Model, Seq<char>)>::empty());
        r
    }

    /// Records one successful generation, evicting the oldest entry when the
    /// buffer is full.
    pub fn add_message(&mut self, message: HistoryEntry)
        requires
            old(self).wf(),
        ensures
            final(self).wf(),
            final(self).entries() == push_evict(
                old(self).entries(),
                message.view_pair(),
                old(self).spec_capacity(),
            ),
            final(self).spec_capacity() == old(self).spec_capacity(),
    {
        let ghost before = self.storage@;
        if self.storage.len() == self.capacity {
            self.storage.pop_front();
            assert(history_view_of(self.storage@) =~= history_view_of(before).skip(1));
        }
        let ghost mid = self.storage@;
        self.storage.push_back(message);
        assert(history_view_of(self.storage@) =~= history_view_of(mid).push(
            message.view_pair(),
        ));
    }

    /// The provider of the newest recorded entry whose text equals `message`.
    pub fn get_message_info(&self, message: &str) -> (r: Option<Model>)
        ensures
            r == spec_lookup(self.entries(), message@),
    {
        let n = self.storage.len();
        let mut i: usize = n;
        assert(self.entries().take(n as int) =~= self.entries());
        while i > 0
            invariant
                i <= n,
                n == self.storage@.len(),
                spec_lookup(self.entries(), message@) == spec_lookup(
                    self.entries().take(i as int),
                    message@,
                ),
            decreases i,
        {
            i = i - 1;
            let entry = &self.storage[i];
            if str_eq(entry.message.as_str(), message) {
                assert(self.entries().take(i + 1).last() == self.entries()[i as int]);
                return Some(entry.model);
            }
            assert(self.entries().take(i + 1).drop_last() =~= self.entries().take(i as int));
        }
        None
    }
}

/// The buffer after a whole run of recordings, oldest recording first.
pub open spec fn record_all(
    s: Seq<(Model, Seq<char>)>,
    es: Seq<(Model, Seq<char>)>,
    capacity: nat,
) -> Seq<(Model, Seq<char>)>
    decreases es.len(),
{
    if es.len() == 0 {
        s
    } else {
        record_all(push_evict(s, es.first(), capacity), es.skip(1), capacity)
    }
}

/// A lookup misses when no entry carries the text.
pub proof fn lemma_lookup_none(s: Seq<(Model, Seq<char>)>, text: Seq<char>)
    requires
        forall|i: int| 0 <= i < s.len() ==> (#[trigger] s[i]).1 != text,
    ensures
        spec_lookup(s, text) == None::<Model>,
    decreases s.len(),
{
    if s.len() > 0 {
        lemma_lookup_none(s.drop_last(), text);
    }
}

/// Entries recorded on top that do not carry the text leave a lookup
/// unchanged.
pub proof fn lemma_lookup_append_no_match(
    s: Seq<(Model, Seq<char>)>,
    es: Seq<(Model, Seq<char>)>,
    text: Seq<char>,
)
    requires
        forall|i: int| 0 <= i < es.len() ==> (#[trigger] es[i]).1 != text,
    ensures
        spec_lookup(s + es, text) == spec_lookup(s, text),
    decreases es.len(),
{
    if es.len() == 0 {
        assert(s + es =~= s);
    } else {
        assert((s + es).drop_last() =~= s + es.drop_last());
        lemma_lookup_append_no_match(s, es.drop_last(), text);
    }
}

/// After a whole run of recordings, the buffer holds exactly the newest
/// entries of the run laid over what was there before, clipped to capacity.
pub proof fn lemma_record_all_shape(
    s: Seq<(Model, Seq<char>)>,
    es: Seq<(Model, Seq<char>)>,
    capacity: nat,
)
    requires
        s.len() <= capacity,
        capacity >= 1,
    ensures
        record_all(s, es, capacity) =~= ((s + es).skip(
            if s.len() + es.len() <= capacity {
                0
            } else {
                s.len() + es.len() - capacity
            },
        )),
    decreases es.len(),
{
    if es.len() == 0 {
        assert(s + es =~= s);
    } else {
        let s2 = push_evict(s, es.first(), capacity);
        lemma_record_all_shape(s2, es.skip(1), capacity);
        if s.len() < capacity {
            assert(s2 + es.skip(1) =~= s + es);
        } else {
            assert(s2 + es.skip(1) =~= (s + es).skip(1));
        }
    }
}

/// Law of history attribution: right after a successful generation is
/// recorded, looking its text up attributes it to the recording provider.
pub proof fn lemma_history_attribution(
    s: Seq<(Model, Seq<char>)>,
    e: (Model, Seq<char>),
    capacity: nat,
)
    ensures
        spec_lookup(push_evict(s, e, capacity), e.1) == Some(e.0),
{
}

/// Law of history retention: while an attributed entry has not been evicted —
/// fewer further recordings than free capacity, none of them carrying the
/// same text — the lookup still answers with its provider.
pub proof fn lemma_history_retention(
    s: Seq<(Model, Seq<char>)>,
    es: Seq<(Model, Seq<char>)>,
    capacity: nat,
    text: Seq<char>,
)
    requires
        s.len() + es.len() <= capacity,
        capacity >= 1,
        forall|i: int| 0 <= i < es.len() ==> (#[trigger] es[i]).1 != text,
    ensures
        spec_lookup(record_all(s, es, capacity), text) == spec_lookup(s, text),
{
    lemma_record_all_shape(s, es, capacity);
    assert((s + es).skip(0) =~= s + es);
    lemma_lookup_append_no_match(s, es, text);
}

/// Law of history eviction: once at least `capacity` further generations have
/// been recorded, none of them carrying the text, the lookup no longer finds
/// it.
pub proof fn lemma_history_eviction(
    s: Seq<(Model, Seq<char>)>,
    es: Seq<(Model, Seq<char>)>,
    capacity: nat,
    text: Seq<char>,
)
    requires
        s.len() <= capacity,
        1 <= capacity <= es.len(),
        forall|i: int| 0 <= i < es.len() ==> (#[trigger] es[i]).1 != text,
    ensures
        spec_lookup(record_all(s, es, capacity), text) == None::<Model>,
{
    lemma_record_all_shape(s, es, capacity);
    let result = record_all(s, es, capacity);
    let cut = s.len() + es.len() - capacity;
    assert forall|i: int| 0 <= i < result.len() implies (#[trigger] result[i]).1 != text by {
        assert(result[i] == (s + es)[cut + i]);
        assert(cut + i >= s.len());
        assert((s + es)[cut + i] == es[cut + i - s.len()]);
    }
    lemma_lookup_none(result, text);
}

} // verus!
