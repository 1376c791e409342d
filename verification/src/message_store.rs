//! The in-memory map of `fingerprint → (Zulip message id, insertion time)`.
//!
//! - On the first update for a fingerprint the service posts a new Zulip
//!   message and stores its id here.
//! - On every later update the service edits the stored message instead.
//! - Entries older than the configured TTL are evicted, so that the next
//!   update opens a fresh message.
//!
//! Times are whole units of a monotonic clock chosen by the caller (the
//! service uses seconds since start-up).  Sharing the store between tasks
//! is the caller's concern.

use vstd::prelude::*;
use crate::text::str_eq;

verus! {

/// One stored mapping.
#[derive(Debug)]
pub struct StoredMessage {
    pub fingerprint: String,
    pub message_id: u64,
    pub inserted_at: u64,
}

/// Fingerprint → (message id, insertion time).  No fingerprint occurs
/// twice.
pub struct MessageStore {
    entries: Vec<StoredMessage>,
}

/// The fingerprints of a list of entries.
pub open spec fn keys_of(s: Seq<StoredMessage>) -> Seq<Seq<char>> {
    s.map_values(|e: StoredMessage| e.fingerprint@)
}

/// The map that a duplicate-free list of entries denotes.
pub open spec fn map_of(s: Seq<StoredMessage>) -> Map<Seq<char>, (u64, u64)> {
    Map::new(
        |k: Seq<char>| keys_of(s).contains(k),
        |k: Seq<char>|
            {
                let i = keys_of(s).index_of(k);
                (s[i].message_id, s[i].inserted_at)
            },
    )
}

/// An entry inserted at `inserted_at` has been stored for no longer than
/// `ttl` at time `now` (the elapsed time saturates at zero).
pub open spec fn is_fresh(inserted_at: u64, now: u64, ttl: u64) -> bool {
    (if now >= inserted_at {
        now - inserted_at
    } else {
        0
    }) <= ttl
}

/// The entries of `m` that are still fresh at `now`.
pub open spec fn fresh_entries(m: Map<Seq<char>, (u64, u64)>, now: u64, ttl: u64) -> Map<Seq<char>, (u64, u64)> {
    Map::new(|k: Seq<char>| m.contains_key(k) && is_fresh(m[k].1, now, ttl), |k: Seq<char>| m[k])
}

impl View for MessageStore {
    type V = Map<Seq<char>, (u64, u64)>;

    closed spec fn view(&self) -> Map<Seq<char>, (u64, u64)> {
        map_of(self.entries@)
    }
}

/// In a duplicate-free list, the entry at `i` is what the map holds for its
/// fingerprint.
proof fn lemma_map_of_at(s: Seq<StoredMessage>, i: int)
    requires
        keys_of(s).no_duplicates(),
        0 <= i < s.len(),
    ensures
        map_of(s).contains_key(s[i].fingerprint@),
        map_of(s)[s[i].fingerprint@] == (s[i].message_id, s[i].inserted_at),
{
    let k = s[i].fingerprint@;
    assert(keys_of(s)[i] == k);
    assert(keys_of(s).contains(k));
    let j = keys_of(s).index_of(k);
    assert(keys_of(s)[j] == k);
}

/// The map of a duplicate-free list has as many keys as the list has entries.
proof fn lemma_map_of_len(s: Seq<StoredMessage>)
    requires
        keys_of(s).no_duplicates(),
    ensures
        map_of(s).dom().finite(),
        map_of(s).len() == s.len(),
{
    keys_of(s).unique_seq_to_set();
    assert(map_of(s).dom() =~= keys_of(s).to_set());
}

/// Creates a new, empty store.
pub fn new() -> (r: MessageStore)
    ensures
        r@ == Map::<Seq<char>, (u64, u64)>::empty(),
{
    let r = MessageStore { entries: Vec::new() };
    assert(r@ =~= Map::<Seq<char>, (u64, u64)>::empty());
    r
}

impl MessageStore {
    #[verifier::type_invariant]
    spec fn keys_unique(self) -> bool {
        keys_of(self.entries@).no_duplicates()
    }

    /// The index of the entry with the fingerprint, if any.
    fn find(&self, fingerprint: &str) -> (r: Option<usize>)
        ensures
            match r {
                Some(i) => i < self.entries@.len() && self.entries@[i as int].fingerprint@ == fingerprint@,
                None => !keys_of(self.entries@).contains(fingerprint@),
            },
    {
        let mut i: usize = 0;
        while i < self.entries.len()
            invariant
                i <= self.entries.len(),
                forall|j: int| 0 <= j < i ==> self.entries@[j].fingerprint@ != fingerprint@,
            decreases self.entries.len() - i,
        {
            if str_eq(self.entries[i].fingerprint.as_str(), fingerprint) {
                return Some(i);
            }
            i += 1;
        }
        assert forall|j: int| 0 <= j < keys_of(self.entries@).len() implies keys_of(
            self.entries@,
        )[j] != fingerprint@ by {
            assert(keys_of(self.entries@)[j] == self.entries@[j].fingerprint@);
        }
        None
    }

    /// The message id stored for a fingerprint.
    pub fn get(&self, fingerprint: &str) -> (r: Option<u64>)
        ensures
            r == (if self@.contains_key(fingerprint@) {
                Some(self@[fingerprint@].0)
            } else {
                None
            }),
    {
        proof {
            use_type_invariant(self);
        }
        match self.find(fingerprint) {
            Some(i) => {
                proof {
                    lemma_map_of_at(self.entries@, i as int);
                }
                Some(self.entries[i].message_id)
            },
            None => None,
        }
    }

    /// The number of stored fingerprints.
    pub fn len(&self) -> (r: usize)
        ensures
            r == self@.len(),
            self@.dom().finite(),
    {
        proof {
            use_type_invariant(self);
            lemma_map_of_len(self.entries@);
        }
        self.entries.len()
    }

    /// Stores `message_id` for `fingerprint` at time `now`, replacing any
    /// earlier mapping of the fingerprint.
    pub fn insert(&mut self, fingerprint: String, message_id: u64, now: u64)
        ensures
            final(self)@ == old(self)@.insert(fingerprint@, (message_id, now)),
    {
        proof {
            use_type_invariant(&*self);
        }
        let found = self.find(fingerprint.as_str());
        let mut entries: Vec<StoredMessage> = Vec::new();
        std::mem::swap(&mut entries, &mut self.entries);
        let ghost old_entries = entries@;
        let ghost k = fingerprint@;
        let entry = StoredMessage { fingerprint, message_id, inserted_at: now };
        match found {
            Some(i) => {
                entries.set(i, entry);
                proof {
                    let s = entries@;
                    assert(keys_of(s) =~= keys_of(old_entries).update(i as int, k));
                    assert(keys_of(s).no_duplicates()) by {
                        assert forall|a: int, b: int| 0 <= a < b < keys_of(s).len() implies keys_of(s)[a]
                            != keys_of(s)[b] by {
                            assert(keys_of(old_entries)[i as int] == k);
                            if a != i && b != i {
                                assert(keys_of(s)[a] == keys_of(old_entries)[a]);
                                assert(keys_of(s)[b] == keys_of(old_entries)[b]);
                            } else if a == i {
                                assert(keys_of(s)[b] == keys_of(old_entries)[b]);
                            } else {
                                assert(keys_of(s)[a] == keys_of(old_entries)[a]);
                            }
                        }
                    }
                    assert forall|key: Seq<char>| #[trigger] map_of(s).contains_key(key) == map_of(old_entries).insert(k, (message_id, now)).contains_key(key) by {
                        if keys_of(s).contains(key) {
                            let j = choose|j: int| 0 <= j < keys_of(s).len() && keys_of(s)[j] == key;
                            if j != i {
                                assert(keys_of(old_entries)[j] == key);
                            }
                        }
                        if keys_of(old_entries).contains(key) && key != k {
                            let j = choose|j: int| 0 <= j < keys_of(old_entries).len() && keys_of(old_entries)[j] == key;
                            assert(j != i);
                            assert(keys_of(s)[j] == key);
                        }
                        assert(keys_of(s)[i as int] == k);
                    }
                    assert forall|key: Seq<char>| #[trigger] map_of(s).contains_key(key) implies map_of(s)[key] == map_of(old_entries).insert(k, (message_id, now))[key] by {
                        let j = choose|j: int| 0 <= j < keys_of(s).len() && keys_of(s)[j] == key;
                        lemma_map_of_at(s, j);
                        if j != i {
                            assert(s[j] == old_entries[j]);
                            lemma_map_of_at(old_entries, j);
                        }
                    }
                    assert(map_of(s) =~= map_of(old_entries).insert(k, (message_id, now)));
                }
            },
            None => {
                entries.push(entry);
                proof {
                    let s = entries@;
                    assert(keys_of(s) =~= keys_of(old_entries).push(k));
                    assert(keys_of(s).no_duplicates()) by {
                        assert forall|a: int, b: int| 0 <= a < b < keys_of(s).len() implies keys_of(s)[a]
                            != keys_of(s)[b] by {
                            if b == old_entries.len() {
                                assert(keys_of(old_entries)[a] == keys_of(s)[a]);
                            } else {
                                assert(keys_of(old_entries)[a] == keys_of(s)[a]);
                                assert(keys_of(old_entries)[b] == keys_of(s)[b]);
                            }
                        }
                    }
                    assert forall|key: Seq<char>| #[trigger] map_of(s).contains_key(key) == map_of(old_entries).insert(k, (message_id, now)).contains_key(key) by {
                        if keys_of(s).contains(key) {
                            let j = choose|j: int| 0 <= j < keys_of(s).len() && keys_of(s)[j] == key;
                            if j < old_entries.len() {
                                assert(keys_of(old_entries)[j] == key);
                            }
                        }
                        if keys_of(old_entries).contains(key) {
                            let j = choose|j: int| 0 <= j < keys_of(old_entries).len() && keys_of(old_entries)[j] == key;
                            assert(keys_of(s)[j] == key);
                        }
                        assert(keys_of(s)[old_entries.len() as int] == k);
                    }
                    assert forall|key: Seq<char>| #[trigger] map_of(s).contains_key(key) implies map_of(s)[key] == map_of(old_entries).insert(k, (message_id, now))[key] by {
                        let j = choose|j: int| 0 <= j < keys_of(s).len() && keys_of(s)[j] == key;
                        lemma_map_of_at(s, j);
                        if j < old_entries.len() {
                            assert(s[j] == old_entries[j]);
                            lemma_map_of_at(old_entries, j);
                        }
                    }
                    assert(map_of(s) =~= map_of(old_entries).insert(k, (message_id, now)));
                }
            },
        }
        self.entries = entries;
    }

    /// Removes every entry that has been stored for longer than `ttl` at
    /// time `now`; returns how many were removed.
    pub fn evict_expired(&mut self, now: u64, ttl: u64) -> (removed: usize)
        ensures
            final(self)@ == fresh_entries(old(self)@, now, ttl),
            old(self)@.dom().finite(),
            final(self)@.dom().finite(),
            removed == old(self)@.len() - final(self)@.len(),
    {
        proof {
            use_type_invariant(&*self);
            lemma_map_of_len(self.entries@);
        }
        let mut entries: Vec<StoredMessage> = Vec::new();
        std::mem::swap(&mut entries, &mut self.entries);
        let ghost s = entries@;
        let before = entries.len();
        let mut kept: Vec<StoredMessage> = Vec::new();
        let ghost mut src: Seq<int> = Seq::empty();
        while entries.len() > 0
            invariant
                keys_of(s).no_duplicates(),
                entries@ == s.take(s.len() - (s.len() - entries@.len())),
                entries@.len() <= s.len(),
                src.len() == kept@.len(),
                kept@.len() <= s.len() - entries@.len(),
                forall|j: int| 0 <= j < src.len() ==> entries@.len() <= #[trigger] src[j] < s.len(),
                forall|a: int, b: int| 0 <= a < b < src.len() ==> src[a] > src[b],
                forall|j: int| 0 <= j < src.len() ==> kept@[j] == s[#[trigger] src[j]],
                forall|j: int| 0 <= j < src.len() ==> is_fresh(s[#[trigger] src[j]].inserted_at, now, ttl),
                forall|idx: int| entries@.len() <= idx < s.len() && is_fresh(s[idx].inserted_at, now, ttl)
                    ==> exists|j: int| 0 <= j < src.len() && #[trigger] src[j] == idx,
            decreases entries@.len(),
        {
            let ghost n = entries@.len() as int;
            let e = entries.pop().unwrap();
            assert(e == s[n - 1]);
            let age = if now >= e.inserted_at {
                now - e.inserted_at
            } else {
                0
            };
            if age <= ttl {
                kept.push(e);
                proof {
                    let ghost old_src = src;
                    src = src.push(n - 1);
                    assert forall|idx: int| entries@.len() <= idx < s.len() && is_fresh(s[idx].inserted_at, now, ttl)
                        implies exists|j: int| 0 <= j < src.len() && #[trigger] src[j] == idx by {
                        if idx == n - 1 {
                            assert(src[src.len() - 1] == idx);
                        } else {
                            let j = choose|j: int| 0 <= j < old_src.len() && #[trigger] old_src[j] == idx;
                            assert(src[j] == idx);
                        }
                    }
                }
            }
            assert(entries@ =~= s.take(n - 1));
        }
        proof {
            let t = kept@;
            assert(keys_of(t).no_duplicates()) by {
                assert forall|a: int, b: int| 0 <= a < b < keys_of(t).len() implies keys_of(t)[a]
                    != keys_of(t)[b] by {
                    assert(keys_of(t)[a] == keys_of(s)[src[a]]);
                    assert(keys_of(t)[b] == keys_of(s)[src[b]]);
                }
            }
            let target = fresh_entries(map_of(s), now, ttl);
            assert forall|key: Seq<char>| #[trigger] map_of(t).contains_key(key) == target.contains_key(key) by {
                if keys_of(t).contains(key) {
                    let j = choose|j: int| 0 <= j < keys_of(t).len() && keys_of(t)[j] == key;
                    lemma_map_of_at(s, src[j]);
                    assert(keys_of(s)[src[j]] == key);
                }
                if target.contains_key(key) {
                    let i = choose|i: int| 0 <= i < keys_of(s).len() && keys_of(s)[i] == key;
                    lemma_map_of_at(s, i);
                    let j = choose|j: int| 0 <= j < src.len() && #[trigger] src[j] == i;
                    assert(keys_of(t)[j] == key);
                }
            }
            assert forall|key: Seq<char>| #[trigger] map_of(t).contains_key(key) implies map_of(t)[key] == target[key] by {
                let j = choose|j: int| 0 <= j < keys_of(t).len() && keys_of(t)[j] == key;
                lemma_map_of_at(t, j);
                lemma_map_of_at(s, src[j]);
            }
            assert(map_of(t) =~= target);
            lemma_map_of_len(t);
        }
        assert(before == s.len());
        let removed = before - kept.len();
        self.entries = kept;
        removed
    }
}

} // verus!

verus! {

/// A stored id is read back: after storing `message_id` for a fingerprint,
/// looking the fingerprint up gives `message_id`, and other fingerprints
/// keep their mappings.
pub proof fn law_get_after_insert(
    stored: Map<Seq<char>, (u64, u64)>,
    fingerprint: Seq<char>,
    message_id: u64,
    now: u64,
    other: Seq<char>,
)
    ensures
        stored.insert(fingerprint, (message_id, now)).contains_key(fingerprint),
        stored.insert(fingerprint, (message_id, now))[fingerprint].0 == message_id,
        other != fingerprint ==> (stored.insert(fingerprint, (message_id, now)).contains_key(other)
            == stored.contains_key(other)),
        other != fingerprint && stored.contains_key(other) ==> stored.insert(
            fingerprint,
            (message_id, now),
        )[other] == stored[other],
{
}

/// Eviction keeps exactly the entries stored for no longer than the TTL, with
/// their ids, and evicting twice at the same time changes nothing more.
pub proof fn law_eviction_keeps_fresh_entries(
    stored: Map<Seq<char>, (u64, u64)>,
    now: u64,
    ttl: u64,
    fingerprint: Seq<char>,
)
    ensures
        fresh_entries(stored, now, ttl).contains_key(fingerprint) <==> (stored.contains_key(fingerprint)
            && is_fresh(stored[fingerprint].1, now, ttl)),
        fresh_entries(stored, now, ttl).contains_key(fingerprint) ==> fresh_entries(stored, now, ttl)[fingerprint]
            == stored[fingerprint],
        fresh_entries(fresh_entries(stored, now, ttl), now, ttl) == fresh_entries(stored, now, ttl),
{
    assert(fresh_entries(fresh_entries(stored, now, ttl), now, ttl) =~= fresh_entries(stored, now, ttl));
}

/// An entry just stored survives an eviction at the same time, for any
/// TTL.
pub proof fn law_new_entry_survives_eviction(
    stored: Map<Seq<char>, (u64, u64)>,
    fingerprint: Seq<char>,
    message_id: u64,
    now: u64,
    ttl: u64,
)
    ensures
        fresh_entries(stored.insert(fingerprint, (message_id, now)), now, ttl).contains_key(fingerprint),
{
}

} // verus!
