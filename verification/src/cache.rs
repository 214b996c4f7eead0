//! The response cache: a keyed store of decoded response bodies with a fixed
//! time to live and a bounded capacity.
//!
//! Entries are kept oldest first; when the cache is full the oldest entry is
//! evicted.  The only invalidation primitive clears the whole cache: no
//! pattern-based partial invalidation exists, deliberately, because mutating
//! operations are tagged with coarse invalidation scopes.

use vstd::prelude::*;
use vstd::seq_lib::*;
use crate::json::{JsonValue, JsonModel};
use crate::ops::{CacheKey, AtomModel, Op, key_eq};

verus! {

broadcast use vstd::std_specs::vec::group_vec_axioms, vstd::seq::group_seq_axioms;

/// The model of a cache key.
pub type KeyModel = (Op, Seq<AtomModel>);

/// One cached response with its insertion time.
pub struct CacheEntry {
    pub key: CacheKey,
    pub value: JsonValue,
    pub inserted_at: u64,
}

/// The first entry with the given key, scanning oldest first.
pub open spec fn find_entry(s: Seq<CacheEntry>, k: KeyModel) -> Option<CacheEntry>
    decreases s.len(),
{
    if s.len() == 0 {
        None
    } else if s[0].key.km() == k {
        Some(s[0])
    } else {
        find_entry(s.subrange(1, s.len() as int), k)
    }
}

/// All entries with distinct keys.
pub open spec fn keys_unique(s: Seq<CacheEntry>) -> bool {
    forall|i: int, j: int|
        0 <= i < j < s.len() ==> (#[trigger] s[i].key.km()) != (#[trigger] s[j].key.km())
}

/// A found entry is a member of the sequence; an absent key matches no member.
pub proof fn lemma_find_entry_member(s: Seq<CacheEntry>, k: KeyModel)
    ensures
        match find_entry(s, k) {
            Some(e) => exists|i: int|
                0 <= i < s.len() && s[i] == e && (#[trigger] s[i].key.km()) == k,
            None => forall|i: int| 0 <= i < s.len() ==> (#[trigger] s[i].key.km()) != k,
        },
    decreases s.len(),
{
    if s.len() > 0 {
        if s[0].key.km() != k {
            lemma_find_entry_member(s.subrange(1, s.len() as int), k);
            let rest = s.subrange(1, s.len() as int);
            match find_entry(rest, k) {
                Some(e) => {
                    let i = choose|i: int|
                        0 <= i < rest.len() && rest[i] == e && rest[i].key.km() == k;
                    assert(s[i + 1] == e && s[i + 1].key.km() == k);
                },
                None => {
                    assert forall|i: int| 0 <= i < s.len() implies (#[trigger] s[i].key.km())
                        != k by {
                        if i > 0 {
                            assert(rest[i - 1] == s[i]);
                        }
                    }
                },
            }
        }
    }
}

/// A member entry whose key matches is the one found, when keys are unique.
pub proof fn lemma_member_found(s: Seq<CacheEntry>, k: KeyModel, i: int)
    requires
        keys_unique(s),
        0 <= i < s.len(),
        s[i].key.km() == k,
    ensures
        find_entry(s, k) == Some(s[i]),
    decreases s.len(),
{
    if i == 0 {
    } else {
        assert(s[0].key.km() != k);
        let rest = s.subrange(1, s.len() as int);
        assert(rest[i - 1] == s[i]);
        assert(keys_unique(rest)) by {
            assert(forall|a: int, b: int|
                0 <= a < b < rest.len() ==> rest[a] == s[a + 1] && rest[b] == s[b + 1]);
        }
        lemma_member_found(rest, k, i - 1);
    }
}

/// Removing the only entry with key `k` leaves `k` absent, keeps keys
/// unique, and changes no other key's entry.
pub proof fn lemma_remove_entry(s: Seq<CacheEntry>, idx: int, k: KeyModel)
    requires
        keys_unique(s),
        0 <= idx < s.len(),
        s[idx].key.km() == k,
    ensures
        keys_unique(s.remove(idx)),
        find_entry(s.remove(idx), k) is None,
        forall|k2: KeyModel|
            k2 != k ==> #[trigger] find_entry(s.remove(idx), k2) == find_entry(s, k2),
        s.remove(idx).len() == s.len() - 1,
{
    s.remove_ensures(idx);
    let r = s.remove(idx);
    assert forall|a: int, b: int| 0 <= a < b < r.len() implies (#[trigger] r[a].key.km()) != (
    #[trigger] r[b].key.km()) by {
        let ia: int = if a < idx {
            a
        } else {
            a + 1
        };
        let ib: int = if b < idx {
            b
        } else {
            b + 1
        };
        assert(r[a] == s[ia] && r[b] == s[ib]);
    }
    lemma_find_entry_member(r, k);
    if find_entry(r, k) is Some {
        let i = choose|i: int|
            0 <= i < r.len() && r[i] == find_entry(r, k)->0 && r[i].key.km() == k;
        let si: int = if i < idx {
            i
        } else {
            i + 1
        };
        assert(r[i] == s[si]);
        assert(si != idx);
        assert(false);
    }
    assert forall|k2: KeyModel| k2 != k implies #[trigger] find_entry(s.remove(idx), k2)
        == find_entry(s, k2) by {
        lemma_find_entry_member(s, k2);
        lemma_find_entry_member(r, k2);
        match find_entry(s, k2) {
            Some(e) => {
                let j = choose|j: int| 0 <= j < s.len() && s[j] == e && s[j].key.km() == k2;
                let rj: int = if j < idx {
                    j
                } else {
                    j - 1
                };
                assert(j != idx);
                assert(r[rj] == s[j]);
                lemma_member_found(r, k2, rj);
            },
            None => {
                if find_entry(r, k2) is Some {
                    let i = choose|i: int|
                        0 <= i < r.len() && r[i] == find_entry(r, k2)->0 && r[i].key.km() == k2;
                    let si: int = if i < idx {
                        i
                    } else {
                        i + 1
                    };
                    assert(r[i] == s[si]);
                    assert(false);
                }
            },
        }
    }
}

/// Removing the oldest entry keeps keys unique and never invents an entry.
pub proof fn lemma_remove_oldest(s: Seq<CacheEntry>)
    requires
        keys_unique(s),
        s.len() > 0,
    ensures
        keys_unique(s.remove(0)),
        forall|k2: KeyModel|
            #[trigger] find_entry(s.remove(0), k2) is Some ==> find_entry(s, k2) == find_entry(
                s.remove(0),
                k2,
            ),
        s.remove(0).len() == s.len() - 1,
{
    s.remove_ensures(0);
    let r = s.remove(0);
    assert forall|a: int, b: int| 0 <= a < b < r.len() implies (#[trigger] r[a].key.km()) != (
    #[trigger] r[b].key.km()) by {
        assert(r[a] == s[a + 1] && r[b] == s[b + 1]);
    }
    assert forall|k2: KeyModel| #[trigger] find_entry(r, k2) is Some implies find_entry(s, k2)
        == find_entry(r, k2) by {
        lemma_find_entry_member(r, k2);
        let i = choose|i: int|
            0 <= i < r.len() && r[i] == find_entry(r, k2)->0 && r[i].key.km() == k2;
        assert(r[i] == s[i + 1]);
        lemma_member_found(s, k2, i + 1);
        lemma_member_found(r, k2, i);
    }
}

/// Appending an entry whose key is absent: the new key is found at the new
/// entry, every other key is unchanged, and keys stay unique.
pub proof fn lemma_push_entry(s: Seq<CacheEntry>, e: CacheEntry)
    requires
        keys_unique(s),
        find_entry(s, e.key.km()) is None,
    ensures
        keys_unique(s.push(e)),
        find_entry(s.push(e), e.key.km()) == Some(e),
        forall|k2: KeyModel|
            k2 != e.key.km() ==> #[trigger] find_entry(s.push(e), k2) == find_entry(s, k2),
{
    lemma_find_push(s, e, e.key.km());
    assert forall|k2: KeyModel| k2 != e.key.km() implies #[trigger] find_entry(s.push(e), k2)
        == find_entry(s, k2) by {
        lemma_find_push(s, e, k2);
    }
    lemma_find_entry_member(s, e.key.km());
    assert forall|a: int, b: int| 0 <= a < b < s.push(e).len() implies (
    #[trigger] s.push(e)[a].key.km()) != (#[trigger] s.push(e)[b].key.km()) by {
        if b == s.len() {
            assert(s.push(e)[a] == s[a]);
            assert(s.push(e)[b] == e);
        } else {
            assert(s.push(e)[a] == s[a]);
            assert(s.push(e)[b] == s[b]);
        }
    }
}

/// What `find_entry` does across a push.
pub proof fn lemma_find_push(s: Seq<CacheEntry>, e: CacheEntry, k: KeyModel)
    ensures
        find_entry(s, k) is None ==> find_entry(s.push(e), k) == (if e.key.km() == k {
            Some(e)
        } else {
            None::<CacheEntry>
        }),
        find_entry(s, k) is Some ==> find_entry(s.push(e), k) == find_entry(s, k),
    decreases s.len(),
{
    if s.len() == 0 {
        assert(s.push(e).len() == 1);
        assert(s.push(e)[0] == e);
        assert(s.push(e).subrange(1, 1) =~= Seq::<CacheEntry>::empty());
        assert(find_entry(s.push(e).subrange(1, 1), k) is None);
        if e.key.km() == k {
            assert(find_entry(s.push(e), k) == Some(e));
        } else {
            assert(find_entry(s.push(e), k) is None);
        }
    } else {
        lemma_find_push(s.subrange(1, s.len() as int), e, k);
        assert(s.push(e)[0] == s[0]);
        assert(s.push(e).subrange(1, s.push(e).len() as int) =~= s.subrange(1, s.len() as int).push(
            e,
        ));
    }
}

/// The response cache.
pub struct ResponseCache {
    entries: Vec<CacheEntry>,
    capacity: usize,
    ttl_seconds: u64,
}

impl ResponseCache {
    /// The stored entries, oldest first.
    pub closed spec fn entries_model(self) -> Seq<CacheEntry> {
        self.entries@
    }

    /// The configured capacity.
    pub closed spec fn spec_capacity(self) -> usize {
        self.capacity
    }

    /// The configured time to live.
    pub closed spec fn spec_ttl(self) -> u64 {
        self.ttl_seconds
    }

    /// Internal consistency: distinct keys, within a positive capacity.
    pub open spec fn wf(self) -> bool {
        &&& keys_unique(self.entries_model())
        &&& self.entries_model().len() <= self.spec_capacity()
        &&& self.spec_capacity() >= 1
    }

    /// What a lookup at time `now` returns: the stored body, if the key is
    /// present and its entry has not outlived the time to live.
    pub open spec fn lookup(self, k: KeyModel, now: u64) -> Option<JsonModel> {
        match find_entry(self.entries_model(), k) {
            Some(e) => if now < e.inserted_at + self.spec_ttl() {
                Some(e.value.jm())
            } else {
                None
            },
            None => None,
        }
    }

    /// A fresh, empty cache.
    pub fn new(capacity: usize, ttl_seconds: u64) -> (r: ResponseCache)
        requires
            capacity >= 1,
        ensures
            r.wf(),
            r.spec_capacity() == capacity,
            r.spec_ttl() == ttl_seconds,
            forall|k: KeyModel, now: u64| #[trigger] r.lookup(k, now) is None,
    {
        ResponseCache { entries: Vec::new(), capacity, ttl_seconds }
    }

    /// How many entries are stored.
    pub fn len(&self) -> (r: usize)
        ensures
            r == self.entries_model().len(),
    {
        self.entries.len()
    }

    /// The stored body for `key`, if present and not expired at `now`.
    pub fn get<'a>(&'a self, key: &CacheKey, now: u64) -> (r: Option<&'a JsonValue>)
        requires
            self.wf(),
        ensures
            match r {
                Some(v) => self.lookup(key.km(), now) == Some(v.jm()),
                None => self.lookup(key.km(), now) is None,
            },
    {
        let mut i: usize = 0;
        while i < self.entries.len()
            invariant
                self.wf(),
                i <= self.entries@.len(),
                forall|j: int| 0 <= j < i ==> (#[trigger] self.entries@[j].key.km()) != key.km(),
            decreases self.entries@.len() - i,
        {
            if key_eq(&self.entries[i].key, key) {
                proof {
                    lemma_member_found(self.entries@, key.km(), i as int);
                }
                let e = &self.entries[i];
                let fresh = if now < e.inserted_at {
                    true
                } else {
                    now - e.inserted_at < self.ttl_seconds
                };
                if fresh {
                    return Some(&e.value);
                } else {
                    return None;
                }
            }
            i = i + 1;
        }
        proof {
            lemma_find_entry_member(self.entries@, key.km());
        }
        None
    }

    /// Stores `value` under `key` at time `now`: replaces any entry with the
    /// same key, evicts the oldest entry when full, and never invents an
    /// entry for any other key.
    pub fn put(&mut self, key: CacheKey, value: JsonValue, now: u64)
        requires
            old(self).wf(),
        ensures
            final(self).wf(),
            final(self).spec_capacity() == old(self).spec_capacity(),
            final(self).spec_ttl() == old(self).spec_ttl(),
            forall|t: u64|
                #![trigger final(self).lookup(key.km(), t)]
                t < now + final(self).spec_ttl() ==> final(self).lookup(key.km(), t) == Some(
                    value.jm(),
                ),
            forall|k2: KeyModel, t: u64|
                k2 != key.km() && #[trigger] final(self).lookup(k2, t) is Some ==> old(self).lookup(
                    k2,
                    t,
                ) == final(self).lookup(k2, t),
    {
        let ghost k = key.km();
        let ghost s0 = self.entries@;
        // Replace: remove any entry carrying the same key.
        let mut i: usize = 0;
        let mut found = false;
        while i < self.entries.len() && !found
            invariant
                i <= self.entries@.len(),
                self.entries@ == s0,
                key.km() == k,
                !found ==> forall|j: int| 0 <= j < i ==> (#[trigger] s0[j].key.km()) != k,
                found ==> i < s0.len() && s0[i as int].key.km() == k,
            decreases s0.len() - i, (if found { 0int } else { 1int }),
        {
            if key_eq(&self.entries[i].key, &key) {
                found = true;
            } else {
                i = i + 1;
            }
        }
        if found {
            self.entries.remove(i);
            proof {
                lemma_remove_entry(s0, i as int, k);
            }
        } else {
            proof {
                lemma_find_entry_member(s0, k);
            }
        }
        let ghost s1 = self.entries@;
        let ghost evicted: bool = self.entries@.len() >= self.capacity;
        // Evict the oldest entry when at capacity.
        if self.entries.len() >= self.capacity {
            self.entries.remove(0);
            proof {
                lemma_remove_oldest(s1);
            }
        }
        let ghost s2 = self.entries@;
        proof {
            assert(find_entry(s1, k) is None);
            if evicted {
                if find_entry(s2, k) is Some {
                    assert(find_entry(s1, k) == find_entry(s2, k));
                }
            }
            assert(find_entry(s2, k) is None);
        }
        let entry = CacheEntry { key, value, inserted_at: now };
        let ghost ge = entry;
        self.entries.push(entry);
        proof {
            lemma_push_entry(s2, ge);
            assert(self.entries@ == s2.push(ge));
            assert forall|k2: KeyModel, t: u64|
                k2 != k && #[trigger] self.lookup(k2, t) is Some implies old(self).lookup(k2, t)
                == self.lookup(k2, t) by {
                let e = find_entry(s2.push(ge), k2)->0;
                assert(find_entry(s2, k2) == Some(e));
                if evicted {
                    assert(find_entry(s1, k2) == Some(e));
                }
                assert(find_entry(s0, k2) == Some(e));
            }
        }
    }

    /// Evicts every entry.  This is the only invalidation primitive.
    pub fn invalidate_all(&mut self)
        requires
            old(self).wf(),
        ensures
            final(self).wf(),
            final(self).spec_capacity() == old(self).spec_capacity(),
            final(self).spec_ttl() == old(self).spec_ttl(),
            final(self).entries_model().len() == 0,
            forall|k: KeyModel, now: u64| #[trigger] final(self).lookup(k, now) is None,
    {
        self.entries.clear();
    }
}

/// Deep copy of a JSON value.
#[verifier::loop_isolation(false)]
pub fn clone_json(v: &JsonValue) -> (r: JsonValue)
    ensures
        r.jm() == v.jm(),
    decreases *v,
{
    match v {
        JsonValue::Null => JsonValue::Null,
        JsonValue::Bool(b) => JsonValue::Bool(*b),
        JsonValue::Num(s) => JsonValue::Num(s.clone()),
        JsonValue::Str(s) => JsonValue::Str(s.clone()),
        JsonValue::Arr(items) => {
            let mut copy: Vec<JsonValue> = Vec::new();
            let mut i: usize = 0;
            while i < items.len()
                invariant
                    i <= items@.len(),
                    copy@.len() == i,
                    forall|j: int| 0 <= j < i ==> (#[trigger] copy@[j]).jm() == items@[j].jm(),
                decreases items@.len() - i,
            {
                proof {
                    assert(decreases_to!(*v => *items));
                }
                let c = clone_json(&items[i]);
                copy.push(c);
                i = i + 1;
            }
            proof {
                crate::json::lemma_jm_seq(copy@);
                crate::json::lemma_jm_seq(items@);
                assert forall|j: int| 0 <= j < copy@.len() implies crate::json::jm_seq(copy@)[j]
                    == crate::json::jm_seq(items@)[j] by {
                    assert(crate::json::jm_seq(copy@)[j] == copy@[j].jm());
                    assert(crate::json::jm_seq(items@)[j] == items@[j].jm());
                }
                assert(crate::json::jm_seq(copy@) =~= crate::json::jm_seq(items@));
            }
            JsonValue::Arr(copy)
        },
        JsonValue::Obj(fields) => {
            let mut copy: Vec<(String, JsonValue)> = Vec::new();
            let mut i: usize = 0;
            while i < fields.len()
                invariant
                    i <= fields@.len(),
                    copy@.len() == i,
                    forall|j: int|
                        0 <= j < i ==> (#[trigger] copy@[j]).0@ == fields@[j].0@ && copy@[j].1.jm()
                            == fields@[j].1.jm(),
                decreases fields@.len() - i,
            {
                proof {
                    assert(decreases_to!(*v => *fields));
                }
                let c = clone_json(&fields[i].1);
                let name = fields[i].0.clone();
                copy.push((name, c));
                i = i + 1;
            }
            proof {
                crate::json::lemma_jm_fields(copy@);
                crate::json::lemma_jm_fields(fields@);
                assert forall|j: int| 0 <= j < copy@.len() implies crate::json::jm_fields(copy@)[j]
                    == crate::json::jm_fields(fields@)[j] by {
                    assert(crate::json::jm_fields(copy@)[j] == (copy@[j].0@, copy@[j].1.jm()));
                    assert(crate::json::jm_fields(fields@)[j] == (fields@[j].0@, fields@[j].1.jm()));
                }
                assert(crate::json::jm_fields(copy@) =~= crate::json::jm_fields(fields@));
            }
            JsonValue::Obj(copy)
        },
    }
}

} // verus!
