//! An in-memory model of the key-value backend used to persist tokens.
//!
//! One key per token value; the stored value is the owner identifier; expiry
//! is an absolute deadline per key, enforced passively: an entry whose
//! deadline has passed is still held but no longer retrievable, exactly as a
//! backend-native time-to-live makes a key vanish for readers. Every
//! operation that reads takes the current time as an argument, so a test can
//! fast-forward the clock.

use vstd::prelude::*;

verus! {

/// The mathematical view of one stored token record: the owner identifier
/// and the absolute expiry deadline (Unix seconds), if any.
pub struct RecordView {
    pub user: Seq<char>,
    pub deadline: Option<u64>,
}

/// A record is fresh at `now` when it either never expires or expires
/// strictly after `now`.
pub open spec fn fresh(rec: RecordView, now: u64) -> bool {
    rec.deadline is None || rec.deadline->0 > now
}

/// A key is live in a store view at `now` when it is present and its record
/// is fresh: exactly the keys a reader can still retrieve.
pub open spec fn live(m: Map<Seq<char>, RecordView>, key: Seq<char>, now: u64) -> bool {
    m.contains_key(key) && fresh(m[key], now)
}

/// One persisted entry: the token value as key, its owner, and the absolute
/// expiry deadline, if any.
struct Entry {
    key: String,
    user: String,
    deadline: Option<u64>,
}

spec fn rec_of(e: Entry) -> RecordView {
    RecordView { user: e.user@, deadline: e.deadline }
}

spec fn map_of(s: Seq<Entry>) -> Map<Seq<char>, RecordView>
    decreases s.len(),
{
    if s.len() == 0 {
        Map::empty()
    } else {
        map_of(s.drop_last()).insert(s.last().key@, rec_of(s.last()))
    }
}

spec fn unique_keys(s: Seq<Entry>) -> bool {
    forall|i: int, j: int| 0 <= i < j < s.len() ==> s[i].key@ != s[j].key@
}

proof fn lemma_map_of_absent(s: Seq<Entry>, k: Seq<char>)
    requires
        forall|i: int| 0 <= i < s.len() ==> s[i].key@ != k,
    ensures
        !map_of(s).contains_key(k),
    decreases s.len(),
{
    if s.len() > 0 {
        assert(s[s.len() - 1].key@ != k);
        assert forall|i: int| 0 <= i < s.drop_last().len() implies s.drop_last()[i].key@ != k by {
            assert(s.drop_last()[i] == s[i]);
        }
        lemma_map_of_absent(s.drop_last(), k);
    }
}

proof fn lemma_unique_drop_last(s: Seq<Entry>)
    requires
        unique_keys(s),
        s.len() > 0,
    ensures
        unique_keys(s.drop_last()),
        forall|i: int| 0 <= i < s.drop_last().len() ==> s.drop_last()[i].key@ != s.last().key@,
{
    assert forall|i: int, j: int| 0 <= i < j < s.drop_last().len() implies s.drop_last()[i].key@
        != s.drop_last()[j].key@ by {
        assert(s.drop_last()[i] == s[i]);
        assert(s.drop_last()[j] == s[j]);
    }
    assert forall|i: int| 0 <= i < s.drop_last().len() implies s.drop_last()[i].key@
        != s.last().key@ by {
        assert(s.drop_last()[i] == s[i]);
        assert(s[i].key@ != s[s.len() - 1].key@);
    }
}

proof fn lemma_map_of_index(s: Seq<Entry>, i: int)
    requires
        unique_keys(s),
        0 <= i < s.len(),
    ensures
        map_of(s).contains_key(s[i].key@),
        map_of(s)[s[i].key@] == rec_of(s[i]),
    decreases s.len(),
{
    lemma_unique_drop_last(s);
    if i < s.len() - 1 {
        lemma_map_of_index(s.drop_last(), i);
        assert(s.drop_last()[i] == s[i]);
        assert(s[i].key@ != s.last().key@);
    }
}

proof fn lemma_map_of_update(s: Seq<Entry>, i: int, e: Entry)
    requires
        unique_keys(s),
        0 <= i < s.len(),
        e.key@ == s[i].key@,
    ensures
        map_of(s.update(i, e)) == map_of(s).insert(e.key@, rec_of(e)),
        unique_keys(s.update(i, e)),
    decreases s.len(),
{
    let k = e.key@;
    let t = s.update(i, e);
    assert forall|p: int, q: int| 0 <= p < q < t.len() implies t[p].key@ != t[q].key@ by {
        assert(t[p].key@ == s[p].key@);
        assert(t[q].key@ == s[q].key@);
    }
    lemma_unique_drop_last(s);
    if i == s.len() - 1 {
        assert(t.drop_last() =~= s.drop_last());
        assert(t.last() == e);
        assert(map_of(s.drop_last()).insert(s.last().key@, rec_of(s.last())).insert(k, rec_of(e))
            =~= map_of(s.drop_last()).insert(k, rec_of(e)));
    } else {
        assert(t.drop_last() =~= s.drop_last().update(i, e));
        assert(t.last() == s.last());
        lemma_map_of_update(s.drop_last(), i, e);
        assert(s.drop_last()[i] == s[i]);
        assert(k != s.last().key@);
        assert(map_of(s.drop_last()).insert(k, rec_of(e)).insert(s.last().key@, rec_of(s.last()))
            =~= map_of(s.drop_last()).insert(s.last().key@, rec_of(s.last())).insert(
            k,
            rec_of(e),
        ));
    }
}

proof fn lemma_map_of_push(s: Seq<Entry>, e: Entry)
    requires
        forall|i: int| 0 <= i < s.len() ==> s[i].key@ != e.key@,
        unique_keys(s),
    ensures
        map_of(s.push(e)) == map_of(s).insert(e.key@, rec_of(e)),
        unique_keys(s.push(e)),
{
    let t = s.push(e);
    assert(t.drop_last() =~= s);
    assert(t.last() == e);
    assert forall|p: int, q: int| 0 <= p < q < t.len() implies t[p].key@ != t[q].key@ by {
        if q == t.len() - 1 {
            assert(t[p] == s[p]);
            assert(t[q] == e);
        } else {
            assert(t[p] == s[p]);
            assert(t[q] == s[q]);
        }
    }
}

proof fn lemma_map_of_remove(s: Seq<Entry>, i: int)
    requires
        unique_keys(s),
        0 <= i < s.len(),
    ensures
        map_of(s.remove(i)) == map_of(s).remove(s[i].key@),
        unique_keys(s.remove(i)),
    decreases s.len(),
{
    let k = s[i].key@;
    let t = s.remove(i);
    assert forall|p: int, q: int| 0 <= p < q < t.len() implies t[p].key@ != t[q].key@ by {
        let p0: int = if p < i {
            p
        } else {
            p + 1
        };
        let q0: int = if q < i {
            q
        } else {
            q + 1
        };
        assert(t[p] == s[p0]);
        assert(t[q] == s[q0]);
    }
    lemma_unique_drop_last(s);
    if i == s.len() - 1 {
        assert(t =~= s.drop_last());
        lemma_map_of_absent(s.drop_last(), k);
        assert(map_of(s.drop_last()).insert(k, rec_of(s.last())).remove(k)
            =~= map_of(s.drop_last()));
    } else {
        assert(t.drop_last() =~= s.drop_last().remove(i));
        assert(t.last() == s.last());
        lemma_map_of_remove(s.drop_last(), i);
        assert(s.drop_last()[i] == s[i]);
        assert(k != s.last().key@);
        assert(map_of(s.drop_last()).remove(k).insert(s.last().key@, rec_of(s.last()))
            =~= map_of(s.drop_last()).insert(s.last().key@, rec_of(s.last())).remove(k));
    }
}

/// The in-memory key-value store: a sequence of entries with pairwise
/// distinct keys, viewed as a map from token value to record.
pub struct Store {
    entries: Vec<Entry>,
}

impl View for Store {
    type V = Map<Seq<char>, RecordView>;

    closed spec fn view(&self) -> Map<Seq<char>, RecordView> {
        map_of(self.entries@)
    }
}

impl Store {
    /// Well-formedness: no two entries share a key, so the map view loses
    /// nothing.
    pub closed spec fn wf(&self) -> bool {
        unique_keys(self.entries@)
    }

    /// An empty store.
    pub fn new() -> (r: Store)
        ensures
            r.wf(),
            r@ == Map::<Seq<char>, RecordView>::empty(),
    {
        let s = Store { entries: Vec::new() };
        proof {
            assert(s@ =~= Map::<Seq<char>, RecordView>::empty());
        }
        s
    }

    /// The index of the entry holding `key`, if any.
    fn find(&self, key: &String) -> (r: Option<usize>)
        ensures
            match r {
                Some(i) => i < self.entries@.len() && self.entries@[i as int].key@ == key@,
                None => forall|i: int| 0 <= i < self.entries@.len() ==> self.entries@[i].key@
                    != key@,
            },
    {
        let n = self.entries.len();
        let mut i: usize = 0;
        while i < n
            invariant
                n == self.entries@.len(),
                i <= n,
                forall|j: int| 0 <= j < i ==> self.entries@[j].key@ != key@,
            decreases n - i,
        {
            if self.entries[i].key == *key {
                return Some(i);
            }
            i = i + 1;
        }
        None
    }

    /// Writes `key` to the record `(user, deadline)`, overwriting any prior
    /// record under the same key.
    pub fn set(&mut self, key: &String, user: String, deadline: Option<u64>)
        requires
            old(self).wf(),
        ensures
            final(self).wf(),
            final(self)@ == old(self)@.insert(key@, (RecordView { user: user@, deadline })),
    {
        let found = self.find(key);
        let e = Entry { key: key.clone(), user, deadline };
        let ghost s_old = self.entries@;
        let ghost eg = e;
        match found {
            Some(i) => {
                self.entries.set(i, e);
                proof {
                    lemma_map_of_update(s_old, i as int, eg);
                }
            },
            None => {
                self.entries.push(e);
                proof {
                    lemma_map_of_push(s_old, eg);
                }
            },
        }
    }

    /// Reads the owner stored under `key`, as of time `now`: the record is
    /// returned exactly when the key is live.
    pub fn get(&self, key: &String, now: u64) -> (r: Option<String>)
        requires
            self.wf(),
        ensures
            match r {
                Some(u) => live(self@, key@, now) && u@ == self@[key@].user,
                None => !live(self@, key@, now),
            },
    {
        match self.find(key) {
            Some(i) => {
                proof {
                    lemma_map_of_index(self.entries@, i as int);
                }
                let e = &self.entries[i];
                let is_fresh = match e.deadline {
                    Option::None => true,
                    Option::Some(d) => d > now,
                };
                if is_fresh {
                    Some(e.user.clone())
                } else {
                    None
                }
            },
            None => {
                proof {
                    lemma_map_of_absent(self.entries@, key@);
                }
                None
            },
        }
    }

    /// The remaining time-to-live of `key` as of `now`: the seconds until
    /// its deadline when the key is live and has one, and nothing when the
    /// key is absent, stale, or never expires.
    pub fn ttl(&self, key: &String, now: u64) -> (r: Option<u64>)
        requires
            self.wf(),
        ensures
            r == (if live(self@, key@, now) && self@[key@].deadline is Some {
                Some((self@[key@].deadline->0 - now) as u64)
            } else {
                None::<u64>
            }),
    {
        match self.find(key) {
            Some(i) => {
                proof {
                    lemma_map_of_index(self.entries@, i as int);
                }
                let e = &self.entries[i];
                match e.deadline {
                    Option::Some(d) => if d > now {
                        Some(d - now)
                    } else {
                        None
                    },
                    Option::None => None,
                }
            },
            None => {
                proof {
                    lemma_map_of_absent(self.entries@, key@);
                }
                None
            },
        }
    }

    /// Deletes `key`. Idempotent: deleting an absent key changes nothing
    /// and is not an error.
    pub fn del(&mut self, key: &String)
        requires
            old(self).wf(),
        ensures
            final(self).wf(),
            final(self)@ == old(self)@.remove(key@),
    {
        let found = self.find(key);
        let ghost s_old = self.entries@;
        match found {
            Some(i) => {
                self.entries.remove(i);
                proof {
                    lemma_map_of_remove(s_old, i as int);
                }
            },
            None => {
                proof {
                    lemma_map_of_absent(s_old, key@);
                    assert(map_of(s_old).remove(key@) =~= map_of(s_old));
                }
            },
        }
    }
}

} // verus!
