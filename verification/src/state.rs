//! Durable key/value state, scoped to one object or workflow instance.
//!
//! A store maps string keys to payload values, with unique keys.  During one
//! invocation the context holds such a store as its working view: it starts
//! from the snapshot the orchestrator supplied and absorbs the handler's
//! buffered writes, which become durable only when the invocation completes
//! successfully.

use vstd::prelude::*;
use crate::journal::{entry_views, JournalEntry, JournalEntryVal};
use crate::payload::{opt_payload_val, Payload, PayloadVal};

verus! {

/// The value of the first entry whose key is `k`, scanning from the front.
pub open spec fn lookup(s: Seq<(String, Payload)>, k: Seq<char>) -> Option<PayloadVal>
    decreases s.len(),
{
    if s.len() == 0 {
        Option::None
    } else if s[0].0@ == k {
        Option::Some(s[0].1@)
    } else {
        lookup(s.drop_first(), k)
    }
}

/// If no entry's key is `k`, the lookup finds nothing.
pub proof fn lemma_lookup_absent(s: Seq<(String, Payload)>, k: Seq<char>)
    requires
        forall|j: int| 0 <= j < s.len() ==> s[j].0@ != k,
    ensures
        lookup(s, k) is None,
    decreases s.len(),
{
    if s.len() > 0 {
        lemma_lookup_absent(s.drop_first(), k);
    }
}

/// If entry `i` is the first whose key is `k`, the lookup finds its value.
pub proof fn lemma_lookup_at(s: Seq<(String, Payload)>, k: Seq<char>, i: int)
    requires
        0 <= i < s.len(),
        s[i].0@ == k,
        forall|j: int| 0 <= j < i ==> s[j].0@ != k,
    ensures
        lookup(s, k) == Option::Some(s[i].1@),
    decreases i,
{
    if i > 0 {
        lemma_lookup_at(s.drop_first(), k, i - 1);
    }
}

/// Appending an entry changes only lookups that found nothing before.
pub proof fn lemma_lookup_push(s: Seq<(String, Payload)>, p: (String, Payload), k: Seq<char>)
    ensures
        lookup(s, k) is Some ==> lookup(s.push(p), k) == lookup(s, k),
        lookup(s, k) is None && p.0@ == k ==> lookup(s.push(p), k) == Option::Some(p.1@),
        lookup(s, k) is None && p.0@ != k ==> lookup(s.push(p), k) is None,
    decreases s.len(),
{
    assert(s.push(p).len() == s.len() + 1);
    if s.len() == 0 {
        assert(s.push(p)[0] == p);
        assert(s.push(p).drop_first() =~= Seq::<(String, Payload)>::empty());
        assert(lookup(s.push(p).drop_first(), k) is None);
    } else {
        assert(s.push(p)[0] == s[0]);
        if s[0].0@ == k {
            assert(lookup(s.push(p), k) == Option::Some(s[0].1@));
        } else {
            assert(s.push(p).drop_first() =~= s.drop_first().push(p));
            lemma_lookup_push(s.drop_first(), p, k);
            assert(lookup(s.push(p), k) == lookup(s.drop_first().push(p), k));
            assert(lookup(s, k) == lookup(s.drop_first(), k));
        }
    }
}

/// Removing the only entry whose key is `k` makes its lookup find nothing
/// and leaves every other lookup unchanged.
pub proof fn lemma_lookup_remove(s: Seq<(String, Payload)>, i: int, k: Seq<char>)
    requires
        0 <= i < s.len(),
        forall|a: int, b: int| 0 <= a < b < s.len() ==> s[a].0@ != s[b].0@,
    ensures
        lookup(s.remove(i), k) == (if s[i].0@ == k {
            Option::<PayloadVal>::None
        } else {
            lookup(s, k)
        }),
    decreases i,
{
    if i == 0 {
        assert(s.remove(0) =~= s.drop_first());
        if s[0].0@ == k {
            assert(forall|j: int| 0 <= j < s.drop_first().len() ==> s.drop_first()[j].0@ != k);
            lemma_lookup_absent(s.drop_first(), k);
        }
    } else {
        assert(s.remove(i).drop_first() =~= s.drop_first().remove(i - 1));
        assert(s.remove(i)[0] == s[0]);
        lemma_lookup_remove(s.drop_first(), i - 1, k);
    }
}

/// Lookups agree on entry lists whose keys and values agree pairwise.
pub proof fn lemma_lookup_congruent(
    s1: Seq<(String, Payload)>,
    s2: Seq<(String, Payload)>,
    k: Seq<char>,
)
    requires
        s1.len() == s2.len(),
        forall|j: int| 0 <= j < s1.len() ==> {
            &&& (#[trigger] s1[j]).0@ == s2[j].0@
            &&& s1[j].1@ == s2[j].1@
        },
    ensures
        lookup(s1, k) == lookup(s2, k),
    decreases s1.len(),
{
    if s1.len() > 0 && s1[0].0@ != k {
        lemma_lookup_congruent(s1.drop_first(), s2.drop_first(), k);
    }
}

/// A key/value store with unique string keys.
pub struct StateStore {
    entries: Vec<(String, Payload)>,
}

impl StateStore {
    /// Keys are pairwise distinct.
    pub closed spec fn wf(self) -> bool {
        forall|a: int, b: int|
            0 <= a < b < self.entries.len() ==> self.entries[a].0@ != self.entries[b].0@
    }

    /// The value stored under key `k`, if any.
    pub closed spec fn val(self, k: Seq<char>) -> Option<PayloadVal> {
        lookup(self.entries@, k)
    }

    /// An empty store.
    pub fn new() -> (r: StateStore)
        ensures
            r.wf(),
            forall|k: Seq<char>| r.val(k) is None,
    {
        let r = StateStore { entries: Vec::new() };
        r
    }

    /// The index of the entry holding `key`, if any.
    fn find(&self, key: &String) -> (r: Option<usize>)
        ensures
            match r {
                Option::Some(i) => i < self.entries@.len() && self.entries@[i as int].0@ == key@
                    && forall|j: int| 0 <= j < i ==> self.entries@[j].0@ != key@,
                Option::None => forall|j: int|
                    0 <= j < self.entries@.len() ==> self.entries@[j].0@ != key@,
            },
    {
        let mut i: usize = 0;
        while i < self.entries.len()
            invariant
                i <= self.entries@.len(),
                forall|j: int| 0 <= j < i ==> self.entries@[j].0@ != key@,
            decreases self.entries@.len() - i,
        {
            if self.entries[i].0 == *key {
                return Some(i);
            }
            i = i + 1;
        }
        None
    }

    /// Reads the value under `key`.
    pub fn get(&self, key: &String) -> (r: Option<Payload>)
        ensures
            opt_payload_val(r) == self.val(key@),
    {
        match self.find(key) {
            Some(i) => {
                proof {
                    lemma_lookup_at(self.entries@, key@, i as int);
                }
                Some(self.entries[i].1.dup())
            },
            None => {
                proof {
                    lemma_lookup_absent(self.entries@, key@);
                }
                None
            },
        }
    }

    /// Writes `value` under `key`, replacing any earlier value.
    pub fn set(&mut self, key: String, value: Payload)
        requires
            old(self).wf(),
        ensures
            final(self).wf(),
            final(self).val(key@) == Option::Some(value@),
            forall|k: Seq<char>| k != key@ ==> final(self).val(k) == old(self).val(k),
    {
        self.clear(&key);
        let ghost cleared = self.entries@;
        self.entries.push((key, value));
        proof {
            assert forall|j: int| 0 <= j < cleared.len() implies cleared[j].0@ != key@ by {
                if cleared[j].0@ == key@ {
                    lemma_lookup_at(cleared, key@, j);
                }
            }
            assert forall|k: Seq<char>| #[trigger] lookup(cleared.push((key, value)), k)
                == (if k == key@ { Option::Some(value@) } else { lookup(cleared, k) }) by {
                lemma_lookup_push(cleared, (key, value), k);
            }
            assert forall|a: int, b: int|
                0 <= a < b < self.entries@.len()
                implies self.entries@[a].0@ != self.entries@[b].0@ by {
                if b < cleared.len() {
                    assert(self.entries@[a] == cleared[a]);
                    assert(self.entries@[b] == cleared[b]);
                } else {
                    assert(self.entries@[a] == cleared[a]);
                    assert(self.entries@[b].0@ == key@);
                }
            }
        }
    }

    /// Removes any value under `key`.
    pub fn clear(&mut self, key: &String)
        requires
            old(self).wf(),
        ensures
            final(self).wf(),
            final(self).val(key@) is None,
            forall|k: Seq<char>| k != key@ ==> final(self).val(k) == old(self).val(k),
    {
        match self.find(key) {
            Some(i) => {
                let ghost before = self.entries@;
                self.entries.remove(i);
                proof {
                    assert forall|k: Seq<char>| #[trigger] lookup(before.remove(i as int), k)
                        == (if before[i as int].0@ == k {
                        Option::<PayloadVal>::None
                    } else {
                        lookup(before, k)
                    }) by {
                        lemma_lookup_remove(before, i as int, k);
                    }
                    assert forall|j: int|
                        0 <= j < self.entries@.len() implies self.entries@[j].0@ != key@ by {
                        if j < i {
                            assert(self.entries@[j] == before[j]);
                        } else {
                            assert(self.entries@[j] == before[j + 1]);
                        }
                    }
                }
            },
            None => {
                proof {
                    lemma_lookup_absent(self.entries@, key@);
                }
            },
        }
    }

    /// Copies the store, for handing one invocation its own working view.
    pub fn snapshot(&self) -> (r: StateStore)
        requires
            self.wf(),
        ensures
            r.wf(),
            forall|k: Seq<char>| r.val(k) == self.val(k),
    {
        let mut entries: Vec<(String, Payload)> = Vec::new();
        let mut i: usize = 0;
        while i < self.entries.len()
            invariant
                i <= self.entries@.len(),
                entries@.len() == i,
                forall|j: int| 0 <= j < i ==> {
                    &&& (#[trigger] entries@[j]).0@ == self.entries@[j].0@
                    &&& entries@[j].1@ == self.entries@[j].1@
                },
            decreases self.entries@.len() - i,
        {
            entries.push((self.entries[i].0.clone(), self.entries[i].1.dup()));
            i = i + 1;
        }
        let r = StateStore { entries };
        proof {
            assert forall|k: Seq<char>| r.val(k) == self.val(k) by {
                lemma_lookup_congruent(r.entries@, self.entries@, k);
            }
        }
        r
    }

    /// Removes every value of the instance.
    pub fn clear_all(&mut self)
        ensures
            final(self).wf(),
            forall|k: Seq<char>| final(self).val(k) is None,
    {
        self.entries.clear();
    }
}

/// The value of key `k` after the state entries of a journal are applied, in
/// order, to a base store.  Entries of other kinds change nothing.
pub open spec fn applied_val(
    base: StateStore,
    es: Seq<JournalEntryVal>,
    k: Seq<char>,
) -> Option<PayloadVal>
    decreases es.len(),
{
    if es.len() == 0 {
        base.val(k)
    } else {
        let prev = applied_val(base, es.drop_last(), k);
        match es.last() {
            JournalEntryVal::StateSet { key, value } => if key == k {
                Option::Some(value)
            } else {
                prev
            },
            JournalEntryVal::StateClear { key } => if key == k {
                Option::None
            } else {
                prev
            },
            JournalEntryVal::StateClearAll => Option::None,
            _ => prev,
        }
    }
}

/// Commits an invocation's buffered writes: applies the journal's state
/// entries, in order, to the authoritative store.  Called exactly once, when
/// the invocation completes successfully; a failed invocation commits
/// nothing.
pub fn commit_entries(store: &mut StateStore, es: &Vec<JournalEntry>)
    requires
        old(store).wf(),
    ensures
        final(store).wf(),
        forall|k: Seq<char>|
            final(store).val(k) == applied_val(*old(store), entry_views(es@), k),
{
    let ghost base = *store;
    let ghost vs = entry_views(es@);
    let mut i: usize = 0;
    while i < es.len()
        invariant
            i <= es@.len(),
            store.wf(),
            vs == entry_views(es@),
            forall|k: Seq<char>| store.val(k) == applied_val(base, vs.take(i as int), k),
        decreases es@.len() - i,
    {
        let ghost store0 = *store;
        match &es[i] {
            JournalEntry::StateSet { key, value } => {
                store.set(key.clone(), value.dup());
            },
            JournalEntry::StateClear { key } => {
                store.clear(key);
            },
            JournalEntry::StateClearAll => {
                store.clear_all();
            },
            _ => {},
        }
        proof {
            assert(vs.take(i + 1 as int).drop_last() =~= vs.take(i as int));
            assert(vs.take(i + 1 as int).last() == es@[i as int]@);
            assert forall|k: Seq<char>|
                store.val(k) == applied_val(base, vs.take(i + 1 as int), k) by {
                assert(store0.val(k) == applied_val(base, vs.take(i as int), k));
            }
        }
        i = i + 1;
    }
    proof {
        assert(vs.take(es@.len() as int) =~= vs);
    }
}

} // verus!
