//! The answer store: a backend-agnostic key-value capability with a tri-state
//! lookup result, so that "missing key" is ordinary control flow and never
//! conflated with a backend failure.
use vstd::prelude::*;

verus! {

/// A backend get/set failure (anything other than "key absent").
#[derive(Clone, Copy, PartialEq, Eq, Structural, Debug)]
pub struct StoreFailure;

/// The result of looking a question up: the stored answer, a definite
/// absence, or a backend failure.
#[derive(Debug, PartialEq, Eq)]
pub enum Lookup {
    Found(String),
    NotFound,
    Failed(StoreFailure),
}

/// A key-value store of question-to-answer pairs. Backends differ (an
/// embedded store, a remote one), but all are used through this one contract:
/// `get` reports the stored answer, a definite absence, or a failure, and
/// `set` overwrites the entry for a key or fails.
pub trait AnswerStore: Sized {
    /// The question-to-answer pairs this store currently holds. The default,
    /// for backends whose contents cannot be modelled, holds nothing.
    open spec fn entries(&self) -> Map<Seq<char>, Seq<char>> {
        Map::empty()
    }

    /// Whether operations of this store may signal a failure. A store for
    /// which this is false always answers from `entries` and always accepts
    /// writes. The default claims nothing: any operation may fail.
    open spec fn may_fail(&self) -> bool {
        true
    }

    /// Whether every lookup of this store fails. The default claims nothing
    /// of the kind.
    open spec fn always_fails_get(&self) -> bool {
        false
    }

    /// Whether every write to this store fails. The default claims nothing
    /// of the kind.
    open spec fn always_fails_set(&self) -> bool {
        false
    }

    /// Look `key` up. The store's contents are not changed by a lookup.
    fn get(&mut self, key: &str) -> (r: Lookup)
        ensures
            final(self).entries() == old(self).entries(),
            final(self).may_fail() == old(self).may_fail(),
            final(self).always_fails_get() == old(self).always_fails_get(),
            final(self).always_fails_set() == old(self).always_fails_set(),
            match r {
                Lookup::Found(v) => old(self).entries().contains_key(key@) && v@ == old(
                    self,
                ).entries()[key@],
                Lookup::NotFound => !old(self).entries().contains_key(key@),
                Lookup::Failed(_) => old(self).may_fail(),
            },
            old(self).always_fails_get() ==> r matches Lookup::Failed(_),
    ;

    /// Store `value` under `key`, overwriting any previous entry. On failure
    /// nothing is promised of the store's contents.
    fn set(&mut self, key: &str, value: &str) -> (r: Result<(), StoreFailure>)
        ensures
            final(self).may_fail() == old(self).may_fail(),
            final(self).always_fails_get() == old(self).always_fails_get(),
            final(self).always_fails_set() == old(self).always_fails_set(),
            match r {
                Ok(()) => final(self).entries() == old(self).entries().insert(key@, value@),
                Err(_) => old(self).may_fail(),
            },
            old(self).always_fails_set() ==> r is Err,
    ;
}

/// The map held by a sequence of key-value pairs where a later pair for the
/// same key overrides an earlier one.
pub open spec fn map_of(pairs: Seq<(String, String)>) -> Map<Seq<char>, Seq<char>>
    decreases pairs.len(),
{
    if pairs.len() == 0 {
        Map::empty()
    } else {
        map_of(pairs.drop_last()).insert(pairs.last().0@, pairs.last().1@)
    }
}

/// If no pair at position `i` or later has key `k`, the pairs up to `i`
/// already decide what the whole sequence holds for `k`.
proof fn lemma_map_of_unmatched_tail(pairs: Seq<(String, String)>, k: Seq<char>, i: int)
    requires
        0 <= i <= pairs.len(),
        forall|j: int| i <= j < pairs.len() ==> pairs[j].0@ != k,
    ensures
        map_of(pairs).contains_key(k) <==> map_of(pairs.take(i)).contains_key(k),
        map_of(pairs).contains_key(k) ==> map_of(pairs)[k] == map_of(pairs.take(i))[k],
    decreases pairs.len() - i,
{
    if i == pairs.len() {
        assert(pairs.take(i) =~= pairs);
    } else {
        lemma_map_of_unmatched_tail(pairs, k, i + 1);
        let shorter = pairs.take(i + 1);
        assert(shorter.drop_last() =~= pairs.take(i));
        assert(shorter.last() == pairs[i]);
    }
}

/// An embedded single-process store. It answers every lookup from its own
/// contents and accepts every write, unless failures are injected through the
/// two `fail_*` switches; it also counts its calls, so that a caller's use of
/// the store can be observed.
pub struct InMemoryStore {
    /// The stored pairs; a later pair for a key overrides an earlier one.
    pub pairs: Vec<(String, String)>,
    /// When set, every `get` signals `StoreFailure`.
    pub fail_gets: bool,
    /// When set, every `set` signals `StoreFailure`.
    pub fail_sets: bool,
    /// How many times `get` was called (saturating).
    pub get_calls: u64,
    /// How many times `set` was called (saturating).
    pub set_calls: u64,
}

impl InMemoryStore {
    /// An empty, reliable store.
    pub fn new() -> (r: Self)
        ensures
            r.entries() == Map::<Seq<char>, Seq<char>>::empty(),
            !r.may_fail(),
            r.get_calls == 0,
            r.set_calls == 0,
    {
        InMemoryStore { pairs: Vec::new(), fail_gets: false, fail_sets: false, get_calls: 0, set_calls: 0 }
    }

    /// An empty store whose operations fail as the two switches say, for
    /// exercising failure propagation.
    pub fn with_faults(fail_gets: bool, fail_sets: bool) -> (r: Self)
        ensures
            r.entries() == Map::<Seq<char>, Seq<char>>::empty(),
            r.may_fail() == (fail_gets || fail_sets),
            r.fail_gets == fail_gets,
            r.fail_sets == fail_sets,
            r.get_calls == 0,
            r.set_calls == 0,
    {
        InMemoryStore { pairs: Vec::new(), fail_gets, fail_sets, get_calls: 0, set_calls: 0 }
    }

    /// Pre-seed an entry regardless of the failure switches.
    pub fn seed(&mut self, key: &str, value: &str)
        ensures
            final(self).entries() == old(self).entries().insert(key@, value@),
            final(self).may_fail() == old(self).may_fail(),
            final(self).fail_gets == old(self).fail_gets,
            final(self).fail_sets == old(self).fail_sets,
            final(self).get_calls == old(self).get_calls,
            final(self).set_calls == old(self).set_calls,
    {
        self.pairs.push((key.to_owned(), value.to_owned()));
        proof {
            assert(self.pairs@.drop_last() =~= old(self).pairs@);
        }
    }
}

impl AnswerStore for InMemoryStore {
    open spec fn entries(&self) -> Map<Seq<char>, Seq<char>> {
        map_of(self.pairs@)
    }

    open spec fn may_fail(&self) -> bool {
        self.fail_gets || self.fail_sets
    }

    open spec fn always_fails_get(&self) -> bool {
        self.fail_gets
    }

    open spec fn always_fails_set(&self) -> bool {
        self.fail_sets
    }

    fn get(&mut self, key: &str) -> (r: Lookup) {
        if self.get_calls < u64::MAX {
            self.get_calls = self.get_calls + 1;
        }
        if self.fail_gets {
            return Lookup::Failed(StoreFailure);
        }
        let wanted = key.to_owned();
        let mut i = self.pairs.len();
        while i > 0
            invariant
                i <= self.pairs@.len(),
                wanted@ == key@,
                self.pairs@ == old(self).pairs@,
                self.fail_gets == old(self).fail_gets,
                self.fail_sets == old(self).fail_sets,
                !self.fail_gets,
                forall|j: int| i <= j < self.pairs@.len() ==> self.pairs@[j].0@ != key@,
            decreases i,
        {
            i = i - 1;
            if self.pairs[i].0 == wanted {
                proof {
                    lemma_map_of_unmatched_tail(self.pairs@, key@, i + 1);
                    let upto = self.pairs@.take(i + 1);
                    assert(upto.drop_last() =~= self.pairs@.take(i as int));
                    assert(upto.last() == self.pairs@[i as int]);
                }
                return Lookup::Found(self.pairs[i].1.clone());
            }
        }
        proof {
            lemma_map_of_unmatched_tail(self.pairs@, key@, 0);
            assert(self.pairs@.take(0) =~= Seq::<(String, String)>::empty());
        }
        Lookup::NotFound
    }

    fn set(&mut self, key: &str, value: &str) -> (r: Result<(), StoreFailure>) {
        if self.set_calls < u64::MAX {
            self.set_calls = self.set_calls + 1;
        }
        if self.fail_sets {
            return Err(StoreFailure);
        }
        self.pairs.push((key.to_owned(), value.to_owned()));
        proof {
            assert(self.pairs@.drop_last() =~= old(self).pairs@);
        }
        Ok(())
    }
}

} // verus!
