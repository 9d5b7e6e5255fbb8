//! The three persisted records of the auction: configuration, auction
//! state, and the per-bidder ledger, together with the well-formedness
//! predicate that every operation preserves.

use vstd::prelude::*;

verus! {

/// Whether the auction still accepts bids. The status moves from `Open`
/// to `Closed` exactly once and never back.
#[derive(Clone, Copy, Debug, PartialEq, Eq, Structural)]
pub enum Status {
    Open,
    Closed,
}

/// Immutable configuration, fixed at instantiation.
#[derive(Clone, Debug, PartialEq, Eq)]
pub struct Config {
    /// The identity authorized to close the auction; it receives the
    /// commission of each bid and the winning bid itself.
    pub owner: String,
    /// The single asset accepted for bids.
    pub denom: String,
    /// Minimum gross amount required per bid; zero disables the check.
    pub commission: u128,
}

/// Mutable auction state: the status and the current leader.
///
/// `highest_bid` is `None` until the first accepted bid; afterwards it
/// holds the leading bidder and their cumulative net amount. Closing the
/// auction keeps the pair (so the winner can still be queried) but removes
/// the winner's ledger entry.
#[derive(Clone, Debug, PartialEq, Eq)]
pub struct State {
    pub current_status: Status,
    pub highest_bid: Option<(String, u128)>,
}

/// Per-bidder ledger: maps each bidder to the cumulative net
/// (post-commission) amount the auction still escrows on their behalf.
///
/// The view of a ledger is a `Map<Seq<char>, u128>` from bidder identity
/// to outstanding amount; `sum()` is the total escrowed amount.
#[derive(Clone, Debug, PartialEq, Eq)]
pub struct Ledger {
    entries: Vec<(String, u128)>,
}

/// No two entries share a key.
pub open spec fn keys_unique(s: Seq<(String, u128)>) -> bool {
    forall|i: int, j: int| 0 <= i < j < s.len() ==> s[i].0@ != s[j].0@
}

/// The mapping that a sequence of entries denotes.
pub open spec fn map_of(s: Seq<(String, u128)>) -> Map<Seq<char>, u128>
    decreases s.len(),
{
    if s.len() == 0 {
        Map::empty()
    } else {
        map_of(s.drop_last()).insert(s.last().0@, s.last().1)
    }
}

/// The total amount recorded by a sequence of entries.
pub open spec fn sum_of(s: Seq<(String, u128)>) -> int
    decreases s.len(),
{
    if s.len() == 0 {
        0
    } else {
        sum_of(s.drop_last()) + s.last().1
    }
}

impl View for Ledger {
    type V = Map<Seq<char>, u128>;

    closed spec fn view(&self) -> Map<Seq<char>, u128> {
        map_of(self.entries@)
    }
}

/// The amount a ledger records for `k`, zero when `k` has no entry.
pub open spec fn ledger_amount(m: Map<Seq<char>, u128>, k: Seq<char>) -> int {
    if m.contains_key(k) {
        m[k] as int
    } else {
        0
    }
}

proof fn lemma_drop_last_unique(s: Seq<(String, u128)>)
    requires
        keys_unique(s),
        s.len() > 0,
    ensures
        keys_unique(s.drop_last()),
{
    assert forall|i: int, j: int|
        0 <= i < j < s.drop_last().len() implies s.drop_last()[i].0@ != s.drop_last()[j].0@ by {
        assert(s.drop_last()[i] == s[i]);
        assert(s.drop_last()[j] == s[j]);
    }
}

proof fn lemma_map_of_contains(s: Seq<(String, u128)>, k: Seq<char>)
    ensures
        map_of(s).contains_key(k) <==> (exists|i: int| 0 <= i < s.len() && s[i].0@ == k),
    decreases s.len(),
{
    if s.len() > 0 {
        lemma_map_of_contains(s.drop_last(), k);
        if s.last().0@ == k {
            assert(s[s.len() - 1].0@ == k);
        } else {
            if exists|i: int| 0 <= i < s.len() && s[i].0@ == k {
                let i = choose|i: int| 0 <= i < s.len() && s[i].0@ == k;
                assert(s.drop_last()[i] == s[i]);
            }
            if exists|i: int| 0 <= i < s.drop_last().len() && s.drop_last()[i].0@ == k {
                let i = choose|i: int| 0 <= i < s.drop_last().len() && s.drop_last()[i].0@ == k;
                assert(s[i] == s.drop_last()[i]);
            }
        }
    }
}

proof fn lemma_map_of_value(s: Seq<(String, u128)>, i: int)
    requires
        keys_unique(s),
        0 <= i < s.len(),
    ensures
        map_of(s).contains_key(s[i].0@),
        map_of(s)[s[i].0@] == s[i].1,
    decreases s.len(),
{
    if i == s.len() - 1 {
    } else {
        lemma_drop_last_unique(s);
        assert(s.drop_last()[i] == s[i]);
        lemma_map_of_value(s.drop_last(), i);
        assert(s[i].0@ != s.last().0@);
    }
}

/// Indexing facts about removing an inner element.
proof fn lemma_remove_inner(s: Seq<(String, u128)>, i: int)
    requires
        0 <= i < s.len() - 1,
    ensures
        s.remove(i).drop_last() =~= s.drop_last().remove(i),
        s.remove(i).last() == s.last(),
        s.remove(i).len() == s.len() - 1,
{
    let a = s.remove(i).drop_last();
    let b = s.drop_last().remove(i);
    assert forall|j: int| 0 <= j < a.len() implies a[j] == b[j] by {
        if j < i {
            assert(a[j] == s[j]);
            assert(b[j] == s[j]);
        } else {
            assert(a[j] == s[j + 1]);
            assert(b[j] == s[j + 1]);
        }
    }
    assert(a =~= b);
    assert(s.remove(i)[s.len() - 2] == s[s.len() - 1]);
}

proof fn lemma_keys_unique_remove(s: Seq<(String, u128)>, i: int)
    requires
        keys_unique(s),
        0 <= i < s.len(),
    ensures
        keys_unique(s.remove(i)),
        forall|j: int| 0 <= j < s.remove(i).len() ==> s.remove(i)[j].0@ != s[i].0@,
{
    assert forall|a: int, b: int|
        0 <= a < b < s.remove(i).len() implies s.remove(i)[a].0@ != s.remove(i)[b].0@ by {
        let a0: int = if a < i { a } else { a + 1 };
        let b0: int = if b < i { b } else { b + 1 };
        assert(s.remove(i)[a] == s[a0]);
        assert(s.remove(i)[b] == s[b0]);
    }
    assert forall|j: int| 0 <= j < s.remove(i).len() implies s.remove(i)[j].0@ != s[i].0@ by {
        let j0: int = if j < i { j } else { j + 1 };
        assert(s.remove(i)[j] == s[j0]);
    }
}

proof fn lemma_map_of_remove(s: Seq<(String, u128)>, i: int)
    requires
        keys_unique(s),
        0 <= i < s.len(),
    ensures
        map_of(s.remove(i)) == map_of(s).remove(s[i].0@),
    decreases s.len(),
{
    let k = s[i].0@;
    if i == s.len() - 1 {
        assert(s.remove(i) =~= s.drop_last());
        lemma_map_of_contains(s.drop_last(), k);
        assert forall|j: int| 0 <= j < s.drop_last().len() implies s.drop_last()[j].0@ != k by {
            assert(s.drop_last()[j] == s[j]);
        }
        assert(!map_of(s.drop_last()).contains_key(k));
        assert(map_of(s).remove(k) =~= map_of(s.drop_last()));
    } else {
        lemma_remove_inner(s, i);
        lemma_drop_last_unique(s);
        lemma_map_of_remove(s.drop_last(), i);
        assert(s.drop_last()[i] == s[i]);
        assert(s[i].0@ != s.last().0@);
        assert(map_of(s.remove(i)) == map_of(s.drop_last().remove(i)).insert(s.last().0@, s.last().1));
        assert(map_of(s.drop_last()).remove(k).insert(s.last().0@, s.last().1)
            =~= map_of(s.drop_last()).insert(s.last().0@, s.last().1).remove(k));
    }
}

proof fn lemma_sum_of_remove(s: Seq<(String, u128)>, i: int)
    requires
        0 <= i < s.len(),
    ensures
        sum_of(s.remove(i)) == sum_of(s) - s[i].1,
    decreases s.len(),
{
    if i == s.len() - 1 {
        assert(s.remove(i) =~= s.drop_last());
    } else {
        lemma_remove_inner(s, i);
        lemma_sum_of_remove(s.drop_last(), i);
        assert(s.drop_last()[i] == s[i]);
    }
}

proof fn lemma_map_of_push(s: Seq<(String, u128)>, kv: (String, u128))
    ensures
        map_of(s.push(kv)) == map_of(s).insert(kv.0@, kv.1),
        sum_of(s.push(kv)) == sum_of(s) + kv.1,
        keys_unique(s) && (forall|j: int| 0 <= j < s.len() ==> s[j].0@ != kv.0@)
            ==> keys_unique(s.push(kv)),
{
    assert(s.push(kv).drop_last() =~= s);
    assert(s.push(kv).last() == kv);
    if keys_unique(s) && (forall|j: int| 0 <= j < s.len() ==> s[j].0@ != kv.0@) {
        assert forall|i: int, j: int|
            0 <= i < j < s.push(kv).len() implies s.push(kv)[i].0@ != s.push(kv)[j].0@ by {
            assert(s.push(kv)[i] == s[i]);
            if j < s.len() {
                assert(s.push(kv)[j] == s[j]);
            }
        }
    }
}

impl Ledger {
    /// All entry keys are distinct, so the sequence of entries and the map
    /// it denotes carry the same information.
    pub closed spec fn wf(self) -> bool {
        keys_unique(self.entries@)
    }

    /// The total amount currently escrowed across all bidders.
    pub closed spec fn sum(self) -> int {
        sum_of(self.entries@)
    }

    /// An empty ledger.
    pub fn new() -> (l: Ledger)
        ensures
            l.wf(),
            l@ == Map::<Seq<char>, u128>::empty(),
            l.sum() == 0,
    {
        Ledger { entries: Vec::new() }
    }

    /// The index of the entry for `key`, if any.
    fn index_of(&self, key: &String) -> (r: Option<usize>)
        ensures
            match r {
                Some(i) => i < self.entries@.len() && self.entries@[i as int].0@ == key@,
                None => forall|j: int| 0 <= j < self.entries@.len() ==> self.entries@[j].0@ != key@,
            },
    {
        let mut i: usize = 0;
        while i < self.entries.len()
            invariant
                i <= self.entries@.len(),
                forall|j: int| 0 <= j < i ==> self.entries@[j].0@ != key@,
            decreases self.entries@.len() - i,
        {
            if self.entries[i].0 == *key {
                return Some(i);
            }
            i = i + 1;
        }
        None
    }

    /// The amount recorded for `key`, if `key` has an entry.
    pub fn get(&self, key: &String) -> (r: Option<u128>)
        requires
            self.wf(),
        ensures
            r == if self@.contains_key(key@) {
                Some(self@[key@])
            } else {
                None::<u128>
            },
    {
        proof {
            lemma_map_of_contains(self.entries@, key@);
        }
        match self.index_of(key) {
            Some(i) => {
                proof {
                    lemma_map_of_value(self.entries@, i as int);
                }
                Some(self.entries[i].1)
            },
            None => None,
        }
    }

    /// Records `value` for `key`, replacing any earlier entry.
    pub fn set(&mut self, key: &String, value: u128)
        requires
            old(self).wf(),
        ensures
            final(self).wf(),
            final(self)@ == old(self)@.insert(key@, value),
            final(self).sum() == old(self).sum() - ledger_amount(old(self)@, key@) + value,
    {
        proof {
            lemma_map_of_contains(self.entries@, key@);
        }
        let ghost pre = self.entries@;
        match self.index_of(key) {
            Some(i) => {
                proof {
                    lemma_map_of_value(self.entries@, i as int);
                    lemma_map_of_remove(self.entries@, i as int);
                    lemma_sum_of_remove(self.entries@, i as int);
                    lemma_keys_unique_remove(self.entries@, i as int);
                }
                self.entries.remove(i);
                let kv = (key.clone(), value);
                proof {
                    lemma_map_of_push(self.entries@, kv);
                }
                self.entries.push(kv);
                proof {
                    assert(map_of(pre).remove(key@).insert(key@, value)
                        =~= map_of(pre).insert(key@, value));
                }
            },
            None => {
                let kv = (key.clone(), value);
                proof {
                    lemma_map_of_push(self.entries@, kv);
                }
                self.entries.push(kv);
            },
        }
    }

    /// Rebuilds a ledger from stored entries, for a host that persists
    /// the ledger as a keyed mapping. Fails when two entries share a key.
    pub fn from_entries(entries: &Vec<(String, u128)>) -> (r: Option<Ledger>)
        ensures
            r matches Some(l) ==> l.wf() && l@ == map_of(entries@),
            r is None ==> !keys_unique(entries@),
    {
        let mut l = Ledger::new();
        let mut i: usize = 0;
        proof {
            assert(entries@.take(0) =~= Seq::<(String, u128)>::empty());
        }
        while i < entries.len()
            invariant
                i <= entries@.len(),
                l.wf(),
                l@ == map_of(entries@.take(i as int)),
            decreases entries@.len() - i,
        {
            proof {
                lemma_map_of_contains(entries@.take(i as int), entries@[i as int].0@);
            }
            if l.get(&entries[i].0).is_some() {
                proof {
                    let j = choose|j: int|
                        0 <= j < i && entries@.take(i as int)[j].0@ == entries@[i as int].0@;
                    assert(entries@[j].0@ == entries@[i as int].0@);
                }
                return None;
            }
            l.set(&entries[i].0, entries[i].1);
            proof {
                assert(entries@.take(i as int + 1).drop_last() =~= entries@.take(i as int));
                assert(entries@.take(i as int + 1).last() == entries@[i as int]);
            }
            i = i + 1;
        }
        proof {
            assert(entries@.take(i as int) =~= entries@);
        }
        Some(l)
    }

    /// The stored entries, for a host that persists the ledger as a
    /// keyed mapping. They denote exactly the ledger's view.
    pub fn entries(&self) -> (r: &Vec<(String, u128)>)
        ensures
            map_of(r@) == self@,
            sum_of(r@) == self.sum(),
            self.wf() ==> keys_unique(r@),
    {
        &self.entries
    }

    /// Removes the entry for `key`.
    pub fn remove(&mut self, key: &String)
        requires
            old(self).wf(),
            old(self)@.contains_key(key@),
        ensures
            final(self).wf(),
            final(self)@ == old(self)@.remove(key@),
            final(self).sum() == old(self).sum() - old(self)@[key@],
    {
        proof {
            lemma_map_of_contains(self.entries@, key@);
        }
        match self.index_of(key) {
            Some(i) => {
                proof {
                    lemma_map_of_value(self.entries@, i as int);
                    lemma_map_of_remove(self.entries@, i as int);
                    lemma_sum_of_remove(self.entries@, i as int);
                    lemma_keys_unique_remove(self.entries@, i as int);
                }
                self.entries.remove(i);
            },
            None => {
                proof {
                    let j = choose|j: int|
                        0 <= j < self.entries@.len() && self.entries@[j].0@ == key@;
                    assert(false);
                }
            },
        }
    }
}

/// The well-formedness of the auction state against the ledger.
///
/// While no bid was ever accepted the ledger is empty. While the auction is
/// open the leader has a ledger entry equal to the leading amount and every
/// other bidder's entry is strictly below it. After the close the winner's
/// entry is gone and every remaining entry is strictly below the winning
/// amount.
pub open spec fn auction_wf(state: State, bids: Map<Seq<char>, u128>) -> bool {
    match state.highest_bid {
        None => forall|k: Seq<char>| !bids.contains_key(k),
        Some(hb) => match state.current_status {
            Status::Open => bids.contains_key(hb.0@) && bids[hb.0@] == hb.1
                && forall|k: Seq<char>|
                    bids.contains_key(k) && k != hb.0@ ==> bids[k] < hb.1,
            Status::Closed => !bids.contains_key(hb.0@)
                && forall|k: Seq<char>| bids.contains_key(k) ==> bids[k] < hb.1,
        },
    }
}

} // verus!
