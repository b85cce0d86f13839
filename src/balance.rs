use vstd::prelude::*;
use crate::instrument::BalanceKey;

verus! {

/// One gift card's current balance, in minor units.
#[derive(Debug, PartialEq, Eq)]
pub struct BalanceEntry {
    pub key: BalanceKey,
    pub balance: u64,
}

/// The balances reported by the balance service for one run: a mapping from
/// balance key to balance, kept as a list of entries with distinct keys.
#[derive(Debug, PartialEq, Eq)]
pub struct BalanceSnapshot {
    entries: Vec<BalanceEntry>,
}

pub type KeyView = (crate::instrument::PaymentMethod, crate::instrument::PaymentMethodSubtype, Seq<char>);

/// The balance recorded under `k`, if any.
pub open spec fn lookup(s: Seq<BalanceEntry>, k: KeyView) -> Option<u64>
    decreases s.len(),
{
    if s.len() == 0 {
        None
    } else if s.last().key@ == k {
        Some(s.last().balance)
    } else {
        lookup(s.drop_last(), k)
    }
}

/// The sum of all recorded balances.
pub open spec fn sum_balances(s: Seq<BalanceEntry>) -> int
    decreases s.len(),
{
    if s.len() == 0 {
        0
    } else {
        sum_balances(s.drop_last()) + s.last().balance
    }
}

/// No key is recorded twice.
pub open spec fn distinct_keys(s: Seq<BalanceEntry>) -> bool {
    forall|i: int, j: int| 0 <= i < j < s.len() ==> s[i].key@ != s[j].key@
}

proof fn lemma_lookup_absent(s: Seq<BalanceEntry>, k: KeyView)
    requires
        forall|i: int| 0 <= i < s.len() ==> s[i].key@ != k,
    ensures
        lookup(s, k) is None,
    decreases s.len(),
{
    if s.len() > 0 {
        lemma_lookup_absent(s.drop_last(), k);
    }
}

proof fn lemma_sum_nonneg(s: Seq<BalanceEntry>)
    ensures
        sum_balances(s) >= 0,
    decreases s.len(),
{
    if s.len() > 0 {
        lemma_sum_nonneg(s.drop_last());
    }
}

/// Replacing the balance of entry `i` changes the sum by the difference.
proof fn lemma_sum_update(s: Seq<BalanceEntry>, i: int, e: BalanceEntry)
    requires
        0 <= i < s.len(),
    ensures
        sum_balances(s.update(i, e)) == sum_balances(s) - s[i].balance + e.balance,
    decreases s.len(),
{
    if i < s.len() - 1 {
        assert(s.update(i, e).drop_last() =~= s.drop_last().update(i, e));
        lemma_sum_update(s.drop_last(), i, e);
    } else {
        assert(s.update(i, e).drop_last() =~= s.drop_last());
    }
}

/// Replacing entry `i` by one with the same key changes only the lookup of that key.
proof fn lemma_lookup_update(s: Seq<BalanceEntry>, i: int, e: BalanceEntry, k: KeyView)
    requires
        0 <= i < s.len(),
        distinct_keys(s),
        e.key@ == s[i].key@,
    ensures
        lookup(s.update(i, e), k) == (if k == e.key@ { Some(e.balance) } else { lookup(s, k) }),
    decreases s.len(),
{
    let t = s.update(i, e);
    if i < s.len() - 1 {
        assert(t.drop_last() =~= s.drop_last().update(i, e));
        lemma_lookup_update(s.drop_last(), i, e, k);
    } else {
        assert(t.drop_last() =~= s.drop_last());
    }
}

impl BalanceSnapshot {
    /// The entries have distinct keys.
    #[verifier::type_invariant]
    spec fn wf(&self) -> bool {
        distinct_keys(self.entries@)
    }

    /// The recorded entries, in order of first insertion.
    pub closed spec fn entries(&self) -> Seq<BalanceEntry> {
        self.entries@
    }

    /// The balance recorded under `k`, if any.
    pub open spec fn balance_of(&self, k: KeyView) -> Option<u64> {
        lookup(self.entries(), k)
    }

    /// The sum of all recorded balances.
    pub open spec fn total(&self) -> int {
        sum_balances(self.entries())
    }

    /// A snapshot with no balance recorded.
    pub fn new() -> (r: BalanceSnapshot)
        ensures
            r.entries().len() == 0,
            forall|k: KeyView| r.balance_of(k) is None,
            r.total() == 0,
    {
        BalanceSnapshot { entries: Vec::new() }
    }

    /// The number of recorded balances.
    pub fn len(&self) -> (r: usize)
        ensures
            r == self.entries().len(),
    {
        self.entries.len()
    }

    /// Records `balance` under `key`, replacing the balance recorded there before.
    pub fn insert(&mut self, key: BalanceKey, balance: u64)
        ensures
            distinct_keys(final(self).entries()),
            final(self).balance_of(key@) == Some(balance),
            forall|k: KeyView| k != key@ ==> final(self).balance_of(k) == old(self).balance_of(k),
            final(self).total() == old(self).total() - (match old(self).balance_of(key@) {
                Some(b) => b as int,
                None => 0int,
            }) + balance,
    {
        proof {
            use_type_invariant(&*self);
        }
        let ghost s = self.entries@;
        let found = self.position(&key);
        let mut entries: Vec<BalanceEntry> = Vec::new();
        std::mem::swap(&mut entries, &mut self.entries);
        match found {
            Some(i) => {
                let e = BalanceEntry { key, balance };
                proof {
                    lemma_sum_update(s, i as int, e);
                    assert forall|k: KeyView| #[trigger] lookup(s.update(i as int, e), k) == (
                    if k == e.key@ {
                        Some(e.balance)
                    } else {
                        lookup(s, k)
                    }) by {
                        lemma_lookup_update(s, i as int, e, k);
                    }
                    lemma_lookup_at(s, i as int);
                }
                entries.set(i, e);
                assert(entries@ == s.update(i as int, e));
            },
            None => {
                let ghost kv = key@;
                let e = BalanceEntry { key, balance };
                entries.push(e);
                proof {
                    lemma_lookup_absent(s, kv);
                    assert(entries@.drop_last() =~= s);
                }
            },
        }
        self.entries = entries;
    }

    /// The index of the entry recorded under `key`, if any.
    fn position(&self, key: &BalanceKey) -> (r: Option<usize>)
        ensures
            r is None ==> forall|i: int| 0 <= i < self.entries@.len() ==> self.entries@[i].key@ != key@,
            r matches Some(i) ==> i < self.entries@.len() && self.entries@[i as int].key@ == key@,
    {
        let mut i: usize = 0;
        while i < self.entries.len()
            invariant
                i <= self.entries@.len(),
                forall|j: int| 0 <= j < i ==> self.entries@[j].key@ != key@,
            decreases self.entries@.len() - i,
        {
            if self.entries[i].key.same_as(key) {
                return Some(i);
            }
            i = i + 1;
        }
        None
    }

    /// The balance recorded under `key`, if any.
    pub fn get(&self, key: &BalanceKey) -> (r: Option<u64>)
        ensures
            r == self.balance_of(key@),
    {
        proof {
            use_type_invariant(self);
        }
        match self.position(key) {
            Some(i) => {
                proof {
                    lemma_lookup_at(self.entries@, i as int);
                }
                Some(self.entries[i].balance)
            },
            None => {
                proof {
                    lemma_lookup_absent(self.entries@, key@);
                }
                None
            },
        }
    }

    /// The sum of all recorded balances, capped at `u64::MAX`.
    pub fn total_capped(&self) -> (r: u64)
        ensures
            r == (if self.total() > u64::MAX { u64::MAX as int } else { self.total() }),
    {
        let mut acc: u64 = 0;
        let mut i: usize = 0;
        while i < self.entries.len()
            invariant
                i <= self.entries@.len(),
                acc == (if sum_balances(self.entries@.subrange(0, i as int)) > u64::MAX {
                    u64::MAX as int
                } else {
                    sum_balances(self.entries@.subrange(0, i as int))
                }),
            decreases self.entries@.len() - i,
        {
            proof {
                assert(self.entries@.subrange(0, i + 1).drop_last() =~= self.entries@.subrange(0, i as int));
                lemma_sum_nonneg(self.entries@.subrange(0, i as int));
            }
            acc = acc.saturating_add(self.entries[i].balance);
            i = i + 1;
        }
        assert(self.entries@.subrange(0, i as int) =~= self.entries@);
        acc
    }
}

/// With distinct keys, the lookup of an entry's key finds that entry.
proof fn lemma_lookup_at(s: Seq<BalanceEntry>, i: int)
    requires
        distinct_keys(s),
        0 <= i < s.len(),
    ensures
        lookup(s, s[i].key@) == Some(s[i].balance),
    decreases s.len(),
{
    if i < s.len() - 1 {
        assert(s.drop_last()[i] == s[i]);
        lemma_lookup_at(s.drop_last(), i);
    }
}

} // verus!
