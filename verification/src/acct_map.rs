//! A finite account-to-amount map with default 0, backed by a vector of
//! entries with pairwise distinct keys. Beside lookup and update it tracks
//! the sum of all amounts, which is what ties a ledger's balances to its
//! total supply.

use vstd::prelude::*;
use crate::types::Account;

verus! {

/// One entry: an account paired with the amount it holds.
#[derive(Clone, Copy)]
pub struct AcctEntry {
    pub key: Account,
    pub val: u128,
}

/// The sum of all amounts in `s`.
pub open spec fn sum_of(s: Seq<AcctEntry>) -> int
    decreases s.len(),
{
    if s.len() == 0 {
        0
    } else {
        sum_of(s.drop_last()) + s.last().val
    }
}

/// The amount `s` associates with `key`; 0 when no entry holds `key`.
pub open spec fn get_of(s: Seq<AcctEntry>, key: Account) -> u128
    decreases s.len(),
{
    if s.len() == 0 {
        0
    } else if s.last().key == key {
        s.last().val
    } else {
        get_of(s.drop_last(), key)
    }
}

/// Pairwise distinct keys.
pub open spec fn distinct_keys(s: Seq<AcctEntry>) -> bool {
    forall|i: int, j: int|
        0 <= i < j < s.len() ==> #[trigger] s[i].key != #[trigger] s[j].key
}

pub proof fn lemma_sum_nonneg(s: Seq<AcctEntry>)
    ensures
        0 <= sum_of(s),
    decreases s.len(),
{
    if s.len() > 0 {
        lemma_sum_nonneg(s.drop_last());
    }
}

/// No single amount exceeds the sum of all of them.
pub proof fn lemma_get_le_sum(s: Seq<AcctEntry>, key: Account)
    ensures
        get_of(s, key) <= sum_of(s),
    decreases s.len(),
{
    if s.len() > 0 {
        if s.last().key == key {
            lemma_sum_nonneg(s.drop_last());
        } else {
            lemma_get_le_sum(s.drop_last(), key);
        }
    }
}

/// With distinct keys, a lookup returns the value of the entry that holds
/// the key.
pub proof fn lemma_get_found(s: Seq<AcctEntry>, i: int, key: Account)
    requires
        distinct_keys(s),
        0 <= i < s.len(),
        s[i].key == key,
    ensures
        get_of(s, key) == s[i].val,
    decreases s.len(),
{
    if i < s.len() - 1 {
        assert(s.drop_last()[i] == s[i]);
        lemma_get_found(s.drop_last(), i, key);
    }
}

/// A key no entry holds maps to 0.
pub proof fn lemma_get_absent(s: Seq<AcctEntry>, key: Account)
    requires
        forall|j: int| 0 <= j < s.len() ==> #[trigger] s[j].key != key,
    ensures
        get_of(s, key) == 0,
    decreases s.len(),
{
    if s.len() > 0 {
        lemma_get_absent(s.drop_last(), key);
    }
}

/// Overwriting the entry at `i` (keeping its key) moves exactly that key's
/// value, leaves every other key's value alone, and shifts the sum by the
/// difference.
pub proof fn lemma_set_at(s: Seq<AcctEntry>, i: int, e: AcctEntry)
    requires
        distinct_keys(s),
        0 <= i < s.len(),
        s[i].key == e.key,
    ensures
        distinct_keys(s.update(i, e)),
        sum_of(s.update(i, e)) == sum_of(s) - s[i].val + e.val,
        forall|k: Account|
            get_of(s.update(i, e), k) == if k == e.key {
                e.val
            } else {
                get_of(s, k)
            },
    decreases s.len(),
{
    let t = s.update(i, e);
    if i == s.len() - 1 {
        assert(t.drop_last() =~= s.drop_last());
        assert forall|k: Account|
            get_of(t, k) == if k == e.key {
                e.val
            } else {
                get_of(s, k)
            } by {
            if k != e.key {
                assert(get_of(t, k) == get_of(s.drop_last(), k));
            }
        }
    } else {
        assert(t.drop_last() =~= s.drop_last().update(i, e));
        assert(s.drop_last()[i] == s[i]);
        lemma_set_at(s.drop_last(), i, e);
        assert forall|k: Account|
            get_of(t, k) == if k == e.key {
                e.val
            } else {
                get_of(s, k)
            } by {
            // the last entry is untouched; its key differs from e.key
            assert(s[i].key != s[s.len() - 1].key);
            assert(t.last() == s.last());
            assert(get_of(s.drop_last().update(i, e), k) == if k == e.key {
                e.val
            } else {
                get_of(s.drop_last(), k)
            });
            assert(get_of(t.drop_last(), k) == get_of(s.drop_last().update(i, e), k));
        }
    }
}

/// Appending an entry with a fresh key adds its value to the sum and changes
/// no other key's value.
pub proof fn lemma_push_new(s: Seq<AcctEntry>, e: AcctEntry)
    requires
        distinct_keys(s),
        forall|j: int| 0 <= j < s.len() ==> #[trigger] s[j].key != e.key,
    ensures
        distinct_keys(s.push(e)),
        sum_of(s.push(e)) == sum_of(s) + e.val,
        forall|k: Account|
            get_of(s.push(e), k) == if k == e.key {
                e.val
            } else {
                get_of(s, k)
            },
{
    let t = s.push(e);
    assert(t.drop_last() =~= s);
    assert(t.last() == e);
    assert forall|i: int, j: int| 0 <= i < j < t.len() implies #[trigger] t[i].key
        != #[trigger] t[j].key by {
        if j < s.len() {
            assert(t[i] == s[i] && t[j] == s[j]);
        } else {
            assert(t[i] == s[i] && t[j] == e);
        }
    }
}

/// A finite map from account to amount, with every absent account holding 0.
pub struct AccountMap {
    pub entries: Vec<AcctEntry>,
}

impl AccountMap {
    /// The backing vector holds each key at most once.
    pub open spec fn wf(self) -> bool {
        distinct_keys(self.entries@)
    }

    /// The amount `key` holds; 0 when the map has no entry for it.
    pub open spec fn spec_get(self, key: Account) -> u128 {
        get_of(self.entries@, key)
    }

    /// The sum of all amounts held.
    pub open spec fn total(self) -> int {
        sum_of(self.entries@)
    }

    /// An empty map: every account holds 0.
    pub fn new() -> (r: AccountMap)
        ensures
            r.wf(),
            r.total() == 0,
            forall|k: Account| r.spec_get(k) == 0,
    {
        AccountMap { entries: Vec::new() }
    }

    /// The sum is non-negative and bounds every single amount.
    pub proof fn lemma_get_le_total(self, key: Account)
        ensures
            0 <= self.total(),
            self.spec_get(key) <= self.total(),
    {
        lemma_sum_nonneg(self.entries@);
        lemma_get_le_sum(self.entries@, key);
    }

    fn find_idx(&self, key: Account) -> (r: Option<usize>)
        ensures
            match r {
                Some(i) => i < self.entries@.len() && self.entries@[i as int].key == key,
                None => forall|j: int|
                    0 <= j < self.entries@.len() ==> #[trigger] self.entries@[j].key != key,
            },
    {
        let n = self.entries.len();
        let mut i: usize = 0;
        while i < n
            invariant
                i <= n,
                n == self.entries@.len(),
                forall|j: int| 0 <= j < i ==> #[trigger] self.entries@[j].key != key,
            decreases n - i,
        {
            if self.entries[i].key == key {
                return Some(i);
            }
            i = i + 1;
        }
        None
    }

    /// The amount `key` holds now.
    pub fn get(&self, key: Account) -> (r: u128)
        requires
            self.wf(),
        ensures
            r == self.spec_get(key),
    {
        match self.find_idx(key) {
            Some(i) => {
                proof {
                    lemma_get_found(self.entries@, i as int, key);
                }
                self.entries[i].val
            },
            None => {
                proof {
                    lemma_get_absent(self.entries@, key);
                }
                0
            },
        }
    }

    /// Sets `key` to `val`: every other account is untouched, and the total
    /// moves by exactly the difference.
    pub fn set(&mut self, key: Account, val: u128)
        requires
            old(self).wf(),
        ensures
            final(self).wf(),
            forall|k: Account|
                final(self).spec_get(k) == if k == key {
                    val
                } else {
                    old(self).spec_get(k)
                },
            final(self).total() == old(self).total() - old(self).spec_get(key) + val,
    {
        let ghost s0 = self.entries@;
        match self.find_idx(key) {
            Some(i) => {
                proof {
                    lemma_get_found(s0, i as int, key);
                    lemma_set_at(s0, i as int, AcctEntry { key, val });
                }
                self.entries[i] = AcctEntry { key, val };
            },
            None => {
                proof {
                    lemma_get_absent(s0, key);
                    lemma_push_new(s0, AcctEntry { key, val });
                }
                self.entries.push(AcctEntry { key, val });
            },
        }
    }
}

} // verus!
