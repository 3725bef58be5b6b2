//! A finite map from an ordered (owner, spender) pair to an amount, with
//! default 0. Each pair is independent: setting one changes no other. This
//! backs a ledger's allowances.

use vstd::prelude::*;
use crate::types::Account;

verus! {

/// One entry: an ordered (owner, spender) pair and the amount granted.
#[derive(Clone, Copy)]
pub struct AllowEntry {
    pub owner: Account,
    pub spender: Account,
    pub val: u128,
}

/// The amount `s` associates with the pair `(o, sp)`; 0 when no entry holds
/// that pair.
pub open spec fn pair_get_of(s: Seq<AllowEntry>, o: Account, sp: Account) -> u128
    decreases s.len(),
{
    if s.len() == 0 {
        0
    } else if s.last().owner == o && s.last().spender == sp {
        s.last().val
    } else {
        pair_get_of(s.drop_last(), o, sp)
    }
}

/// Pairwise distinct (owner, spender) pairs.
pub open spec fn distinct_pairs(s: Seq<AllowEntry>) -> bool {
    forall|i: int, j: int|
        0 <= i < j < s.len() ==> !(#[trigger] s[i].owner == #[trigger] s[j].owner && s[i].spender
            == s[j].spender)
}

/// With distinct pairs, a lookup returns the value of the entry that holds
/// the pair.
pub proof fn lemma_pair_get_found(s: Seq<AllowEntry>, i: int, o: Account, sp: Account)
    requires
        distinct_pairs(s),
        0 <= i < s.len(),
        s[i].owner == o,
        s[i].spender == sp,
    ensures
        pair_get_of(s, o, sp) == s[i].val,
    decreases s.len(),
{
    if i < s.len() - 1 {
        assert(s.drop_last()[i] == s[i]);
        lemma_pair_get_found(s.drop_last(), i, o, sp);
    }
}

/// A pair no entry holds maps to 0.
pub proof fn lemma_pair_get_absent(s: Seq<AllowEntry>, o: Account, sp: Account)
    requires
        forall|j: int|
            0 <= j < s.len() ==> !(#[trigger] s[j].owner == o && s[j].spender == sp),
    ensures
        pair_get_of(s, o, sp) == 0,
    decreases s.len(),
{
    if s.len() > 0 {
        lemma_pair_get_absent(s.drop_last(), o, sp);
    }
}

/// Overwriting the entry at `i` (keeping its pair) moves exactly that pair's
/// value and leaves every other pair's value alone.
pub proof fn lemma_pair_set_at(s: Seq<AllowEntry>, i: int, e: AllowEntry)
    requires
        distinct_pairs(s),
        0 <= i < s.len(),
        s[i].owner == e.owner,
        s[i].spender == e.spender,
    ensures
        distinct_pairs(s.update(i, e)),
        forall|o: Account, sp: Account|
            pair_get_of(s.update(i, e), o, sp) == if o == e.owner && sp == e.spender {
                e.val
            } else {
                pair_get_of(s, o, sp)
            },
    decreases s.len(),
{
    let t = s.update(i, e);
    if i == s.len() - 1 {
        assert(t.drop_last() =~= s.drop_last());
        assert forall|o: Account, sp: Account|
            pair_get_of(t, o, sp) == if o == e.owner && sp == e.spender {
                e.val
            } else {
                pair_get_of(s, o, sp)
            } by {
            if !(o == e.owner && sp == e.spender) {
                assert(pair_get_of(t, o, sp) == pair_get_of(s.drop_last(), o, sp));
            }
        }
    } else {
        assert(t.drop_last() =~= s.drop_last().update(i, e));
        assert(s.drop_last()[i] == s[i]);
        lemma_pair_set_at(s.drop_last(), i, e);
        assert forall|o: Account, sp: Account|
            pair_get_of(t, o, sp) == if o == e.owner && sp == e.spender {
                e.val
            } else {
                pair_get_of(s, o, sp)
            } by {
            // the last entry is untouched; its pair differs from e's
            assert(!(s[i].owner == s[s.len() - 1].owner && s[i].spender == s[s.len()
                - 1].spender));
            assert(t.last() == s.last());
            assert(pair_get_of(s.drop_last().update(i, e), o, sp) == if o == e.owner && sp
                == e.spender {
                e.val
            } else {
                pair_get_of(s.drop_last(), o, sp)
            });
            assert(pair_get_of(t.drop_last(), o, sp) == pair_get_of(
                s.drop_last().update(i, e),
                o,
                sp,
            ));
        }
    }
}

/// Appending an entry with a fresh pair changes no other pair's value.
pub proof fn lemma_pair_push_new(s: Seq<AllowEntry>, e: AllowEntry)
    requires
        distinct_pairs(s),
        forall|j: int|
            0 <= j < s.len() ==> !(#[trigger] s[j].owner == e.owner && s[j].spender
                == e.spender),
    ensures
        distinct_pairs(s.push(e)),
        forall|o: Account, sp: Account|
            pair_get_of(s.push(e), o, sp) == if o == e.owner && sp == e.spender {
                e.val
            } else {
                pair_get_of(s, o, sp)
            },
{
    let t = s.push(e);
    assert(t.drop_last() =~= s);
    assert(t.last() == e);
    assert forall|i: int, j: int| 0 <= i < j < t.len() implies !(#[trigger] t[i].owner
        == #[trigger] t[j].owner && t[i].spender == t[j].spender) by {
        if j < s.len() {
            assert(t[i] == s[i] && t[j] == s[j]);
        } else {
            assert(t[i] == s[i] && t[j] == e);
        }
    }
}

/// A finite map from (owner, spender) to amount, with every absent pair
/// holding 0.
pub struct PairMap {
    pub entries: Vec<AllowEntry>,
}

impl PairMap {
    /// The backing vector holds each pair at most once.
    pub open spec fn wf(self) -> bool {
        distinct_pairs(self.entries@)
    }

    /// The amount granted by `owner` to `spender`; 0 when never set.
    pub open spec fn spec_get(self, owner: Account, spender: Account) -> u128 {
        pair_get_of(self.entries@, owner, spender)
    }

    /// An empty map: every pair holds 0.
    pub fn new() -> (r: PairMap)
        ensures
            r.wf(),
            forall|o: Account, sp: Account| r.spec_get(o, sp) == 0,
    {
        PairMap { entries: Vec::new() }
    }

    fn find_idx(&self, owner: Account, spender: Account) -> (r: Option<usize>)
        ensures
            match r {
                Some(i) => i < self.entries@.len() && self.entries@[i as int].owner == owner
                    && self.entries@[i as int].spender == spender,
                None => forall|j: int|
                    0 <= j < self.entries@.len() ==> !(#[trigger] self.entries@[j].owner == owner
                        && self.entries@[j].spender == spender),
            },
    {
        let n = self.entries.len();
        let mut i: usize = 0;
        while i < n
            invariant
                i <= n,
                n == self.entries@.len(),
                forall|j: int|
                    0 <= j < i ==> !(#[trigger] self.entries@[j].owner == owner
                        && self.entries@[j].spender == spender),
            decreases n - i,
        {
            if self.entries[i].owner == owner && self.entries[i].spender == spender {
                return Some(i);
            }
            i = i + 1;
        }
        None
    }

    /// The amount the pair holds now.
    pub fn get(&self, owner: Account, spender: Account) -> (r: u128)
        requires
            self.wf(),
        ensures
            r == self.spec_get(owner, spender),
    {
        match self.find_idx(owner, spender) {
            Some(i) => {
                proof {
                    lemma_pair_get_found(self.entries@, i as int, owner, spender);
                }
                self.entries[i].val
            },
            None => {
                proof {
                    lemma_pair_get_absent(self.entries@, owner, spender);
                }
                0
            },
        }
    }

    /// Sets the pair to `val`: an absolute overwrite, and every other pair is
    /// untouched.
    pub fn set(&mut self, owner: Account, spender: Account, val: u128)
        requires
            old(self).wf(),
        ensures
            final(self).wf(),
            forall|o: Account, sp: Account|
                final(self).spec_get(o, sp) == if o == owner && sp == spender {
                    val
                } else {
                    old(self).spec_get(o, sp)
                },
    {
        let ghost s0 = self.entries@;
        match self.find_idx(owner, spender) {
            Some(i) => {
                proof {
                    lemma_pair_set_at(s0, i as int, AllowEntry { owner, spender, val });
                }
                self.entries[i] = AllowEntry { owner, spender, val };
            },
            None => {
                proof {
                    lemma_pair_push_new(s0, AllowEntry { owner, spender, val });
                }
                self.entries.push(AllowEntry { owner, spender, val });
            },
        }
    }
}

} // verus!
