//! The shared registry: it owns the monotonic id counter (implicitly, as the
//! dense length of its token vector), the id-to-ledger association, the
//! per-creator creation counts, and the append-only event log.
//!
//! Ids are assigned in creation order with no gaps and never reused; records
//! are never removed. Every mutating operation validates the token id first
//! and fails with `InvalidToken` for an unknown id, while the two pure
//! queries return 0 instead of failing.

use vstd::prelude::*;
use crate::acct_map::AccountMap;
use crate::token::{
    approve_check, approve_post, create_record_check, decrease_check, increase_check,
    transfer_check, transfer_from_check, transfer_from_post, transfer_post, TokenRecord,
};
use crate::types::{Account, Event, TokenError, SENTINEL};

verus! {

/// The immutable facts [`Registry::get_token_info`] reports about one token.
#[derive(Debug, PartialEq, Eq)]
pub struct TokenInfo {
    pub name: String,
    pub symbol: String,
    pub decimals: u32,
    pub total_supply: u128,
    pub creator: Account,
}

/// Whether `info` reports exactly the identity of `t`.
pub open spec fn info_matches(info: TokenInfo, t: TokenRecord) -> bool {
    &&& info.name@ == t.name@
    &&& info.symbol@ == t.symbol@
    &&& info.decimals == t.decimals
    &&& info.total_supply == t.total_supply
    &&& info.creator == t.creator
}

/// The registry of all created tokens.
pub struct Registry {
    pub tokens: Vec<TokenRecord>,
    pub creator_counts: AccountMap,
    pub events: Vec<Event>,
}

/// Whether the stored state of `post` is observably identical to `pre` —
/// what a failed invocation must guarantee.
pub open spec fn same_state(pre: Registry, post: Registry) -> bool {
    &&& post.tokens@ == pre.tokens@
    &&& post.creator_counts.entries@ == pre.creator_counts.entries@
    &&& post.events@ == pre.events@
}

/// Whether `post` differs from `pre` in at most the ledger of token `id` and
/// the event log: the token set, every other ledger, and the creation counts
/// are untouched.
pub open spec fn untouched_except(pre: Registry, post: Registry, id: usize) -> bool {
    &&& post.tokens@.len() == pre.tokens@.len()
    &&& forall|i: int|
        0 <= i < pre.tokens@.len() && i != id ==> #[trigger] post.token_at(i) == pre.token_at(i)
    &&& post.creator_counts == pre.creator_counts
}

/// Which error, if any, a registry-level transfer is rejected with: an
/// unknown id first, then the ledger's own checks.
pub open spec fn reg_transfer_check(
    r: Registry,
    caller: Account,
    token_id: usize,
    to: Account,
    amount: u128,
) -> Option<TokenError> {
    if !r.has_token(token_id) {
        Some(TokenError::InvalidToken)
    } else {
        transfer_check(r.token_at(token_id as int), caller, to, amount)
    }
}

/// Which error, if any, a registry-level approval is rejected with.
pub open spec fn reg_approve_check(
    r: Registry,
    caller: Account,
    token_id: usize,
    spender: Account,
) -> Option<TokenError> {
    if !r.has_token(token_id) {
        Some(TokenError::InvalidToken)
    } else {
        approve_check(caller, spender)
    }
}

/// Which error, if any, a registry-level delegated transfer is rejected
/// with.
pub open spec fn reg_transfer_from_check(
    r: Registry,
    caller: Account,
    token_id: usize,
    from: Account,
    to: Account,
    amount: u128,
) -> Option<TokenError> {
    if !r.has_token(token_id) {
        Some(TokenError::InvalidToken)
    } else {
        transfer_from_check(r.token_at(token_id as int), caller, from, to, amount)
    }
}

/// Which error, if any, a registry-level allowance increase is rejected
/// with.
pub open spec fn reg_increase_check(
    r: Registry,
    caller: Account,
    token_id: usize,
    spender: Account,
    added_value: u128,
) -> Option<TokenError> {
    if !r.has_token(token_id) {
        Some(TokenError::InvalidToken)
    } else {
        increase_check(r.token_at(token_id as int), caller, spender, added_value)
    }
}

/// Which error, if any, a registry-level allowance decrease is rejected
/// with.
pub open spec fn reg_decrease_check(
    r: Registry,
    caller: Account,
    token_id: usize,
    spender: Account,
    subtracted_value: u128,
) -> Option<TokenError> {
    if !r.has_token(token_id) {
        Some(TokenError::InvalidToken)
    } else {
        decrease_check(r.token_at(token_id as int), caller, spender, subtracted_value)
    }
}

/// How a registry after a successful creation relates to the one before:
/// the new id is the old count, every existing ledger is untouched, the new
/// ledger credits the whole supply to the caller, the caller's creation
/// count rises by one, and the log gains the creation notice and the
/// creation credit.
pub open spec fn create_post(
    pre: Registry,
    post: Registry,
    caller: Account,
    name: Seq<char>,
    symbol: Seq<char>,
    decimals: u32,
    initial_supply: u128,
    id: usize,
) -> bool {
    &&& id == pre.spec_token_count()
    &&& post.spec_token_count() == pre.spec_token_count() + 1
    &&& forall|i: int|
        0 <= i < pre.tokens@.len() ==> #[trigger] post.token_at(i) == pre.token_at(i)
    &&& post.token_at(id as int).wf()
    &&& post.token_at(id as int).name@ == name
    &&& post.token_at(id as int).symbol@ == symbol
    &&& post.token_at(id as int).decimals == decimals
    &&& post.token_at(id as int).total_supply == initial_supply
    &&& post.token_at(id as int).creator == caller
    &&& forall|a: Account|
        #[trigger] post.token_at(id as int).bal_of(a) == if a == caller {
            initial_supply
        } else {
            0u128
        }
    &&& forall|o: Account, sp: Account| #[trigger] post.token_at(id as int).allow_of(o, sp) == 0
    &&& forall|a: Account|
        #[trigger] post.creator_counts.spec_get(a) as int == if a == caller {
            pre.creator_counts.spec_get(caller) + 1
        } else {
            pre.creator_counts.spec_get(a) as int
        }
    &&& post.events@ == pre.events@.push(
        Event::Created { creator: caller, token_id: id, initial_supply },
    ).push(Event::Transfer { from: SENTINEL, to: caller, amount: initial_supply })
}

impl Registry {
    /// The registry's invariant: every ledger is well-formed (so conserved),
    /// and the creation counts are a well-formed map whose total is the
    /// number of tokens ever created.
    pub open spec fn wf(self) -> bool {
        &&& forall|i: int| 0 <= i < self.tokens@.len() ==> (#[trigger] self.tokens@[i]).wf()
        &&& self.creator_counts.wf()
        &&& self.creator_counts.total() == self.tokens@.len()
    }

    /// How many tokens have been created; also the next id to be assigned.
    pub open spec fn spec_token_count(self) -> nat {
        self.tokens@.len()
    }

    /// The record of token `id`.
    pub open spec fn token_at(self, id: int) -> TokenRecord {
        self.tokens@[id]
    }

    /// Whether `id` names a created token: ids are dense, so this is a
    /// bounds check.
    pub open spec fn has_token(self, id: usize) -> bool {
        id < self.tokens@.len()
    }

    /// The balance of `account` on token `token_id`; 0 for an unknown token.
    pub open spec fn spec_balance_of(self, token_id: usize, account: Account) -> u128 {
        if self.has_token(token_id) {
            self.token_at(token_id as int).bal_of(account)
        } else {
            0
        }
    }

    /// The allowance (`owner`, `spender`) on token `token_id`; 0 for an
    /// unknown token.
    pub open spec fn spec_allowance(
        self,
        token_id: usize,
        owner: Account,
        spender: Account,
    ) -> u128 {
        if self.has_token(token_id) {
            self.token_at(token_id as int).allow_of(owner, spender)
        } else {
            0
        }
    }

    /// An empty registry: the state at genesis.
    pub fn new() -> (r: Registry)
        ensures
            r.wf(),
            r.spec_token_count() == 0,
            r.events@ == Seq::<Event>::empty(),
            forall|a: Account| r.creator_counts.spec_get(a) == 0,
    {
        Registry { tokens: Vec::new(), creator_counts: AccountMap::new(), events: Vec::new() }
    }

    /// Creates a new token for `caller`: the id is assigned monotonically
    /// with no gaps, the record is born fully initialized in this one call,
    /// and the whole supply is credited to the caller. Rejects exactly the
    /// inputs [`create_record_check`] names — never the current state.
    pub fn create_token(
        &mut self,
        caller: Account,
        name: String,
        symbol: String,
        decimals: u32,
        initial_supply: u128,
    ) -> (r: Result<usize, TokenError>)
        requires
            old(self).wf(),
        ensures
            final(self).wf(),
            ({
                match create_record_check(caller, name@, symbol@) {
                    Some(e) => r == Err::<usize, TokenError>(e) && same_state(
                        *old(self),
                        *final(self),
                    ),
                    None => r matches Ok(id) && create_post(
                        *old(self),
                        *final(self),
                        caller,
                        name@,
                        symbol@,
                        decimals,
                        initial_supply,
                        id,
                    ),
                }
            }),
    {
        let token = match TokenRecord::initialize(name, symbol, decimals, initial_supply, caller) {
            Ok(t) => t,
            Err(e) => {
                return Err(e);
            },
        };
        let id = self.tokens.len();
        proof {
            // the caller's count is bounded by the total, which is the token
            // count, so the increment below cannot overflow
            self.creator_counts.lemma_get_le_total(caller);
        }
        let prev_count = self.creator_counts.get(caller);
        self.creator_counts.set(caller, prev_count + 1);
        self.tokens.push(token);
        self.events.push(Event::Created { creator: caller, token_id: id, initial_supply });
        self.events.push(Event::Transfer { from: SENTINEL, to: caller, amount: initial_supply });
        Ok(id)
    }

    /// Whether `token_id` names a created token. Every mutating operation
    /// makes this check first and fails fast with `InvalidToken`.
    pub fn token_exists(&self, token_id: usize) -> (r: bool)
        ensures
            r == self.has_token(token_id),
    {
        token_id < self.tokens.len()
    }

    /// The total number of tokens ever created.
    pub fn get_token_count(&self) -> (r: usize)
        ensures
            r == self.spec_token_count(),
    {
        self.tokens.len()
    }

    /// The identity of token `token_id`, or `InvalidToken` for an unknown
    /// id.
    pub fn get_token_info(&self, token_id: usize) -> (r: Result<TokenInfo, TokenError>)
        ensures
            ({
                if self.has_token(token_id) {
                    r matches Ok(info) && info_matches(info, self.token_at(token_id as int))
                } else {
                    r == Err::<TokenInfo, TokenError>(TokenError::InvalidToken)
                }
            }),
    {
        if token_id >= self.tokens.len() {
            return Err(TokenError::InvalidToken);
        }
        let t = &self.tokens[token_id];
        Ok(
            TokenInfo {
                name: t.name.clone(),
                symbol: t.symbol.clone(),
                decimals: t.decimals,
                total_supply: t.total_supply,
                creator: t.creator,
            },
        )
    }

    /// The identities of the tokens with ids `start..start + count`, clipped
    /// to the ids that exist: a paginated view of the whole registry.
    pub fn get_tokens(&self, start: usize, count: usize) -> (r: Vec<TokenInfo>)
        ensures
            r@.len() == page_len(self.spec_token_count(), start, count),
            forall|i: int|
                0 <= i < r@.len() ==> info_matches(#[trigger] r@[i], self.token_at(start + i)),
    {
        let total = self.tokens.len();
        let end = if start > total {
            total
        } else if count > total - start {
            total
        } else {
            start + count
        };
        let mut out: Vec<TokenInfo> = Vec::new();
        if start >= end {
            return out;
        }
        let mut i: usize = start;
        while i < end
            invariant
                start <= i <= end,
                end <= self.tokens@.len(),
                end - start == page_len(self.spec_token_count(), start, count),
                out@.len() == i - start,
                forall|j: int|
                    0 <= j < out@.len() ==> info_matches(#[trigger] out@[j], self.token_at(start + j)),
            decreases end - i,
        {
            let t = &self.tokens[i];
            out.push(
                TokenInfo {
                    name: t.name.clone(),
                    symbol: t.symbol.clone(),
                    decimals: t.decimals,
                    total_supply: t.total_supply,
                    creator: t.creator,
                },
            );
            i = i + 1;
        }
        out
    }

    /// The balance of `account` on token `token_id`: a pure lookup that
    /// never fails and returns 0 for an unknown token or account.
    pub fn balance_of(&self, token_id: usize, account: Account) -> (r: u128)
        requires
            self.wf(),
        ensures
            r == self.spec_balance_of(token_id, account),
    {
        if token_id >= self.tokens.len() {
            return 0;
        }
        self.tokens[token_id].balance_of(account)
    }

    /// The allowance (`owner`, `spender`) on token `token_id`: a pure lookup
    /// that never fails and returns 0 for an unknown token or pair.
    pub fn allowance(&self, token_id: usize, owner: Account, spender: Account) -> (r: u128)
        requires
            self.wf(),
        ensures
            r == self.spec_allowance(token_id, owner, spender),
    {
        if token_id >= self.tokens.len() {
            return 0;
        }
        self.tokens[token_id].allowance(owner, spender)
    }

    /// Moves `amount` of token `token_id` from the caller to `to`, appending
    /// a transfer notice on success; a failure leaves the stored state as if
    /// the call had never been made.
    pub fn transfer(&mut self, caller: Account, token_id: usize, to: Account, amount: u128) -> (r:
        Result<bool, TokenError>)
        requires
            old(self).wf(),
        ensures
            final(self).wf(),
            ({
                match reg_transfer_check(*old(self), caller, token_id, to, amount) {
                    Some(e) => r == Err::<bool, TokenError>(e) && same_state(
                        *old(self),
                        *final(self),
                    ),
                    None => r == Ok::<bool, TokenError>(true) && untouched_except(
                        *old(self),
                        *final(self),
                        token_id,
                    ) && transfer_post(
                        old(self).token_at(token_id as int),
                        final(self).token_at(token_id as int),
                        caller,
                        to,
                        amount,
                    ) && final(self).events@ == old(self).events@.push(
                        Event::Transfer { from: caller, to, amount },
                    ),
                }
            }),
    {
        if token_id >= self.tokens.len() {
            return Err(TokenError::InvalidToken);
        }
        let t = &mut self.tokens[token_id];
        let res = t.transfer(caller, to, amount);
        match res {
            Ok(()) => {
                self.events.push(Event::Transfer { from: caller, to, amount });
                Ok(true)
            },
            Err(e) => {
                proof {
                    assert(self.tokens@ =~= old(self).tokens@);
                }
                Err(e)
            },
        }
    }

    /// Sets the allowance (`caller`, `spender`) on token `token_id` to
    /// exactly `amount`, appending an approval notice on success.
    pub fn approve(
        &mut self,
        caller: Account,
        token_id: usize,
        spender: Account,
        amount: u128,
    ) -> (r: Result<bool, TokenError>)
        requires
            old(self).wf(),
        ensures
            final(self).wf(),
            ({
                match reg_approve_check(*old(self), caller, token_id, spender) {
                    Some(e) => r == Err::<bool, TokenError>(e) && same_state(
                        *old(self),
                        *final(self),
                    ),
                    None => r == Ok::<bool, TokenError>(true) && untouched_except(
                        *old(self),
                        *final(self),
                        token_id,
                    ) && approve_post(
                        old(self).token_at(token_id as int),
                        final(self).token_at(token_id as int),
                        caller,
                        spender,
                        amount,
                    ) && final(self).events@ == old(self).events@.push(
                        Event::Approval { owner: caller, spender, amount },
                    ),
                }
            }),
    {
        if token_id >= self.tokens.len() {
            return Err(TokenError::InvalidToken);
        }
        let t = &mut self.tokens[token_id];
        let res = t.approve(caller, spender, amount);
        match res {
            Ok(()) => {
                self.events.push(Event::Approval { owner: caller, spender, amount });
                Ok(true)
            },
            Err(e) => {
                proof {
                    assert(self.tokens@ =~= old(self).tokens@);
                }
                Err(e)
            },
        }
    }

    /// Spends `amount` of the allowance (`from`, caller) on token `token_id`
    /// and moves that amount from `from` to `to`, all-or-nothing, appending
    /// a transfer notice on success.
    pub fn transfer_from(
        &mut self,
        caller: Account,
        token_id: usize,
        from: Account,
        to: Account,
        amount: u128,
    ) -> (r: Result<bool, TokenError>)
        requires
            old(self).wf(),
        ensures
            final(self).wf(),
            ({
                match reg_transfer_from_check(*old(self), caller, token_id, from, to, amount) {
                    Some(e) => r == Err::<bool, TokenError>(e) && same_state(
                        *old(self),
                        *final(self),
                    ),
                    None => r == Ok::<bool, TokenError>(true) && untouched_except(
                        *old(self),
                        *final(self),
                        token_id,
                    ) && transfer_from_post(
                        old(self).token_at(token_id as int),
                        final(self).token_at(token_id as int),
                        caller,
                        from,
                        to,
                        amount,
                    ) && final(self).events@ == old(self).events@.push(
                        Event::Transfer { from, to, amount },
                    ),
                }
            }),
    {
        if token_id >= self.tokens.len() {
            return Err(TokenError::InvalidToken);
        }
        let t = &mut self.tokens[token_id];
        let res = t.transfer_from(caller, from, to, amount);
        match res {
            Ok(()) => {
                self.events.push(Event::Transfer { from, to, amount });
                Ok(true)
            },
            Err(e) => {
                proof {
                    assert(self.tokens@ =~= old(self).tokens@);
                }
                Err(e)
            },
        }
    }

    /// Raises the allowance (`caller`, `spender`) on token `token_id` by
    /// `added_value`, appending an approval notice carrying the new
    /// allowance on success.
    pub fn increase_allowance(
        &mut self,
        caller: Account,
        token_id: usize,
        spender: Account,
        added_value: u128,
    ) -> (r: Result<bool, TokenError>)
        requires
            old(self).wf(),
        ensures
            final(self).wf(),
            ({
                match reg_increase_check(*old(self), caller, token_id, spender, added_value) {
                    Some(e) => r == Err::<bool, TokenError>(e) && same_state(
                        *old(self),
                        *final(self),
                    ),
                    None => r == Ok::<bool, TokenError>(true) && untouched_except(
                        *old(self),
                        *final(self),
                        token_id,
                    ) && approve_post(
                        old(self).token_at(token_id as int),
                        final(self).token_at(token_id as int),
                        caller,
                        spender,
                        (old(self).token_at(token_id as int).allow_of(caller, spender)
                            + added_value) as u128,
                    ) && final(self).events@ == old(self).events@.push(
                        Event::Approval {
                            owner: caller,
                            spender,
                            amount: (old(self).token_at(token_id as int).allow_of(caller, spender)
                                + added_value) as u128,
                        },
                    ),
                }
            }),
    {
        if token_id >= self.tokens.len() {
            return Err(TokenError::InvalidToken);
        }
        let t = &mut self.tokens[token_id];
        let res = t.increase_allowance(caller, spender, added_value);
        match res {
            Ok(()) => {
                let new_allowance = self.tokens[token_id].allowance(caller, spender);
                self.events.push(
                    Event::Approval { owner: caller, spender, amount: new_allowance },
                );
                Ok(true)
            },
            Err(e) => {
                proof {
                    assert(self.tokens@ =~= old(self).tokens@);
                }
                Err(e)
            },
        }
    }

    /// Lowers the allowance (`caller`, `spender`) on token `token_id` by
    /// `subtracted_value`, rejecting a decrease below zero, and appending an
    /// approval notice carrying the new allowance on success.
    pub fn decrease_allowance(
        &mut self,
        caller: Account,
        token_id: usize,
        spender: Account,
        subtracted_value: u128,
    ) -> (r: Result<bool, TokenError>)
        requires
            old(self).wf(),
        ensures
            final(self).wf(),
            ({
                match reg_decrease_check(*old(self), caller, token_id, spender, subtracted_value) {
                    Some(e) => r == Err::<bool, TokenError>(e) && same_state(
                        *old(self),
                        *final(self),
                    ),
                    None => r == Ok::<bool, TokenError>(true) && untouched_except(
                        *old(self),
                        *final(self),
                        token_id,
                    ) && approve_post(
                        old(self).token_at(token_id as int),
                        final(self).token_at(token_id as int),
                        caller,
                        spender,
                        (old(self).token_at(token_id as int).allow_of(caller, spender)
                            - subtracted_value) as u128,
                    ) && final(self).events@ == old(self).events@.push(
                        Event::Approval {
                            owner: caller,
                            spender,
                            amount: (old(self).token_at(token_id as int).allow_of(caller, spender)
                                - subtracted_value) as u128,
                        },
                    ),
                }
            }),
    {
        if token_id >= self.tokens.len() {
            return Err(TokenError::InvalidToken);
        }
        let t = &mut self.tokens[token_id];
        let res = t.decrease_allowance(caller, spender, subtracted_value);
        match res {
            Ok(()) => {
                let new_allowance = self.tokens[token_id].allowance(caller, spender);
                self.events.push(
                    Event::Approval { owner: caller, spender, amount: new_allowance },
                );
                Ok(true)
            },
            Err(e) => {
                proof {
                    assert(self.tokens@ =~= old(self).tokens@);
                }
                Err(e)
            },
        }
    }
}

/// How many ids the page `start..start + count` covers once clipped to
/// `total` existing ids.
pub open spec fn page_len(total: nat, start: usize, count: usize) -> int {
    if start > total {
        0
    } else if start + count > total {
        total - start
    } else {
        count as int
    }
}

} // verus!
