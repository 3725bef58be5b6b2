//! One token's ledger: its identity fields, total supply, balances and
//! allowances, together with the accounting engine that moves value over it.
//!
//! Every mutating operation takes the authenticated participant addresses
//! explicitly, validates before it writes, and either applies in full or
//! returns an error with the record exactly as it was. The well-formedness
//! predicate [`TokenRecord::wf`] carries the conservation invariant: the sum
//! of all balances equals the total supply.

use vstd::prelude::*;
use vstd::string::StrSliceExecFns;
use crate::acct_map::AccountMap;
use crate::pair_map::PairMap;
use crate::types::{label_ok, Account, TokenError, MAX_LABEL_LEN, SENTINEL};

verus! {

/// The ledger of one token. Identity fields (`name`, `symbol`, `decimals`,
/// `creator`) and `total_supply` are fixed at creation; only balances and
/// allowances change afterwards.
pub struct TokenRecord {
    pub name: String,
    pub symbol: String,
    pub decimals: u32,
    pub total_supply: u128,
    pub creator: Account,
    pub balances: AccountMap,
    pub allowances: PairMap,
}

/// Which error, if any, a creation with these inputs is rejected with:
/// a sentinel creator, then an unacceptable name, then an unacceptable
/// symbol. Creation never rejects based on existing state.
pub open spec fn create_record_check(
    creator: Account,
    name: Seq<char>,
    symbol: Seq<char>,
) -> Option<TokenError> {
    if creator == SENTINEL {
        Some(TokenError::InvalidSender)
    } else if !label_ok(name) {
        Some(TokenError::InvalidInput)
    } else if !label_ok(symbol) {
        Some(TokenError::InvalidInput)
    } else {
        None
    }
}

/// Which error, if any, a transfer is rejected with: a sentinel sender, then
/// a sentinel recipient, then a short balance. `None` means the transfer is
/// owed success.
pub open spec fn transfer_check(
    t: TokenRecord,
    from: Account,
    to: Account,
    amount: u128,
) -> Option<TokenError> {
    if from == SENTINEL {
        Some(TokenError::InvalidSender)
    } else if to == SENTINEL {
        Some(TokenError::InvalidRecipient)
    } else if t.bal_of(from) < amount {
        Some(TokenError::InsufficientBalance { have: t.bal_of(from), want: amount })
    } else {
        None
    }
}

/// Which error, if any, an approval is rejected with: a sentinel owner, then
/// a sentinel spender.
pub open spec fn approve_check(owner: Account, spender: Account) -> Option<TokenError> {
    if owner == SENTINEL {
        Some(TokenError::InvalidSender)
    } else if spender == SENTINEL {
        Some(TokenError::InvalidRecipient)
    } else {
        None
    }
}

/// Which error, if any, a delegated transfer is rejected with: a short
/// allowance first, then everything a plain transfer checks.
pub open spec fn transfer_from_check(
    t: TokenRecord,
    spender: Account,
    from: Account,
    to: Account,
    amount: u128,
) -> Option<TokenError> {
    if t.allow_of(from, spender) < amount {
        Some(TokenError::InsufficientAllowance { have: t.allow_of(from, spender), want: amount })
    } else {
        transfer_check(t, from, to, amount)
    }
}

/// Which error, if any, an allowance increase is rejected with: a sum beyond
/// the representable range, then everything an approval checks.
pub open spec fn increase_check(
    t: TokenRecord,
    owner: Account,
    spender: Account,
    added_value: u128,
) -> Option<TokenError> {
    if t.allow_of(owner, spender) + added_value > u128::MAX {
        Some(TokenError::InvalidInput)
    } else {
        approve_check(owner, spender)
    }
}

/// Which error, if any, an allowance decrease is rejected with: a decrease
/// below zero, then everything an approval checks.
pub open spec fn decrease_check(
    t: TokenRecord,
    owner: Account,
    spender: Account,
    subtracted_value: u128,
) -> Option<TokenError> {
    if t.allow_of(owner, spender) < subtracted_value {
        Some(TokenError::InsufficientAllowance {
            have: t.allow_of(owner, spender),
            want: subtracted_value,
        })
    } else {
        approve_check(owner, spender)
    }
}

/// Each balance after a successful transfer: the pair (`from`, `to`) moves
/// atomically, every other account is untouched, and a self-transfer is a
/// no-op.
pub open spec fn bal_after(
    pre: TokenRecord,
    from: Account,
    to: Account,
    amount: u128,
    a: Account,
) -> int {
    if from == to {
        pre.bal_of(a) as int
    } else if a == from {
        pre.bal_of(from) - amount
    } else if a == to {
        pre.bal_of(to) + amount
    } else {
        pre.bal_of(a) as int
    }
}

/// How a record after a successful transfer relates to the one before:
/// identity and supply unchanged, allowances unchanged, balances moved as
/// [`bal_after`] says.
pub open spec fn transfer_post(
    pre: TokenRecord,
    post: TokenRecord,
    from: Account,
    to: Account,
    amount: u128,
) -> bool {
    &&& pre.same_identity(post)
    &&& post.allowances == pre.allowances
    &&& amount <= pre.bal_of(from)
    &&& forall|a: Account| #[trigger] post.bal_of(a) as int == bal_after(pre, from, to, amount, a)
    &&& forall|o: Account, sp: Account| #[trigger] post.allow_of(o, sp) == pre.allow_of(o, sp)
}

/// How a record after a successful approval relates to the one before: the
/// one pair is set to exactly `amount` — an absolute overwrite, never an
/// accumulation — and nothing else moves.
pub open spec fn approve_post(
    pre: TokenRecord,
    post: TokenRecord,
    owner: Account,
    spender: Account,
    amount: u128,
) -> bool {
    &&& pre.same_identity(post)
    &&& post.balances == pre.balances
    &&& forall|a: Account| #[trigger] post.bal_of(a) == pre.bal_of(a)
    &&& forall|o: Account, sp: Account|
        #[trigger] post.allow_of(o, sp) == if o == owner && sp == spender {
            amount
        } else {
            pre.allow_of(o, sp)
        }
}

/// How a record after a successful delegated transfer relates to the one
/// before: the allowance of (`from`, `spender`) drops by exactly `amount`,
/// balances move as in a plain transfer, and nothing else moves.
pub open spec fn transfer_from_post(
    pre: TokenRecord,
    post: TokenRecord,
    spender: Account,
    from: Account,
    to: Account,
    amount: u128,
) -> bool {
    &&& pre.same_identity(post)
    &&& amount <= pre.allow_of(from, spender)
    &&& amount <= pre.bal_of(from)
    &&& forall|a: Account| #[trigger] post.bal_of(a) as int == bal_after(pre, from, to, amount, a)
    &&& forall|o: Account, sp: Account|
        #[trigger] post.allow_of(o, sp) as int == if o == from && sp == spender {
            pre.allow_of(from, spender) - amount
        } else {
            pre.allow_of(o, sp) as int
        }
}

impl TokenRecord {
    /// The record's invariant: a non-sentinel creator, acceptable labels,
    /// well-formed maps, and conservation — the balances sum to exactly the
    /// total supply.
    pub open spec fn wf(self) -> bool {
        &&& self.creator != SENTINEL
        &&& label_ok(self.name@)
        &&& label_ok(self.symbol@)
        &&& self.balances.wf()
        &&& self.allowances.wf()
        &&& self.balances.total() == self.total_supply as int
    }

    /// The balance of `account`; 0 for any account never credited.
    pub open spec fn bal_of(self, account: Account) -> u128 {
        self.balances.spec_get(account)
    }

    /// The allowance `owner` granted `spender`; 0 when never set.
    pub open spec fn allow_of(self, owner: Account, spender: Account) -> u128 {
        self.allowances.spec_get(owner, spender)
    }

    /// Whether `other` has the same immutable identity fields and supply as
    /// `self`.
    pub open spec fn same_identity(self, other: TokenRecord) -> bool {
        &&& other.name == self.name
        &&& other.symbol == self.symbol
        &&& other.decimals == self.decimals
        &&& other.total_supply == self.total_supply
        &&& other.creator == self.creator
    }

    /// Creates a fully initialized ledger in one step: the whole supply is
    /// credited to the creator, every other balance and every allowance is 0.
    /// Rejects exactly the inputs [`create_record_check`] names; it never
    /// rejects based on state.
    pub fn initialize(
        name: String,
        symbol: String,
        decimals: u32,
        initial_supply: u128,
        creator: Account,
    ) -> (r: Result<TokenRecord, TokenError>)
        ensures
            ({
                match create_record_check(creator, name@, symbol@) {
                    Some(e) => r == Err::<TokenRecord, TokenError>(e),
                    None => r matches Ok(t) && t.wf() && t.name@ == name@ && t.symbol@ == symbol@
                        && t.decimals == decimals && t.total_supply == initial_supply && t.creator
                        == creator && (forall|a: Account|
                        #[trigger] t.bal_of(a) == if a == creator {
                            initial_supply
                        } else {
                            0u128
                        }) && (forall|o: Account, sp: Account| #[trigger] t.allow_of(o, sp) == 0),
                }
            }),
    {
        if creator == SENTINEL {
            return Err(TokenError::InvalidSender);
        }
        let name_len = name.as_str().unicode_len();
        if name_len == 0 || name_len > MAX_LABEL_LEN {
            return Err(TokenError::InvalidInput);
        }
        let symbol_len = symbol.as_str().unicode_len();
        if symbol_len == 0 || symbol_len > MAX_LABEL_LEN {
            return Err(TokenError::InvalidInput);
        }
        let mut balances = AccountMap::new();
        balances.set(creator, initial_supply);
        Ok(
            TokenRecord {
                name,
                symbol,
                decimals,
                total_supply: initial_supply,
                creator,
                balances,
                allowances: PairMap::new(),
            },
        )
    }

    /// The balance of `account`: a pure lookup that never fails.
    pub fn balance_of(&self, account: Account) -> (r: u128)
        requires
            self.wf(),
        ensures
            r == self.bal_of(account),
    {
        self.balances.get(account)
    }

    /// The allowance `owner` granted `spender`: a pure lookup that never
    /// fails.
    pub fn allowance(&self, owner: Account, spender: Account) -> (r: u128)
        requires
            self.wf(),
        ensures
            r == self.allow_of(owner, spender),
    {
        self.allowances.get(owner, spender)
    }

    /// Moves `amount` from `from` to `to` as one atomic pair of writes, or
    /// fails with the error [`transfer_check`] names and changes nothing.
    pub fn transfer(&mut self, from: Account, to: Account, amount: u128) -> (r: Result<
        (),
        TokenError,
    >)
        requires
            old(self).wf(),
        ensures
            final(self).wf(),
            ({
                match transfer_check(*old(self), from, to, amount) {
                    Some(e) => r == Err::<(), TokenError>(e) && *final(self) == *old(self),
                    None => r is Ok && transfer_post(*old(self), *final(self), from, to, amount),
                }
            }),
    {
        if from == SENTINEL {
            return Err(TokenError::InvalidSender);
        }
        if to == SENTINEL {
            return Err(TokenError::InvalidRecipient);
        }
        let from_balance = self.balances.get(from);
        if from_balance < amount {
            return Err(TokenError::InsufficientBalance { have: from_balance, want: amount });
        }
        self.balances.set(from, from_balance - amount);
        proof {
            // after the debit the map's total is total_supply - amount, so
            // the credit below cannot overflow
            self.balances.lemma_get_le_total(to);
        }
        let to_balance = self.balances.get(to);
        self.balances.set(to, to_balance + amount);
        Ok(())
    }

    /// Sets the allowance of (`owner`, `spender`) to exactly `amount` — an
    /// absolute overwrite — or fails with the error [`approve_check`] names
    /// and changes nothing.
    pub fn approve(&mut self, owner: Account, spender: Account, amount: u128) -> (r: Result<
        (),
        TokenError,
    >)
        requires
            old(self).wf(),
        ensures
            final(self).wf(),
            ({
                match approve_check(owner, spender) {
                    Some(e) => r == Err::<(), TokenError>(e) && *final(self) == *old(self),
                    None => r is Ok && approve_post(*old(self), *final(self), owner, spender, amount),
                }
            }),
    {
        if owner == SENTINEL {
            return Err(TokenError::InvalidSender);
        }
        if spender == SENTINEL {
            return Err(TokenError::InvalidRecipient);
        }
        self.allowances.set(owner, spender, amount);
        Ok(())
    }

    /// Spends `amount` of the allowance (`from`, `spender`) and moves that
    /// amount from `from` to `to`, all-or-nothing: every validation runs
    /// before any write, so a failure — including a short balance despite a
    /// sufficient allowance — leaves both the allowance and the balances
    /// exactly as they were.
    pub fn transfer_from(
        &mut self,
        spender: Account,
        from: Account,
        to: Account,
        amount: u128,
    ) -> (r: Result<(), TokenError>)
        requires
            old(self).wf(),
        ensures
            final(self).wf(),
            ({
                match transfer_from_check(*old(self), spender, from, to, amount) {
                    Some(e) => r == Err::<(), TokenError>(e) && *final(self) == *old(self),
                    None => r is Ok && transfer_from_post(
                        *old(self),
                        *final(self),
                        spender,
                        from,
                        to,
                        amount,
                    ),
                }
            }),
    {
        let current_allowance = self.allowances.get(from, spender);
        if current_allowance < amount {
            return Err(
                TokenError::InsufficientAllowance { have: current_allowance, want: amount },
            );
        }
        // run the transfer's own validations before any write, so that a
        // rejected transfer never leaves a decremented allowance behind
        if from == SENTINEL {
            return Err(TokenError::InvalidSender);
        }
        if to == SENTINEL {
            return Err(TokenError::InvalidRecipient);
        }
        let from_balance = self.balances.get(from);
        if from_balance < amount {
            return Err(TokenError::InsufficientBalance { have: from_balance, want: amount });
        }
        self.allowances.set(from, spender, current_allowance - amount);
        self.transfer(from, to, amount)
    }

    /// Raises the allowance of (`owner`, `spender`) by `added_value` through
    /// an absolute re-approval, or fails with the error [`increase_check`]
    /// names and changes nothing. Amount arithmetic is checked, never
    /// wrapping.
    pub fn increase_allowance(
        &mut self,
        owner: Account,
        spender: Account,
        added_value: u128,
    ) -> (r: Result<(), TokenError>)
        requires
            old(self).wf(),
        ensures
            final(self).wf(),
            ({
                match increase_check(*old(self), owner, spender, added_value) {
                    Some(e) => r == Err::<(), TokenError>(e) && *final(self) == *old(self),
                    None => r is Ok && approve_post(
                        *old(self),
                        *final(self),
                        owner,
                        spender,
                        (old(self).allow_of(owner, spender) + added_value) as u128,
                    ),
                }
            }),
    {
        let current_allowance = self.allowances.get(owner, spender);
        if added_value > u128::MAX - current_allowance {
            return Err(TokenError::InvalidInput);
        }
        self.approve(owner, spender, current_allowance + added_value)
    }

    /// Lowers the allowance of (`owner`, `spender`) by `subtracted_value`
    /// through an absolute re-approval, or fails with the error
    /// [`decrease_check`] names — a decrease below zero is rejected with the
    /// allowance unchanged.
    pub fn decrease_allowance(
        &mut self,
        owner: Account,
        spender: Account,
        subtracted_value: u128,
    ) -> (r: Result<(), TokenError>)
        requires
            old(self).wf(),
        ensures
            final(self).wf(),
            ({
                match decrease_check(*old(self), owner, spender, subtracted_value) {
                    Some(e) => r == Err::<(), TokenError>(e) && *final(self) == *old(self),
                    None => r is Ok && approve_post(
                        *old(self),
                        *final(self),
                        owner,
                        spender,
                        (old(self).allow_of(owner, spender) - subtracted_value) as u128,
                    ),
                }
            }),
    {
        let current_allowance = self.allowances.get(owner, spender);
        if current_allowance < subtracted_value {
            return Err(
                TokenError::InsufficientAllowance {
                    have: current_allowance,
                    want: subtracted_value,
                },
            );
        }
        self.approve(owner, spender, current_allowance - subtracted_value)
    }

    /// The token's name.
    pub fn name(&self) -> (r: String)
        ensures
            r@ == self.name@,
    {
        self.name.clone()
    }

    /// The token's symbol.
    pub fn symbol(&self) -> (r: String)
        ensures
            r@ == self.symbol@,
    {
        self.symbol.clone()
    }

    /// The token's display precision.
    pub fn decimals(&self) -> (r: u32)
        ensures
            r == self.decimals,
    {
        self.decimals
    }

    /// The fixed total supply.
    pub fn total_supply(&self) -> (r: u128)
        ensures
            r == self.total_supply,
    {
        self.total_supply
    }

    /// The account that created this token.
    pub fn creator(&self) -> (r: Account)
        ensures
            r == self.creator,
    {
        self.creator
    }
}

} // verus!
