//! The general laws of the registry, stated over the same spec functions
//! and transition predicates the executable contracts use, and proved from
//! them.

use vstd::prelude::*;
use crate::registry::{
    create_post, reg_approve_check, reg_decrease_check, reg_increase_check, reg_transfer_check,
    reg_transfer_from_check, Registry,
};
use crate::token::{
    approve_post, transfer_check, transfer_from_check, transfer_from_post, TokenRecord,
};
use crate::types::{Account, TokenError, SENTINEL};

verus! {

/// Conservation: in every well-formed registry, the balances of every token
/// sum to exactly that token's total supply. Since every operation proves
/// the registry well-formed again, this holds after every operation, for
/// any sequence of them.
pub proof fn lemma_conservation(r: Registry, token_id: usize)
    requires
        r.wf(),
        r.has_token(token_id),
    ensures
        r.token_at(token_id as int).balances.total() == r.token_at(
            token_id as int,
        ).total_supply as int,
{
}

/// Non-negativity's companion bound: no single balance ever exceeds the
/// token's total supply (and none is negative, by type). This includes
/// every account no query has ever seen.
pub proof fn lemma_balance_le_supply(r: Registry, token_id: usize, account: Account)
    requires
        r.wf(),
        r.has_token(token_id),
    ensures
        r.spec_balance_of(token_id, account) <= r.token_at(token_id as int).total_supply,
{
    r.token_at(token_id as int).balances.lemma_get_le_total(account);
}

/// Non-negativity's rejection half: a transfer that would drive the sender
/// below zero is rejected with `InsufficientBalance` carrying both amounts —
/// and the executable contract then guarantees the stored state is
/// unchanged.
pub proof fn lemma_overdrawn_transfer_rejected(
    t: TokenRecord,
    from: Account,
    to: Account,
    amount: u128,
)
    requires
        from != SENTINEL,
        to != SENTINEL,
        t.bal_of(from) < amount,
    ensures
        transfer_check(t, from, to, amount) == Some(
            TokenError::InsufficientBalance { have: t.bal_of(from), want: amount },
        ),
{
}

/// Allowance overwrite, not accumulation: after two successive approvals of
/// the same pair, the allowance is exactly the second amount, whatever the
/// first was — and every other pair still holds what it held at the start.
pub proof fn lemma_approve_overwrites(
    t0: TokenRecord,
    t1: TokenRecord,
    t2: TokenRecord,
    owner: Account,
    spender: Account,
    first: u128,
    second: u128,
)
    requires
        approve_post(t0, t1, owner, spender, first),
        approve_post(t1, t2, owner, spender, second),
    ensures
        t2.allow_of(owner, spender) == second,
        forall|o: Account, sp: Account|
            !(o == owner && sp == spender) ==> #[trigger] t2.allow_of(o, sp) == t0.allow_of(o, sp),
{
}

/// Delegated-transfer decrement exactness, success half: after approving
/// `x` and then successfully spending `y` of it, the allowance is exactly
/// `x - y` (so in particular `y <= x`), and the moved amount left the
/// owner's balance.
pub proof fn lemma_transfer_from_decrements_exactly(
    t0: TokenRecord,
    t1: TokenRecord,
    t2: TokenRecord,
    owner: Account,
    spender: Account,
    to: Account,
    x: u128,
    y: u128,
)
    requires
        approve_post(t0, t1, owner, spender, x),
        transfer_from_post(t1, t2, spender, owner, to, y),
    ensures
        y <= x,
        t2.allow_of(owner, spender) == x - y,
{
}

/// Delegated-transfer decrement exactness, failure half: a spend beyond the
/// approved amount is rejected with `InsufficientAllowance` carrying both
/// amounts — and the executable contract then guarantees the whole record,
/// allowance and balances alike, is unchanged.
pub proof fn lemma_transfer_from_overdraw_rejected(
    t: TokenRecord,
    spender: Account,
    from: Account,
    to: Account,
    y: u128,
)
    requires
        t.allow_of(from, spender) < y,
    ensures
        transfer_from_check(t, spender, from, to, y) == Some(
            TokenError::InsufficientAllowance { have: t.allow_of(from, spender), want: y },
        ),
{
}

/// Id monotonicity: two successive successful creations, by any two
/// callers, are assigned the next two ids in order — no gap, no collision —
/// and the first token's record still stands untouched after the second
/// creation.
pub proof fn lemma_ids_sequential(
    r0: Registry,
    r1: Registry,
    r2: Registry,
    caller1: Account,
    caller2: Account,
    name1: Seq<char>,
    symbol1: Seq<char>,
    name2: Seq<char>,
    symbol2: Seq<char>,
    decimals1: u32,
    decimals2: u32,
    supply1: u128,
    supply2: u128,
    id1: usize,
    id2: usize,
)
    requires
        create_post(r0, r1, caller1, name1, symbol1, decimals1, supply1, id1),
        create_post(r1, r2, caller2, name2, symbol2, decimals2, supply2, id2),
    ensures
        id1 == r0.spec_token_count(),
        id2 == id1 + 1,
        r2.spec_token_count() == r0.spec_token_count() + 2,
        r2.token_at(id1 as int) == r1.token_at(id1 as int),
{
}

/// Ledger isolation: a creation touches no existing ledger — every balance
/// and every allowance of every earlier token reads back unchanged.
pub proof fn lemma_creation_isolates(
    r0: Registry,
    r1: Registry,
    caller: Account,
    name: Seq<char>,
    symbol: Seq<char>,
    decimals: u32,
    supply: u128,
    id: usize,
    earlier: usize,
)
    requires
        create_post(r0, r1, caller, name, symbol, decimals, supply, id),
        r0.has_token(earlier),
    ensures
        forall|a: Account| #[trigger]
            r1.spec_balance_of(earlier, a) == r0.spec_balance_of(earlier, a),
        forall|o: Account, sp: Account| #[trigger]
            r1.spec_allowance(earlier, o, sp) == r0.spec_allowance(earlier, o, sp),
{
    assert(r1.token_at(earlier as int) == r0.token_at(earlier as int));
}

/// Unknown-token asymmetry: an id never assigned answers 0 to both pure
/// queries without failing, while every mutating operation on it is
/// rejected with `InvalidToken` — and the executable contracts then
/// guarantee the stored state is unchanged.
pub proof fn lemma_unknown_token_asymmetry(
    r: Registry,
    token_id: usize,
    caller: Account,
    other: Account,
    third: Account,
    amount: u128,
)
    requires
        !r.has_token(token_id),
    ensures
        r.spec_balance_of(token_id, other) == 0,
        r.spec_allowance(token_id, other, third) == 0,
        reg_transfer_check(r, caller, token_id, other, amount) == Some(TokenError::InvalidToken),
        reg_approve_check(r, caller, token_id, other) == Some(TokenError::InvalidToken),
        reg_transfer_from_check(r, caller, token_id, other, third, amount) == Some(
            TokenError::InvalidToken,
        ),
        reg_increase_check(r, caller, token_id, other, amount) == Some(TokenError::InvalidToken),
        reg_decrease_check(r, caller, token_id, other, amount) == Some(TokenError::InvalidToken),
{
}

} // verus!
