//! Shared vocabulary of the registry: account identifiers, the sentinel
//! address, error and event kinds, and the label bounds checked at creation.

use vstd::prelude::*;

verus! {

/// An account identifier: a fixed-width unsigned value standing for an
/// address. The all-zero value is reserved as the sentinel.
pub type Account = u128;

/// The reserved "no one" address: never a valid participant, and used to
/// mean "does not exist".
pub const SENTINEL: Account = 0;

/// Upper bound, in characters, on a token's name and symbol. Labels are
/// validated against this bound once, at creation, and never change.
pub const MAX_LABEL_LEN: usize = 64;

/// Whether a creation label is acceptable: non-empty and within the fixed
/// maximum length.
pub open spec fn label_ok(s: Seq<char>) -> bool {
    0 < s.len() <= MAX_LABEL_LEN
}

/// A structured failure. Every error aborts the whole invocation: the caller
/// sees the offending values, and the stored state is exactly as if the call
/// had never been made.
#[derive(Clone, Copy, Debug, PartialEq, Eq, Structural)]
pub enum TokenError {
    /// The token id names no created token.
    InvalidToken,
    /// A sender or owner address is the sentinel.
    InvalidSender,
    /// A recipient or spender address is the sentinel.
    InvalidRecipient,
    /// The sender holds `have`; the operation wanted `want`.
    InsufficientBalance { have: u128, want: u128 },
    /// The owner granted `have`; the operation wanted `want`.
    InsufficientAllowance { have: u128, want: u128 },
    /// A malformed creation parameter, or an allowance increase that would
    /// exceed the representable range.
    InvalidInput,
}

/// A notice appended to the event log for external observers. The log is
/// append-only and never read back by the registry itself.
#[derive(Clone, Copy, Debug, PartialEq, Eq, Structural)]
pub enum Event {
    /// A new token was created and its id assigned.
    Created { creator: Account, token_id: usize, initial_supply: u128 },
    /// Tokens moved from `from` to `to`; a creation credit uses the sentinel
    /// as `from`.
    Transfer { from: Account, to: Account, amount: u128 },
    /// An owner set a spender's allowance to `amount`.
    Approval { owner: Account, spender: Account, amount: u128 },
}

} // verus!
