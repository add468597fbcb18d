//! The error taxonomy shared by every ledger.
//!
//! Every precondition of an operation is checked before any mutation; a
//! violation aborts the whole operation with one of these errors and no
//! partial effect.

use vstd::prelude::*;

verus! {

/// Why an operation was refused. Arithmetic on balances and supply uses
/// checked operations and fails with `Overflow` rather than wrapping.
#[derive(Clone, Copy, Debug, PartialEq, Eq, Structural)]
pub enum Error {
    NotInitialized,
    AlreadyExists,
    NotFound,
    Unauthorized,
    InvalidInput,
    InsufficientBalance,
    InsufficientLiquidity,
    InsufficientAllowance,
    InsufficientTokens,
    Blacklisted,
    NoScore,
    ExceedsLimit,
    AlreadyPaid,
    NotActive,
    NotOwner,
    Overflow,
}

} // verus!
