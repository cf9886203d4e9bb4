//! The reasons for which a ledger operation is refused.

use vstd::prelude::*;

verus! {

/// Why an operation was refused. A refused operation changes nothing.
#[derive(Clone, Copy, Debug, PartialEq, Eq, Structural)]
pub enum ErrorCode {
    /// The amount of a deposit or withdrawal was zero.
    InvalidAmount,
    /// A balance would have left the range of its counter, in either direction.
    Overflow,
    /// The available balance is smaller than the amount asked for.
    InsufficientBalance,
    /// The caller is not the owner of the vault.
    InvalidOwner,
    /// The caller is not the trading authority of the vault.
    InvalidAuthority,
    /// The locked balance is smaller than the amount asked for.
    InsufficientLockedBalance,
}

} // verus!
