//! Notifications that the ledger hands out for observers.

use vstd::prelude::*;
use crate::pubkey::Pubkey;

verus! {

/// A record of one deposit: who deposited, how much, the total balance that
/// resulted, and the time that the caller supplied.
#[derive(Clone, Copy, Debug, PartialEq, Eq)]
pub struct DepositEvent {
    pub user: Pubkey,
    pub amount: u64,
    pub new_balance: u64,
    pub timestamp: i64,
}

} // verus!
