//! Requests to the value-transfer service.
//!
//! The ledger never moves value itself. A handler that needs value moved
//! describes the movement as a [`Transfer`]; the caller has the service
//! carry it out and only then lets the ledger record it.

use vstd::prelude::*;
use crate::pubkey::Pubkey;

verus! {

/// Who authorizes a transfer.
#[derive(Clone, Copy, Debug, PartialEq, Eq, Structural)]
pub enum TransferAuthority {
    /// The owner, by their own signature.
    Owner,
    /// The vault itself, by the seeds of its address.
    Vault,
}

/// One movement of `amount` units from the account `from` to the account `to`.
#[derive(Clone, Copy, Debug, PartialEq, Eq)]
pub struct Transfer {
    pub from: Pubkey,
    pub to: Pubkey,
    pub amount: u64,
    pub authority: TransferAuthority,
}

} // verus!
