//! The ledger record and its transitions, as mathematical functions.

use vstd::prelude::*;
use crate::error::ErrorCode;
use crate::pubkey::Pubkey;

verus! {

/// The ledger record of one owner.
///
/// `total_balance` is what the custody account holds for the owner,
/// `locked_balance` the part committed as collateral and `available_balance`
/// the part the owner may withdraw. The identities and `bump` are set when
/// the record is created and no operation changes them.
#[derive(Clone, Copy, Debug, PartialEq, Eq)]
pub struct CollateralVault {
    pub owner: Pubkey,
    pub token_account: Pubkey,
    pub total_balance: u64,
    pub locked_balance: u64,
    pub available_balance: u64,
    pub bump: u8,
    pub trading_authority: Pubkey,
}

/// The bytes of the word `vault`, the first seed of every vault's address.
pub open spec fn vault_seed() -> Seq<u8> {
    seq![118u8, 97u8, 117u8, 108u8, 116u8]
}

impl CollateralVault {
    /// The balance equation: every unit in custody is either locked or available.
    pub open spec fn wf(self) -> bool {
        self.total_balance == self.locked_balance + self.available_balance
    }

    /// True when `other` carries the same identities and nonce as `self`.
    pub open spec fn same_bindings(self, other: CollateralVault) -> bool {
        &&& other.owner == self.owner
        &&& other.token_account == self.token_account
        &&& other.trading_authority == self.trading_authority
        &&& other.bump == self.bump
    }

    /// The record that creation yields: all balances zero.
    pub open spec fn fresh(
        owner: Pubkey,
        token_account: Pubkey,
        trading_authority: Pubkey,
        bump: u8,
    ) -> CollateralVault {
        CollateralVault {
            owner,
            token_account,
            total_balance: 0,
            locked_balance: 0,
            available_balance: 0,
            bump,
            trading_authority,
        }
    }

    /// What a deposit of `amount` by `caller` does: the new record, or the
    /// reason for which it is refused.
    pub open spec fn deposit_outcome(self, caller: Pubkey, amount: u64) -> Result<
        CollateralVault,
        ErrorCode,
    > {
        if caller != self.owner {
            Err(ErrorCode::InvalidOwner)
        } else if amount == 0 {
            Err(ErrorCode::InvalidAmount)
        } else if self.total_balance + amount > u64::MAX || self.available_balance + amount
            > u64::MAX {
            Err(ErrorCode::Overflow)
        } else {
            Ok(
                CollateralVault {
                    total_balance: (self.total_balance + amount) as u64,
                    available_balance: (self.available_balance + amount) as u64,
                    ..self
                },
            )
        }
    }

    /// What a withdrawal of `amount` by `caller` does.
    pub open spec fn withdraw_outcome(self, caller: Pubkey, amount: u64) -> Result<
        CollateralVault,
        ErrorCode,
    > {
        if caller != self.owner {
            Err(ErrorCode::InvalidOwner)
        } else if amount == 0 {
            Err(ErrorCode::InvalidAmount)
        } else if self.available_balance < amount {
            Err(ErrorCode::InsufficientBalance)
        } else if self.total_balance < amount {
            Err(ErrorCode::Overflow)
        } else {
            Ok(
                CollateralVault {
                    total_balance: (self.total_balance - amount) as u64,
                    available_balance: (self.available_balance - amount) as u64,
                    ..self
                },
            )
        }
    }

    /// What locking `amount` by `caller` does.
    pub open spec fn lock_outcome(self, caller: Pubkey, amount: u64) -> Result<
        CollateralVault,
        ErrorCode,
    > {
        if caller != self.trading_authority {
            Err(ErrorCode::InvalidAuthority)
        } else if self.available_balance < amount {
            Err(ErrorCode::InsufficientBalance)
        } else if self.locked_balance + amount > u64::MAX {
            Err(ErrorCode::Overflow)
        } else {
            Ok(
                CollateralVault {
                    available_balance: (self.available_balance - amount) as u64,
                    locked_balance: (self.locked_balance + amount) as u64,
                    ..self
                },
            )
        }
    }

    /// What unlocking `amount` by `caller` does.
    pub open spec fn unlock_outcome(self, caller: Pubkey, amount: u64) -> Result<
        CollateralVault,
        ErrorCode,
    > {
        if caller != self.trading_authority {
            Err(ErrorCode::InvalidAuthority)
        } else if self.locked_balance < amount {
            Err(ErrorCode::InsufficientLockedBalance)
        } else if self.available_balance + amount > u64::MAX {
            Err(ErrorCode::Overflow)
        } else {
            Ok(
                CollateralVault {
                    locked_balance: (self.locked_balance - amount) as u64,
                    available_balance: (self.available_balance + amount) as u64,
                    ..self
                },
            )
        }
    }

    /// The record after an operation with the given outcome: the new record
    /// on success, this one unchanged on refusal.
    pub open spec fn after(self, outcome: Result<CollateralVault, ErrorCode>) -> CollateralVault {
        match outcome {
            Ok(next) => next,
            Err(_) => self,
        }
    }

    /// The seeds under which the vault signs for its custody account: the
    /// word `vault`, the owner's bytes, and the nonce.
    pub fn signer_seeds(&self) -> (seeds: Vec<Vec<u8>>)
        ensures
            seeds@.len() == 3,
            seeds@[0]@ == vault_seed(),
            seeds@[1]@ == self.owner.bytes@,
            seeds@[2]@ == seq![self.bump],
    {
        let mut word: Vec<u8> = Vec::new();
        word.push(118u8);
        word.push(97u8);
        word.push(117u8);
        word.push(108u8);
        word.push(116u8);
        assert(word@ =~= vault_seed());
        let mut key: Vec<u8> = Vec::new();
        let mut i: usize = 0;
        while i < 32
            invariant
                i <= 32,
                key@.len() == i,
                forall|j: int| 0 <= j < i ==> key@[j] == self.owner.bytes@[j],
            decreases 32 - i,
        {
            key.push(self.owner.bytes[i]);
            i += 1;
        }
        assert(key@ =~= self.owner.bytes@);
        let mut nonce: Vec<u8> = Vec::new();
        nonce.push(self.bump);
        assert(nonce@ =~= seq![self.bump]);
        let mut seeds: Vec<Vec<u8>> = Vec::new();
        seeds.push(word);
        seeds.push(key);
        seeds.push(nonce);
        seeds
    }
}

} // verus!
