//! The five operations on a vault, each with the accounts it works on.
//!
//! A deposit or a withdrawal moves value through the transfer service. The
//! caller first asks the context for the [`Transfer`] to perform, which is
//! granted exactly when the operation will succeed, has the service perform
//! it, and then calls the handler, which records it.

use vstd::prelude::*;
use crate::error::ErrorCode;
use crate::events::DepositEvent;
use crate::pubkey::Pubkey;
use crate::state::CollateralVault;
use crate::transfer::{Transfer, TransferAuthority};

verus! {

/// What creating a vault works on: the creating user, who becomes the
/// owner, the nominated trading authority, the record to fill, the custody
/// account made for it and the nonce of the record's address.
#[derive(Clone, Copy, Debug, PartialEq, Eq)]
pub struct InitializeVault {
    pub user: Pubkey,
    pub trading_authority: Pubkey,
    pub vault: CollateralVault,
    pub vault_token_account: Pubkey,
    pub bump: u8,
}

/// What a deposit works on: the calling user, their vault and the token
/// account that the value comes from.
#[derive(Clone, Copy, Debug, PartialEq, Eq)]
pub struct Deposit {
    pub user: Pubkey,
    pub vault: CollateralVault,
    pub user_token_account: Pubkey,
}

/// What a withdrawal works on: the calling user, their vault and the token
/// account that the value goes to.
#[derive(Clone, Copy, Debug, PartialEq, Eq)]
pub struct Withdraw {
    pub user: Pubkey,
    pub vault: CollateralVault,
    pub user_token_account: Pubkey,
}

/// What locking works on: the calling authority and the vault.
#[derive(Clone, Copy, Debug, PartialEq, Eq)]
pub struct LockCollateral {
    pub trading_authority: Pubkey,
    pub vault: CollateralVault,
}

/// What unlocking works on: the calling authority and the vault.
#[derive(Clone, Copy, Debug, PartialEq, Eq)]
pub struct UnlockCollateral {
    pub trading_authority: Pubkey,
    pub vault: CollateralVault,
}

impl Deposit {
    /// The transfer that this deposit needs: `amount` from the user's token
    /// account to the vault's custody account, signed by the user. It is
    /// granted exactly when [`deposit`] will succeed; otherwise the error is
    /// the one that [`deposit`] would give.
    pub fn transfer(&self, amount: u64) -> (r: Result<Transfer, ErrorCode>)
        ensures
            match self.vault.deposit_outcome(self.user, amount) {
                Ok(_) => r == Ok::<Transfer, ErrorCode>(
                    (Transfer {
                        from: self.user_token_account,
                        to: self.vault.token_account,
                        amount,
                        authority: TransferAuthority::Owner,
                    }),
                ),
                Err(e) => r == Err::<Transfer, ErrorCode>(e),
            },
    {
        if self.user != self.vault.owner {
            return Err(ErrorCode::InvalidOwner);
        }
        if amount == 0 {
            return Err(ErrorCode::InvalidAmount);
        }
        if self.vault.total_balance > u64::MAX - amount || self.vault.available_balance > u64::MAX
            - amount {
            return Err(ErrorCode::Overflow);
        }
        Ok(
            Transfer {
                from: self.user_token_account,
                to: self.vault.token_account,
                amount,
                authority: TransferAuthority::Owner,
            },
        )
    }
}

impl Withdraw {
    /// The transfer that this withdrawal needs: `amount` from the vault's
    /// custody account to the user's token account, signed by the vault. It
    /// is granted exactly when [`withdraw`] will succeed; otherwise the error
    /// is the one that [`withdraw`] would give.
    pub fn transfer(&self, amount: u64) -> (r: Result<Transfer, ErrorCode>)
        ensures
            match self.vault.withdraw_outcome(self.user, amount) {
                Ok(_) => r == Ok::<Transfer, ErrorCode>(
                    (Transfer {
                        from: self.vault.token_account,
                        to: self.user_token_account,
                        amount,
                        authority: TransferAuthority::Vault,
                    }),
                ),
                Err(e) => r == Err::<Transfer, ErrorCode>(e),
            },
    {
        if self.user != self.vault.owner {
            return Err(ErrorCode::InvalidOwner);
        }
        if amount == 0 {
            return Err(ErrorCode::InvalidAmount);
        }
        if self.vault.available_balance < amount {
            return Err(ErrorCode::InsufficientBalance);
        }
        if self.vault.total_balance < amount {
            return Err(ErrorCode::Overflow);
        }
        Ok(
            Transfer {
                from: self.vault.token_account,
                to: self.user_token_account,
                amount,
                authority: TransferAuthority::Vault,
            },
        )
    }
}

/// Creates the vault: binds the owner, the custody account, the trading
/// authority and the nonce, and sets every balance to zero.
pub fn initialize_vault(ctx: &mut InitializeVault) -> (r: Result<(), ErrorCode>)
    ensures
        r is Ok,
        final(ctx).vault == CollateralVault::fresh(
            old(ctx).user,
            old(ctx).vault_token_account,
            old(ctx).trading_authority,
            old(ctx).bump,
        ),
        final(ctx).vault.wf(),
        final(ctx).user == old(ctx).user,
        final(ctx).trading_authority == old(ctx).trading_authority,
        final(ctx).vault_token_account == old(ctx).vault_token_account,
        final(ctx).bump == old(ctx).bump,
{
    ctx.vault.owner = ctx.user;
    ctx.vault.token_account = ctx.vault_token_account;
    ctx.vault.total_balance = 0;
    ctx.vault.locked_balance = 0;
    ctx.vault.available_balance = 0;
    ctx.vault.bump = ctx.bump;
    ctx.vault.trading_authority = ctx.trading_authority;
    Ok(())
}

/// Records a deposit of `amount` by the user, after the transfer into
/// custody was made: the total and the available balance grow by `amount`.
/// Returns the notification of the deposit, stamped with `timestamp`.
///
/// Refused with `InvalidOwner` when the user is not the vault's owner, else
/// with `InvalidAmount` when `amount` is zero, else with `Overflow` when a
/// balance would leave its range.
pub fn deposit(ctx: &mut Deposit, amount: u64, timestamp: i64) -> (r: Result<
    DepositEvent,
    ErrorCode,
>)
    ensures
        final(ctx).user == old(ctx).user,
        final(ctx).user_token_account == old(ctx).user_token_account,
        final(ctx).vault == old(ctx).vault.after(
            old(ctx).vault.deposit_outcome(old(ctx).user, amount),
        ),
        match old(ctx).vault.deposit_outcome(old(ctx).user, amount) {
            Ok(vault) => r == Ok::<DepositEvent, ErrorCode>(
                (DepositEvent {
                    user: old(ctx).user,
                    amount,
                    new_balance: vault.total_balance,
                    timestamp,
                }),
            ),
            Err(e) => r == Err::<DepositEvent, ErrorCode>(e),
        },
        old(ctx).vault.wf() ==> final(ctx).vault.wf(),
        old(ctx).vault.same_bindings(final(ctx).vault),
{
    if ctx.user != ctx.vault.owner {
        return Err(ErrorCode::InvalidOwner);
    }
    if amount == 0 {
        return Err(ErrorCode::InvalidAmount);
    }
    let total = match ctx.vault.total_balance.checked_add(amount) {
        Some(total) => total,
        None => { return Err(ErrorCode::Overflow); },
    };
    let available = match ctx.vault.available_balance.checked_add(amount) {
        Some(available) => available,
        None => { return Err(ErrorCode::Overflow); },
    };
    ctx.vault.total_balance = total;
    ctx.vault.available_balance = available;
    Ok(DepositEvent { user: ctx.user, amount, new_balance: total, timestamp })
}

/// Records a withdrawal of `amount` by the user, after the transfer out of
/// custody was made: the total and the available balance shrink by `amount`,
/// and the locked balance stays.
///
/// Refused with `InvalidOwner` when the user is not the vault's owner, else
/// with `InvalidAmount` when `amount` is zero, else with
/// `InsufficientBalance` when less than `amount` is available, else with
/// `Overflow` when the total is below `amount`.
pub fn withdraw(ctx: &mut Withdraw, amount: u64) -> (r: Result<(), ErrorCode>)
    ensures
        final(ctx).user == old(ctx).user,
        final(ctx).user_token_account == old(ctx).user_token_account,
        final(ctx).vault == old(ctx).vault.after(
            old(ctx).vault.withdraw_outcome(old(ctx).user, amount),
        ),
        match old(ctx).vault.withdraw_outcome(old(ctx).user, amount) {
            Ok(_) => r == Ok::<(), ErrorCode>(()),
            Err(e) => r == Err::<(), ErrorCode>(e),
        },
        old(ctx).vault.wf() ==> final(ctx).vault.wf(),
        old(ctx).vault.same_bindings(final(ctx).vault),
{
    if ctx.user != ctx.vault.owner {
        return Err(ErrorCode::InvalidOwner);
    }
    if amount == 0 {
        return Err(ErrorCode::InvalidAmount);
    }
    if ctx.vault.available_balance < amount {
        return Err(ErrorCode::InsufficientBalance);
    }
    let total = match ctx.vault.total_balance.checked_sub(amount) {
        Some(total) => total,
        None => { return Err(ErrorCode::Overflow); },
    };
    let available = match ctx.vault.available_balance.checked_sub(amount) {
        Some(available) => available,
        None => { return Err(ErrorCode::Overflow); },
    };
    ctx.vault.total_balance = total;
    ctx.vault.available_balance = available;
    Ok(())
}

/// Commits `amount` of the available balance as collateral. The total
/// balance stays, and no value moves in or out of custody.
///
/// Refused with `InvalidAuthority` when the caller is not the vault's
/// trading authority, else with `InsufficientBalance` when less than
/// `amount` is available, else with `Overflow` when the locked balance would
/// leave its range. Locking zero succeeds and changes nothing.
pub fn lock_collateral(ctx: &mut LockCollateral, amount: u64) -> (r: Result<(), ErrorCode>)
    ensures
        final(ctx).trading_authority == old(ctx).trading_authority,
        final(ctx).vault == old(ctx).vault.after(
            old(ctx).vault.lock_outcome(old(ctx).trading_authority, amount),
        ),
        match old(ctx).vault.lock_outcome(old(ctx).trading_authority, amount) {
            Ok(_) => r == Ok::<(), ErrorCode>(()),
            Err(e) => r == Err::<(), ErrorCode>(e),
        },
        old(ctx).vault.wf() ==> final(ctx).vault.wf(),
        old(ctx).vault.same_bindings(final(ctx).vault),
{
    if ctx.trading_authority != ctx.vault.trading_authority {
        return Err(ErrorCode::InvalidAuthority);
    }
    if ctx.vault.available_balance < amount {
        return Err(ErrorCode::InsufficientBalance);
    }
    let available = match ctx.vault.available_balance.checked_sub(amount) {
        Some(available) => available,
        None => { return Err(ErrorCode::Overflow); },
    };
    let locked = match ctx.vault.locked_balance.checked_add(amount) {
        Some(locked) => locked,
        None => { return Err(ErrorCode::Overflow); },
    };
    ctx.vault.available_balance = available;
    ctx.vault.locked_balance = locked;
    Ok(())
}

/// Releases `amount` of the locked balance back to the available balance.
/// The total balance stays, and no value moves in or out of custody.
///
/// Refused with `InvalidAuthority` when the caller is not the vault's
/// trading authority, else with `InsufficientLockedBalance` when less than
/// `amount` is locked, else with `Overflow` when the available balance would
/// leave its range. Unlocking zero succeeds and changes nothing.
pub fn unlock_collateral(ctx: &mut UnlockCollateral, amount: u64) -> (r: Result<(), ErrorCode>)
    ensures
        final(ctx).trading_authority == old(ctx).trading_authority,
        final(ctx).vault == old(ctx).vault.after(
            old(ctx).vault.unlock_outcome(old(ctx).trading_authority, amount),
        ),
        match old(ctx).vault.unlock_outcome(old(ctx).trading_authority, amount) {
            Ok(_) => r == Ok::<(), ErrorCode>(()),
            Err(e) => r == Err::<(), ErrorCode>(e),
        },
        old(ctx).vault.wf() ==> final(ctx).vault.wf(),
        old(ctx).vault.same_bindings(final(ctx).vault),
{
    if ctx.trading_authority != ctx.vault.trading_authority {
        return Err(ErrorCode::InvalidAuthority);
    }
    if ctx.vault.locked_balance < amount {
        return Err(ErrorCode::InsufficientLockedBalance);
    }
    let locked = match ctx.vault.locked_balance.checked_sub(amount) {
        Some(locked) => locked,
        None => { return Err(ErrorCode::Overflow); },
    };
    let available = match ctx.vault.available_balance.checked_add(amount) {
        Some(available) => available,
        None => { return Err(ErrorCode::Overflow); },
    };
    ctx.vault.locked_balance = locked;
    ctx.vault.available_balance = available;
    Ok(())
}

} // verus!
