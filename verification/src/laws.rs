//! What holds of the ledger's transitions, whatever the record and the
//! amounts: the balance equation survives every operation, refusals depend
//! on the caller and the amount as stated, and paired operations undo each
//! other.

use vstd::prelude::*;
use crate::error::ErrorCode;
use crate::pubkey::Pubkey;
use crate::state::CollateralVault;

verus! {

/// A freshly created vault has all balances zero and satisfies the balance
/// equation.
pub proof fn lemma_fresh_is_wf(
    owner: Pubkey,
    token_account: Pubkey,
    trading_authority: Pubkey,
    bump: u8,
)
    ensures
        CollateralVault::fresh(owner, token_account, trading_authority, bump).wf(),
        CollateralVault::fresh(owner, token_account, trading_authority, bump).total_balance == 0,
        CollateralVault::fresh(owner, token_account, trading_authority, bump).locked_balance == 0,
        CollateralVault::fresh(owner, token_account, trading_authority, bump).available_balance
            == 0,
{
}

/// Every operation, granted or refused, keeps the balance equation and
/// leaves the owner, the custody account, the trading authority and the
/// nonce as they were.
pub proof fn lemma_operations_keep_invariants(vault: CollateralVault, caller: Pubkey, amount: u64)
    requires
        vault.wf(),
    ensures
        vault.after(vault.deposit_outcome(caller, amount)).wf(),
        vault.after(vault.withdraw_outcome(caller, amount)).wf(),
        vault.after(vault.lock_outcome(caller, amount)).wf(),
        vault.after(vault.unlock_outcome(caller, amount)).wf(),
        vault.same_bindings(vault.after(vault.deposit_outcome(caller, amount))),
        vault.same_bindings(vault.after(vault.withdraw_outcome(caller, amount))),
        vault.same_bindings(vault.after(vault.lock_outcome(caller, amount))),
        vault.same_bindings(vault.after(vault.unlock_outcome(caller, amount))),
{
}

/// A granted deposit or withdrawal changes the total and the available
/// balance by exactly the amount and leaves the locked balance alone; a
/// granted lock or unlock moves exactly the amount between the available and
/// the locked balance and leaves the total alone.
pub proof fn lemma_granted_deltas(vault: CollateralVault, caller: Pubkey, amount: u64)
    ensures
        vault.deposit_outcome(caller, amount) matches Ok(next) ==> {
            &&& next.total_balance == vault.total_balance + amount
            &&& next.available_balance == vault.available_balance + amount
            &&& next.locked_balance == vault.locked_balance
        },
        vault.withdraw_outcome(caller, amount) matches Ok(next) ==> {
            &&& next.total_balance == vault.total_balance - amount
            &&& next.available_balance == vault.available_balance - amount
            &&& next.locked_balance == vault.locked_balance
        },
        vault.lock_outcome(caller, amount) matches Ok(next) ==> {
            &&& next.total_balance == vault.total_balance
            &&& next.available_balance == vault.available_balance - amount
            &&& next.locked_balance == vault.locked_balance + amount
        },
        vault.unlock_outcome(caller, amount) matches Ok(next) ==> {
            &&& next.total_balance == vault.total_balance
            &&& next.available_balance == vault.available_balance + amount
            &&& next.locked_balance == vault.locked_balance - amount
        },
{
}

/// On a vault that satisfies the balance equation, a withdrawal, a lock or
/// an unlock is never refused for arithmetic: only a deposit can overflow,
/// and it does exactly when the total would leave its range.
pub proof fn lemma_arithmetic_refusals(vault: CollateralVault, caller: Pubkey, amount: u64)
    requires
        vault.wf(),
    ensures
        vault.withdraw_outcome(caller, amount) != Err::<CollateralVault, ErrorCode>(
            ErrorCode::Overflow,
        ),
        vault.lock_outcome(caller, amount) != Err::<CollateralVault, ErrorCode>(
            ErrorCode::Overflow,
        ),
        vault.unlock_outcome(caller, amount) != Err::<CollateralVault, ErrorCode>(
            ErrorCode::Overflow,
        ),
        vault.deposit_outcome(caller, amount) == Err::<CollateralVault, ErrorCode>(
            ErrorCode::Overflow,
        ) <==> caller == vault.owner && amount > 0 && vault.total_balance + amount > u64::MAX,
{
}

/// A deposit followed by a withdrawal of the same amount, with nothing in
/// between, is granted and gives back the record from before the deposit.
pub proof fn lemma_deposit_then_withdraw(vault: CollateralVault, caller: Pubkey, amount: u64)
    requires
        vault.deposit_outcome(caller, amount) is Ok,
    ensures
        vault.deposit_outcome(caller, amount).unwrap().withdraw_outcome(caller, amount) == Ok::<
            CollateralVault,
            ErrorCode,
        >(vault),
{
}

/// A lock followed by an unlock of the same amount is granted and gives back
/// the record from before the lock; the total balance is the same before,
/// between and after.
pub proof fn lemma_lock_then_unlock(vault: CollateralVault, caller: Pubkey, amount: u64)
    requires
        vault.lock_outcome(caller, amount) is Ok,
    ensures
        vault.lock_outcome(caller, amount).unwrap().total_balance == vault.total_balance,
        vault.lock_outcome(caller, amount).unwrap().unlock_outcome(caller, amount) == Ok::<
            CollateralVault,
            ErrorCode,
        >(vault),
{
}

/// The owner's deposit or withdrawal of zero is refused as an invalid
/// amount.
pub proof fn lemma_zero_deposit_withdraw_refused(vault: CollateralVault)
    ensures
        vault.deposit_outcome(vault.owner, 0) == Err::<CollateralVault, ErrorCode>(
            ErrorCode::InvalidAmount,
        ),
        vault.withdraw_outcome(vault.owner, 0) == Err::<CollateralVault, ErrorCode>(
            ErrorCode::InvalidAmount,
        ),
{
}

/// The trading authority's lock or unlock of zero is granted and changes
/// nothing.
pub proof fn lemma_zero_lock_unlock_is_noop(vault: CollateralVault)
    ensures
        vault.lock_outcome(vault.trading_authority, 0) == Ok::<CollateralVault, ErrorCode>(vault),
        vault.unlock_outcome(vault.trading_authority, 0) == Ok::<CollateralVault, ErrorCode>(
            vault,
        ),
{
}

/// A caller who is not the owner can neither deposit nor withdraw, and one
/// who is not the trading authority can neither lock nor unlock, whatever
/// the amount; the record stays as it was.
pub proof fn lemma_strangers_refused(vault: CollateralVault, caller: Pubkey, amount: u64)
    ensures
        caller != vault.owner ==> {
            &&& vault.deposit_outcome(caller, amount) == Err::<CollateralVault, ErrorCode>(
                ErrorCode::InvalidOwner,
            )
            &&& vault.withdraw_outcome(caller, amount) == Err::<CollateralVault, ErrorCode>(
                ErrorCode::InvalidOwner,
            )
            &&& vault.after(vault.deposit_outcome(caller, amount)) == vault
            &&& vault.after(vault.withdraw_outcome(caller, amount)) == vault
        },
        caller != vault.trading_authority ==> {
            &&& vault.lock_outcome(caller, amount) == Err::<CollateralVault, ErrorCode>(
                ErrorCode::InvalidAuthority,
            )
            &&& vault.unlock_outcome(caller, amount) == Err::<CollateralVault, ErrorCode>(
                ErrorCode::InvalidAuthority,
            )
            &&& vault.after(vault.lock_outcome(caller, amount)) == vault
            &&& vault.after(vault.unlock_outcome(caller, amount)) == vault
        },
{
}

} // verus!
