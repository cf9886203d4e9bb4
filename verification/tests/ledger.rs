use collateral_vault::{
    deposit, initialize_vault, lock_collateral, unlock_collateral, withdraw, CollateralVault,
    Deposit, DepositEvent, ErrorCode, InitializeVault, LockCollateral, Pubkey, UnlockCollateral,
    Withdraw,
};

fn owner() -> Pubkey {
    Pubkey::new([1u8; 32])
}

fn authority() -> Pubkey {
    Pubkey::new([2u8; 32])
}

fn custody() -> Pubkey {
    Pubkey::new([3u8; 32])
}

fn wallet() -> Pubkey {
    Pubkey::new([4u8; 32])
}

fn stranger() -> Pubkey {
    Pubkey::new([9u8; 32])
}

fn vault(total: u64, locked: u64, available: u64) -> CollateralVault {
    CollateralVault {
        owner: owner(),
        token_account: custody(),
        total_balance: total,
        locked_balance: locked,
        available_balance: available,
        bump: 254,
        trading_authority: authority(),
    }
}

fn balances(v: &CollateralVault) -> (u64, u64, u64) {
    (v.total_balance, v.locked_balance, v.available_balance)
}

fn created() -> CollateralVault {
    let mut ctx = InitializeVault {
        user: owner(),
        trading_authority: authority(),
        vault: vault(77, 5, 3),
        vault_token_account: custody(),
        bump: 254,
    };
    assert_eq!(initialize_vault(&mut ctx), Ok(()));
    ctx.vault
}

fn do_deposit(v: CollateralVault, caller: Pubkey, amount: u64) -> (CollateralVault, Result<DepositEvent, ErrorCode>) {
    let mut ctx = Deposit { user: caller, vault: v, user_token_account: wallet() };
    let r = deposit(&mut ctx, amount, 1_700_000_000);
    assert_eq!(ctx.user, caller);
    assert_eq!(ctx.user_token_account, wallet());
    (ctx.vault, r)
}

fn do_withdraw(v: CollateralVault, caller: Pubkey, amount: u64) -> (CollateralVault, Result<(), ErrorCode>) {
    let mut ctx = Withdraw { user: caller, vault: v, user_token_account: wallet() };
    let r = withdraw(&mut ctx, amount);
    (ctx.vault, r)
}

fn do_lock(v: CollateralVault, caller: Pubkey, amount: u64) -> (CollateralVault, Result<(), ErrorCode>) {
    let mut ctx = LockCollateral { trading_authority: caller, vault: v };
    let r = lock_collateral(&mut ctx, amount);
    (ctx.vault, r)
}

fn do_unlock(v: CollateralVault, caller: Pubkey, amount: u64) -> (CollateralVault, Result<(), ErrorCode>) {
    let mut ctx = UnlockCollateral { trading_authority: caller, vault: v };
    let r = unlock_collateral(&mut ctx, amount);
    (ctx.vault, r)
}

#[test]
fn initialize_binds_identities_and_zeroes_balances() {
    let v = created();
    assert_eq!(balances(&v), (0, 0, 0));
    assert_eq!(v.owner, owner());
    assert_eq!(v.trading_authority, authority());
    assert_eq!(v.token_account, custody());
    assert_eq!(v.bump, 254);
}

#[test]
fn initialize_leaves_the_rest_of_the_context() {
    let mut ctx = InitializeVault {
        user: owner(),
        trading_authority: authority(),
        vault: vault(1, 1, 0),
        vault_token_account: custody(),
        bump: 7,
    };
    assert_eq!(initialize_vault(&mut ctx), Ok(()));
    assert_eq!(ctx.user, owner());
    assert_eq!(ctx.trading_authority, authority());
    assert_eq!(ctx.vault_token_account, custody());
    assert_eq!(ctx.bump, 7);
    assert_eq!(ctx.vault.bump, 7);
}

#[test]
fn deposit_credits_total_and_available() {
    let (v, r) = do_deposit(created(), owner(), 100);
    assert_eq!(
        r,
        Ok(DepositEvent { user: owner(), amount: 100, new_balance: 100, timestamp: 1_700_000_000 })
    );
    assert_eq!(balances(&v), (100, 0, 100));
}

#[test]
fn lock_moves_available_to_locked() {
    let (v, r) = do_lock(vault(100, 0, 100), authority(), 40);
    assert_eq!(r, Ok(()));
    assert_eq!(balances(&v), (100, 40, 60));
}

#[test]
fn withdraw_beyond_available_is_refused() {
    let before = vault(100, 40, 60);
    let (v, r) = do_withdraw(before, owner(), 70);
    assert_eq!(r, Err(ErrorCode::InsufficientBalance));
    assert_eq!(v, before);
}

#[test]
fn withdraw_debits_total_and_available() {
    let (v, r) = do_withdraw(vault(100, 40, 60), owner(), 50);
    assert_eq!(r, Ok(()));
    assert_eq!(balances(&v), (50, 40, 10));
}

#[test]
fn unlock_moves_locked_to_available() {
    let (v, r) = do_unlock(vault(50, 40, 10), authority(), 40);
    assert_eq!(r, Ok(()));
    assert_eq!(balances(&v), (50, 0, 50));
}

#[test]
fn lock_beyond_available_is_refused() {
    let before = vault(50, 0, 50);
    let (v, r) = do_lock(before, authority(), 1000);
    assert_eq!(r, Err(ErrorCode::InsufficientBalance));
    assert_eq!(v, before);
}

#[test]
fn whole_life_of_a_vault() {
    let v = created();
    let (v, r) = do_deposit(v, owner(), 100);
    assert!(r.is_ok());
    let (v, r) = do_lock(v, authority(), 40);
    assert_eq!(r, Ok(()));
    assert_eq!(balances(&v), (100, 40, 60));
    let (v, r) = do_withdraw(v, owner(), 70);
    assert_eq!(r, Err(ErrorCode::InsufficientBalance));
    assert_eq!(balances(&v), (100, 40, 60));
    let (v, r) = do_withdraw(v, owner(), 50);
    assert_eq!(r, Ok(()));
    assert_eq!(balances(&v), (50, 40, 10));
    let (v, r) = do_unlock(v, authority(), 40);
    assert_eq!(r, Ok(()));
    assert_eq!(balances(&v), (50, 0, 50));
    let (v, r) = do_lock(v, authority(), 1000);
    assert_eq!(r, Err(ErrorCode::InsufficientBalance));
    assert_eq!(balances(&v), (50, 0, 50));
    assert_eq!(v.owner, owner());
    assert_eq!(v.trading_authority, authority());
}

#[test]
fn stranger_cannot_deposit() {
    let before = vault(100, 40, 60);
    let (v, r) = do_deposit(before, stranger(), 10);
    assert_eq!(r, Err(ErrorCode::InvalidOwner));
    assert_eq!(v, before);
}

#[test]
fn stranger_cannot_withdraw() {
    let before = vault(100, 40, 60);
    let (v, r) = do_withdraw(before, stranger(), 10);
    assert_eq!(r, Err(ErrorCode::InvalidOwner));
    assert_eq!(v, before);
}

#[test]
fn stranger_cannot_lock() {
    let before = vault(100, 40, 60);
    let (v, r) = do_lock(before, stranger(), 10);
    assert_eq!(r, Err(ErrorCode::InvalidAuthority));
    assert_eq!(v, before);
}

#[test]
fn stranger_cannot_unlock() {
    let before = vault(100, 40, 60);
    let (v, r) = do_unlock(before, stranger(), 10);
    assert_eq!(r, Err(ErrorCode::InvalidAuthority));
    assert_eq!(v, before);
}

#[test]
fn owner_cannot_lock_and_authority_cannot_withdraw() {
    let before = vault(100, 40, 60);
    assert_eq!(do_lock(before, owner(), 10), (before, Err(ErrorCode::InvalidAuthority)));
    assert_eq!(do_unlock(before, owner(), 10), (before, Err(ErrorCode::InvalidAuthority)));
    assert_eq!(do_withdraw(before, authority(), 10), (before, Err(ErrorCode::InvalidOwner)));
    assert_eq!(do_deposit(before, authority(), 10).1, Err(ErrorCode::InvalidOwner));
}

#[test]
fn authorization_is_checked_before_the_amount() {
    let before = vault(100, 40, 60);
    assert_eq!(do_deposit(before, stranger(), 0).1, Err(ErrorCode::InvalidOwner));
    assert_eq!(do_withdraw(before, stranger(), 0).1, Err(ErrorCode::InvalidOwner));
    assert_eq!(do_withdraw(before, stranger(), 1000).1, Err(ErrorCode::InvalidOwner));
    assert_eq!(do_lock(before, stranger(), 1000).1, Err(ErrorCode::InvalidAuthority));
    assert_eq!(do_unlock(before, stranger(), 1000).1, Err(ErrorCode::InvalidAuthority));
}

#[test]
fn zero_deposit_and_withdrawal_are_refused() {
    let before = vault(100, 40, 60);
    let (v, r) = do_deposit(before, owner(), 0);
    assert_eq!(r, Err(ErrorCode::InvalidAmount));
    assert_eq!(v, before);
    let (v, r) = do_withdraw(before, owner(), 0);
    assert_eq!(r, Err(ErrorCode::InvalidAmount));
    assert_eq!(v, before);
}

#[test]
fn zero_lock_and_unlock_change_nothing() {
    let before = vault(100, 40, 60);
    assert_eq!(do_lock(before, authority(), 0), (before, Ok(())));
    assert_eq!(do_unlock(before, authority(), 0), (before, Ok(())));
    let empty = vault(0, 0, 0);
    assert_eq!(do_lock(empty, authority(), 0), (empty, Ok(())));
    assert_eq!(do_unlock(empty, authority(), 0), (empty, Ok(())));
}

#[test]
fn unlock_beyond_locked_is_refused() {
    let before = vault(100, 40, 60);
    let (v, r) = do_unlock(before, authority(), 41);
    assert_eq!(r, Err(ErrorCode::InsufficientLockedBalance));
    assert_eq!(v, before);
}

#[test]
fn deposit_past_the_counter_is_refused() {
    let before = vault(u64::MAX - 5, 0, u64::MAX - 5);
    let (v, r) = do_deposit(before, owner(), 6);
    assert_eq!(r, Err(ErrorCode::Overflow));
    assert_eq!(v, before);
    let (v, r) = do_deposit(before, owner(), 5);
    assert!(r.is_ok());
    assert_eq!(balances(&v), (u64::MAX, 0, u64::MAX));
}

#[test]
fn deposit_overflow_of_available_alone_is_refused_whole() {
    let before = vault(10, 0, u64::MAX);
    let (v, r) = do_deposit(before, owner(), 1);
    assert_eq!(r, Err(ErrorCode::Overflow));
    assert_eq!(v, before);
}

#[test]
fn arithmetic_on_a_broken_record_is_refused_whole() {
    let short_total = vault(5, 0, 60);
    assert_eq!(do_withdraw(short_total, owner(), 10), (short_total, Err(ErrorCode::Overflow)));
    let full_locked = vault(100, u64::MAX, 60);
    assert_eq!(do_lock(full_locked, authority(), 1), (full_locked, Err(ErrorCode::Overflow)));
    let full_available = vault(100, 40, u64::MAX);
    assert_eq!(
        do_unlock(full_available, authority(), 1),
        (full_available, Err(ErrorCode::Overflow))
    );
}

#[test]
fn withdraw_all_available_leaves_the_locked_part() {
    let (v, r) = do_withdraw(vault(100, 40, 60), owner(), 60);
    assert_eq!(r, Ok(()));
    assert_eq!(balances(&v), (40, 40, 0));
}

#[test]
fn deposit_then_withdraw_restores_the_record() {
    let before = vault(100, 40, 60);
    let (v, r) = do_deposit(before, owner(), 33);
    assert!(r.is_ok());
    assert_eq!(balances(&v), (133, 40, 93));
    let (v, r) = do_withdraw(v, owner(), 33);
    assert_eq!(r, Ok(()));
    assert_eq!(v, before);
}

#[test]
fn lock_then_unlock_restores_the_record() {
    let before = vault(100, 40, 60);
    let (v, r) = do_lock(before, authority(), 25);
    assert_eq!(r, Ok(()));
    assert_eq!(balances(&v), (100, 65, 35));
    let (v, r) = do_unlock(v, authority(), 25);
    assert_eq!(r, Ok(()));
    assert_eq!(v, before);
}

#[test]
fn balance_equation_holds_along_a_run() {
    let mut v = created();
    let steps: [(u8, u64); 8] =
        [(0, 500), (2, 120), (1, 300), (3, 20), (2, 1000), (1, 81), (0, 7), (3, 100)];
    for (op, amount) in steps {
        let next = match op {
            0 => do_deposit(v, owner(), amount).0,
            1 => do_withdraw(v, owner(), amount).0,
            2 => do_lock(v, authority(), amount).0,
            _ => do_unlock(v, authority(), amount).0,
        };
        assert_eq!(next.total_balance, next.locked_balance + next.available_balance);
        assert_eq!(next.owner, owner());
        assert_eq!(next.trading_authority, authority());
        assert_eq!(next.token_account, custody());
        v = next;
    }
    assert_eq!(balances(&v), (126, 0, 126));
}

#[test]
fn identities_differ_when_one_byte_differs() {
    let mut bytes = [1u8; 32];
    assert!(Pubkey::new(bytes) == owner());
    bytes[31] = 0;
    assert!(Pubkey::new(bytes) != owner());
    assert_eq!(Pubkey::new(bytes).to_bytes(), bytes);
    let mut first = [1u8; 32];
    first[0] = 200;
    assert!(Pubkey::new(first) != owner());
}

#[test]
fn owner_differing_in_the_last_byte_is_a_stranger() {
    let mut bytes = [1u8; 32];
    bytes[31] = 2;
    let before = vault(100, 40, 60);
    assert_eq!(do_withdraw(before, Pubkey::new(bytes), 10), (before, Err(ErrorCode::InvalidOwner)));
}
