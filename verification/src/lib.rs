//! A per-owner collateral custody ledger.
//!
//! Each owner has one [`CollateralVault`] record that tracks how much value
//! sits in custody, how much of it is committed as collateral and how much
//! is free to withdraw. The owner deposits and withdraws; a delegated
//! trading authority moves value between the free and the committed part.
//! Every transition either commits in full or reports an [`ErrorCode`] and
//! leaves the record as it was.

pub mod error;
pub mod events;
pub mod instructions;
pub mod laws;
pub mod pubkey;
pub mod state;
pub mod transfer;

pub use error::ErrorCode;
pub use events::DepositEvent;
pub use instructions::{
    deposit, initialize_vault, lock_collateral, unlock_collateral, withdraw, Deposit,
    InitializeVault, LockCollateral, UnlockCollateral, Withdraw,
};
pub use pubkey::Pubkey;
pub use state::CollateralVault;
pub use transfer::{Transfer, TransferAuthority};
