//! Error definitions for the token vault.
use vstd::prelude::*;

verus! {

/// Error codes for the token vault.
#[derive(Clone, Copy, Debug, PartialEq, Eq, Structural)]
pub enum Error {
    /// Contract not initialized yet.
    NotInitialized,
    /// Contract already initialized.
    AlreadyInitialized,
    /// Invalid amount (must be > 0).
    InvalidAmount,
    /// Insufficient balance.
    InsufficientBalance,
    /// Insufficient allowance.
    InsufficientAllowance,
    /// Vault is paused.
    VaultPaused,
    /// Unauthorized access.
    Unauthorized,
    /// Token not found.
    TokenNotFound,
    /// Transfer failed.
    TransferFailed,
}

impl Error {
    /// The contract error code of this error.
    pub fn code(&self) -> (r: u32)
        ensures
            r == match *self {
                Error::NotInitialized => 1u32,
                Error::AlreadyInitialized => 2u32,
                Error::InvalidAmount => 3u32,
                Error::InsufficientBalance => 4u32,
                Error::InsufficientAllowance => 5u32,
                Error::VaultPaused => 6u32,
                Error::Unauthorized => 7u32,
                Error::TokenNotFound => 8u32,
                Error::TransferFailed => 9u32,
            },
    {
        match self {
            Error::NotInitialized => 1,
            Error::AlreadyInitialized => 2,
            Error::InvalidAmount => 3,
            Error::InsufficientBalance => 4,
            Error::InsufficientAllowance => 5,
            Error::VaultPaused => 6,
            Error::Unauthorized => 7,
            Error::TokenNotFound => 8,
            Error::TransferFailed => 9,
        }
    }
}

} // verus!
