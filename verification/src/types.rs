//! Type definitions for the token vault.
use vstd::prelude::*;

use crate::address::Address;

verus! {

/// Vault configuration.
#[derive(Debug, PartialEq, Eq)]
pub struct VaultConfig {
    /// Whether the vault is paused
    pub paused: bool,
    /// Admin address
    pub owner: Address,
    /// Token contract address
    pub token: Address,
}

impl VaultConfig {
    /// A copy of this configuration.
    pub fn duplicate(&self) -> (r: VaultConfig)
        ensures
            r == *self,
    {
        VaultConfig { paused: self.paused, owner: self.owner.clone(), token: self.token.clone() }
    }
}

/// User balance.
#[derive(Clone, Copy, Debug, PartialEq, Eq, Structural)]
pub struct Balance {
    /// Amount of tokens
    pub amount: i128,
    /// Last update timestamp
    pub last_updated: u64,
}

/// Allowance from owner to spender.
#[derive(Debug, PartialEq, Eq)]
pub struct Allowance {
    /// Amount allowed to spend
    pub amount: i128,
    /// Spender address
    pub spender: Address,
}

impl Allowance {
    /// A copy of this allowance.
    pub fn duplicate(&self) -> (r: Allowance)
        ensures
            r == *self,
    {
        Allowance { amount: self.amount, spender: self.spender.clone() }
    }
}

} // verus!
