use vstd::prelude::*;

use crate::address::Address;

verus! {

/// A movement of an outside token that a contract asks for: the token
/// contract named by `token` moves `amount` between the contract itself and
/// an account.
#[derive(Debug, PartialEq, Eq)]
pub enum TokenTransfer {
    /// `from` pays `amount` of `token` to the contract.
    IntoContract { token: Address, from: Address, amount: i128 },
    /// The contract pays `amount` of `token` to `to`.
    OutOfContract { token: Address, to: Address, amount: i128 },
}

} // verus!
