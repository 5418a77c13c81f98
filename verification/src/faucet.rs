//! Token faucet: dispenses test tokens to users while enforcing a claim limit
//! and a cooldown period between two claims of the same user.
//!
//! Each field of [`FaucetContract`] is one stored entry of the contract; `None`
//! is an entry that was never written. The payment that a claim asks for comes
//! back as a [`TokenTransfer`].
use vstd::prelude::*;

use crate::address::Address;
use crate::keyed_map::KeyedMap;
use crate::transfer::TokenTransfer;

verus! {

/// Why a faucet call was refused.
#[derive(Clone, Copy, Debug, PartialEq, Eq, Structural)]
pub enum FaucetError {
    /// `initialize` was already called.
    AlreadyInitialized,
    /// A setting that `initialize` writes is missing.
    NotInitialized,
    /// The requested amount is above the claim limit.
    ClaimExceedsLimit,
    /// The user's previous claim is more recent than the cooldown period.
    CooldownNotExpired,
}

impl FaucetError {
    /// The message with which the contract aborts for this error.
    pub fn message(&self) -> (r: &'static str)
        ensures
            r@ == match *self {
                FaucetError::AlreadyInitialized => "already initialized"@,
                FaucetError::NotInitialized => "not initialized"@,
                FaucetError::ClaimExceedsLimit => "claim amount exceeds limit"@,
                FaucetError::CooldownNotExpired => "cooldown period has not expired"@,
            },
    {
        match self {
            FaucetError::AlreadyInitialized => "already initialized",
            FaucetError::NotInitialized => "not initialized",
            FaucetError::ClaimExceedsLimit => "claim amount exceeds limit",
            FaucetError::CooldownNotExpired => "cooldown period has not expired",
        }
    }
}

/// The stored state of the faucet contract.
pub struct FaucetContract {
    /// The administrator.
    pub admin: Option<Address>,
    /// The token that the faucet dispenses.
    pub token: Option<Address>,
    /// The largest amount a single claim may ask for.
    pub claim_limit: Option<i128>,
    /// Seconds that must pass between two claims of one user.
    pub cooldown: Option<u64>,
    /// Ledger time of each user's last successful claim.
    pub last_claim: KeyedMap<Address, u64>,
}

impl FaucetContract {
    /// The user whose view is `u` has a recorded claim, and the cooldown
    /// since it has not passed at time `now`. A user who never claimed is
    /// never held by the cooldown.
    pub open spec fn cooling_down(&self, u: Seq<char>, cd: u64, now: u64) -> bool {
        self.last_claim@.contains_key(u) && now < self.last_claim@[u] + cd
    }

    /// The error with which a claim of `amount` by user `u` at time `now` is
    /// refused, if it is.
    pub open spec fn claim_refusal(&self, u: Seq<char>, amount: i128, now: u64) -> Option<
        FaucetError,
    > {
        match self.claim_limit {
            None => Some(FaucetError::NotInitialized),
            Some(limit) => if amount > limit {
                Some(FaucetError::ClaimExceedsLimit)
            } else {
                match self.cooldown {
                    None => Some(FaucetError::NotInitialized),
                    Some(cd) => if self.cooling_down(u, cd, now) {
                        Some(FaucetError::CooldownNotExpired)
                    } else if self.token is None {
                        Some(FaucetError::NotInitialized)
                    } else {
                        None
                    },
                }
            },
        }
    }

    /// A faucet with nothing stored.
    pub fn new() -> (f: Self)
        ensures
            f.admin is None,
            f.token is None,
            f.claim_limit is None,
            f.cooldown is None,
            f.last_claim@ == Map::<Seq<char>, u64>::empty(),
    {
        FaucetContract {
            admin: None,
            token: None,
            claim_limit: None,
            cooldown: None,
            last_claim: KeyedMap::new(),
        }
    }

    /// Stores the faucet's settings. Refused once an admin is stored.
    pub fn initialize(
        &mut self,
        admin: Address,
        token: Address,
        claim_limit: i128,
        cooldown: u64,
    ) -> (r: Result<(), FaucetError>)
        ensures
            r == if old(self).admin is Some {
                Err::<(), FaucetError>(FaucetError::AlreadyInitialized)
            } else {
                Ok(())
            },
            r is Err ==> *final(self) == *old(self),
            r is Ok ==> {
                &&& final(self).admin == Some(admin)
                &&& final(self).token == Some(token)
                &&& final(self).claim_limit == Some(claim_limit)
                &&& final(self).cooldown == Some(cooldown)
                &&& final(self).last_claim == old(self).last_claim
            },
    {
        if self.admin.is_some() {
            return Err(FaucetError::AlreadyInitialized);
        }
        self.admin = Some(admin);
        self.token = Some(token);
        self.claim_limit = Some(claim_limit);
        self.cooldown = Some(cooldown);
        Ok(())
    }

    /// A claim of `amount` tokens by `user` at ledger time `now`. When granted,
    /// the faucet pays `amount` of its token to `user` and records `now` as the
    /// user's last claim.
    pub fn claim(&mut self, user: Address, amount: i128, now: u64) -> (r: Result<
        TokenTransfer,
        FaucetError,
    >)
        requires
            old(self).claim_limit matches Some(limit) && amount <= limit
                && old(self).cooldown is Some && old(self).last_claim@.contains_key(user@)
                ==> old(self).last_claim@[user@] + old(self).cooldown.unwrap() <= u64::MAX,
        ensures
            match r {
                Ok(t) => {
                    &&& old(self).claim_refusal(user@, amount, now) is None
                    &&& t == TokenTransfer::OutOfContract {
                        token: old(self).token.unwrap(),
                        to: user,
                        amount,
                    }
                    &&& final(self).last_claim@ == old(self).last_claim@.insert(user@, now)
                    &&& final(self).admin == old(self).admin
                    &&& final(self).token == old(self).token
                    &&& final(self).claim_limit == old(self).claim_limit
                    &&& final(self).cooldown == old(self).cooldown
                },
                Err(e) => {
                    &&& old(self).claim_refusal(user@, amount, now) == Some(e)
                    &&& *final(self) == *old(self)
                },
            },
    {
        let limit = match self.claim_limit {
            Some(l) => l,
            None => return Err(FaucetError::NotInitialized),
        };
        if amount > limit {
            return Err(FaucetError::ClaimExceedsLimit);
        }
        let cooldown = match self.cooldown {
            Some(c) => c,
            None => return Err(FaucetError::NotInitialized),
        };
        if let Some(last) = self.last_claim.get(&user) {
            if now < *last + cooldown {
                return Err(FaucetError::CooldownNotExpired);
            }
        }
        let token = match &self.token {
            Some(t) => t.clone(),
            None => return Err(FaucetError::NotInitialized),
        };
        self.last_claim.insert(user.clone(), now);
        Ok(TokenTransfer::OutOfContract { token, to: user, amount })
    }
}

/// After a granted claim at time `now`, the same user's next claim is refused
/// at any time before `now + cooldown`.
pub proof fn law_cooldown_between_claims(
    f0: FaucetContract,
    f1: FaucetContract,
    user: Seq<char>,
    amount: i128,
    now: u64,
    next_amount: i128,
    later: u64,
)
    requires
        f0.claim_refusal(user, amount, now) is None,
        f1.last_claim@ == f0.last_claim@.insert(user, now),
        f1.claim_limit == f0.claim_limit,
        f1.cooldown == f0.cooldown,
        later < now + f0.cooldown.unwrap(),
    ensures
        f1.claim_refusal(user, next_amount, later) is Some,
{
}

} // verus!
