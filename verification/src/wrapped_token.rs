//! Mint/burn wrapper: the state of a contract that wraps an existing token 1:1.
//!
//! Users deposit the underlying asset and receive wrapped tokens 1:1 (`wrap`);
//! they redeem them back (`unwrap`) at any time. The admin can `mint` wrapped
//! tokens directly and any holder can `burn` their own.
//!
//! Each field of [`WrapperContract`] is one stored entry of the contract; `None`
//! is an entry that was never written. The movements of the underlying asset that
//! `wrap` and `unwrap` ask for come back as [`TokenTransfer`] values.
use vstd::prelude::*;

use crate::address::Address;
use crate::keyed_map::KeyedMap;
use crate::transfer::TokenTransfer;

verus! {

/// Why a call on the wrapper was refused.
#[derive(Clone, Copy, Debug, PartialEq, Eq, Structural)]
pub enum WrapError {
    /// `initialize` was already called.
    AlreadyInitialized,
    /// A setting that `initialize` writes is missing.
    NotInitialized,
    /// The amount is zero or negative.
    AmountNotPositive,
    /// The account holds fewer wrapped tokens than the amount.
    InsufficientBalance,
    /// The caller is not the stored admin.
    NotAdmin,
}

impl WrapError {
    /// The message with which the contract aborts for this error.
    pub fn message(&self) -> (r: &'static str)
        ensures
            r@ == match *self {
                WrapError::AlreadyInitialized => "already initialized"@,
                WrapError::NotInitialized => "not initialized"@,
                WrapError::AmountNotPositive => "amount must be positive"@,
                WrapError::InsufficientBalance => "insufficient wrapped token balance"@,
                WrapError::NotAdmin => "caller is not admin"@,
            },
    {
        match self {
            WrapError::AlreadyInitialized => "already initialized",
            WrapError::NotInitialized => "not initialized",
            WrapError::AmountNotPositive => "amount must be positive",
            WrapError::InsufficientBalance => "insufficient wrapped token balance",
            WrapError::NotAdmin => "caller is not admin",
        }
    }
}

/// The stored state of the wrapper contract.
pub struct WrapperContract {
    /// Admin address: set at initialization, never changes.
    pub admin: Option<Address>,
    /// The asset being wrapped.
    pub underlying: Option<Address>,
    /// Human-readable token name.
    pub name: Option<String>,
    /// Short ticker symbol.
    pub symbol: Option<String>,
    /// Decimal places.
    pub decimals: Option<u32>,
    /// Wrapped token balance per holder.
    pub balances: KeyedMap<Address, i128>,
    /// Total supply of wrapped tokens in circulation.
    pub total_supply: Option<i128>,
}

impl WrapperContract {
    /// The wrapped balance of the account whose view is `a` (0 when never written).
    pub open spec fn balance_of(&self, a: Seq<char>) -> int {
        if self.balances@.contains_key(a) {
            self.balances@[a] as int
        } else {
            0
        }
    }

    /// The total supply (0 when never written).
    pub open spec fn supply(&self) -> int {
        match self.total_supply {
            Some(t) => t as int,
            None => 0,
        }
    }

    /// The sum of all stored balances.
    pub open spec fn balances_total(&self) -> int {
        self.balances.total(|v: i128| v as int)
    }

    /// The supply accounts for every wrapped token: it equals the sum of the
    /// balances, and no balance is negative.
    pub open spec fn conserved(&self) -> bool {
        &&& self.balances.well_formed()
        &&& self.balances_total() == self.supply()
        &&& forall|a: Seq<char>| #[trigger] self.balances@.contains_key(a) ==> self.balances@[a] >= 0
    }

    /// What every state that the contract's calls reach from a fresh contract
    /// satisfies: supply conserved, and before initialization no underlying, no
    /// supply entry and no tokens.
    pub open spec fn consistent(&self) -> bool {
        &&& self.conserved()
        &&& self.admin is None ==> {
            &&& self.underlying is None
            &&& self.total_supply is None
            &&& forall|a: Seq<char>| #[trigger]
                self.balances@.contains_key(a) ==> self.balances@[a] == 0
        }
    }

    /// The stored admin is the address whose view is `a`.
    pub open spec fn is_admin(&self, a: Seq<char>) -> bool {
        match self.admin {
            Some(x) => x@ == a,
            None => false,
        }
    }

    /// The settings written at initialization are the same in both states.
    pub open spec fn same_settings(&self, other: &Self) -> bool {
        &&& self.admin == other.admin
        &&& self.underlying == other.underlying
        &&& self.name == other.name
        &&& self.symbol == other.symbol
        &&& self.decimals == other.decimals
    }

    /// `next` is `self` with `amount` wrapped tokens added to account `a` and to the supply.
    pub open spec fn credited(&self, next: &Self, a: Seq<char>, amount: int) -> bool {
        &&& next.balances@ == self.balances@.insert(a, (self.balance_of(a) + amount) as i128)
        &&& next.total_supply == Some((self.supply() + amount) as i128)
        &&& self.same_settings(next)
    }

    /// `next` is `self` with `amount` wrapped tokens taken from account `a` and from the supply.
    pub open spec fn debited(&self, next: &Self, a: Seq<char>, amount: int) -> bool {
        &&& next.balances@ == self.balances@.insert(a, (self.balance_of(a) - amount) as i128)
        &&& next.total_supply == Some((self.supply() - amount) as i128)
        &&& self.same_settings(next)
    }

    /// A contract with nothing stored.
    pub fn new() -> (w: Self)
        ensures
            w.admin is None,
            w.underlying is None,
            w.name is None,
            w.symbol is None,
            w.decimals is None,
            w.balances@ == Map::<Seq<char>, i128>::empty(),
            w.total_supply is None,
            w.consistent(),
    {
        WrapperContract {
            admin: None,
            underlying: None,
            name: None,
            symbol: None,
            decimals: None,
            balances: KeyedMap::new(),
            total_supply: None,
        }
    }

    /// Initializes the wrapper. Refused once an admin is stored.
    pub fn initialize(
        &mut self,
        admin: Address,
        underlying: Address,
        name: String,
        symbol: String,
        decimals: u32,
    ) -> (r: Result<(), WrapError>)
        ensures
            r == if old(self).admin is Some {
                Err::<(), WrapError>(WrapError::AlreadyInitialized)
            } else {
                Ok(())
            },
            r is Err ==> *final(self) == *old(self),
            r is Ok ==> {
                &&& final(self).admin == Some(admin)
                &&& final(self).underlying == Some(underlying)
                &&& final(self).name == Some(name)
                &&& final(self).symbol == Some(symbol)
                &&& final(self).decimals == Some(decimals)
                &&& final(self).total_supply == Some(0i128)
                &&& final(self).balances == old(self).balances
            },
            old(self).consistent() ==> final(self).consistent(),
    {
        if self.admin.is_some() {
            return Err(WrapError::AlreadyInitialized);
        }
        self.admin = Some(admin);
        self.underlying = Some(underlying);
        self.name = Some(name);
        self.symbol = Some(symbol);
        self.decimals = Some(decimals);
        self.total_supply = Some(0);
        Ok(())
    }

    /// Wraps `amount` of the underlying asset: credits `caller` with `amount`
    /// wrapped tokens and asks for the deposit of `amount` underlying tokens from
    /// `caller` to the contract. Returns the caller's new wrapped balance.
    pub fn wrap(&mut self, caller: Address, amount: i128) -> (r: Result<
        (i128, TokenTransfer),
        WrapError,
    >)
        requires
            amount > 0 && old(self).underlying is Some ==> {
                &&& old(self).balance_of(caller@) + amount <= i128::MAX
                &&& old(self).supply() + amount <= i128::MAX
            },
        ensures
            match r {
                Ok((bal, t)) => {
                    &&& amount > 0
                    &&& old(self).underlying is Some
                    &&& old(self).credited(&*final(self), caller@, amount as int)
                    &&& bal == final(self).balance_of(caller@)
                    &&& t == TokenTransfer::IntoContract {
                        token: old(self).underlying.unwrap(),
                        from: caller,
                        amount,
                    }
                },
                Err(e) => {
                    &&& *final(self) == *old(self)
                    &&& e == if amount <= 0 {
                        WrapError::AmountNotPositive
                    } else {
                        WrapError::NotInitialized
                    }
                    &&& (amount <= 0 || old(self).underlying is None)
                },
            },
            old(self).consistent() ==> final(self).consistent(),
    {
        if amount <= 0 {
            return Err(WrapError::AmountNotPositive);
        }
        let token = match &self.underlying {
            Some(u) => u.clone(),
            None => return Err(WrapError::NotInitialized),
        };
        self.credit(&caller, amount);
        let bal = self.balance(&caller);
        Ok((bal, TokenTransfer::IntoContract { token, from: caller, amount }))
    }

    /// Unwraps `amount`: takes `amount` wrapped tokens from `caller` and asks for
    /// the payment of `amount` underlying tokens from the contract to `caller`.
    /// Returns the caller's new wrapped balance.
    pub fn unwrap(&mut self, caller: Address, amount: i128) -> (r: Result<
        (i128, TokenTransfer),
        WrapError,
    >)
        requires
            amount > 0 && old(self).balance_of(caller@) >= amount && old(self).underlying is Some
                ==> old(self).supply() - amount >= i128::MIN,
        ensures
            match r {
                Ok((bal, t)) => {
                    &&& amount > 0
                    &&& old(self).balance_of(caller@) >= amount
                    &&& old(self).underlying is Some
                    &&& old(self).debited(&*final(self), caller@, amount as int)
                    &&& bal == final(self).balance_of(caller@)
                    &&& t == TokenTransfer::OutOfContract {
                        token: old(self).underlying.unwrap(),
                        to: caller,
                        amount,
                    }
                },
                Err(e) => {
                    &&& *final(self) == *old(self)
                    &&& e == if amount <= 0 {
                        WrapError::AmountNotPositive
                    } else if old(self).balance_of(caller@) < amount {
                        WrapError::InsufficientBalance
                    } else {
                        WrapError::NotInitialized
                    }
                    &&& (amount <= 0 || old(self).balance_of(caller@) < amount
                        || old(self).underlying is None)
                },
            },
            old(self).consistent() ==> final(self).consistent(),
    {
        if amount <= 0 {
            return Err(WrapError::AmountNotPositive);
        }
        if self.balance(&caller) < amount {
            return Err(WrapError::InsufficientBalance);
        }
        let token = match &self.underlying {
            Some(u) => u.clone(),
            None => return Err(WrapError::NotInitialized),
        };
        self.debit(&caller, amount);
        let bal = self.balance(&caller);
        Ok((bal, TokenTransfer::OutOfContract { token, to: caller, amount }))
    }

    /// Mints `amount` wrapped tokens to `recipient` without a deposit. Only the
    /// stored admin may mint.
    pub fn mint(&mut self, admin: Address, recipient: Address, amount: i128) -> (r: Result<
        (),
        WrapError,
    >)
        requires
            old(self).is_admin(admin@) && amount > 0 ==> {
                &&& old(self).balance_of(recipient@) + amount <= i128::MAX
                &&& old(self).supply() + amount <= i128::MAX
            },
        ensures
            match r {
                Ok(()) => {
                    &&& old(self).is_admin(admin@)
                    &&& amount > 0
                    &&& old(self).credited(&*final(self), recipient@, amount as int)
                },
                Err(e) => {
                    &&& *final(self) == *old(self)
                    &&& e == if old(self).admin is None {
                        WrapError::NotInitialized
                    } else if !old(self).is_admin(admin@) {
                        WrapError::NotAdmin
                    } else {
                        WrapError::AmountNotPositive
                    }
                    &&& (!old(self).is_admin(admin@) || amount <= 0)
                },
            },
            old(self).consistent() ==> final(self).consistent(),
    {
        self.require_admin(&admin)?;
        if amount <= 0 {
            return Err(WrapError::AmountNotPositive);
        }
        self.credit(&recipient, amount);
        Ok(())
    }

    /// Burns `amount` wrapped tokens held by `caller`; no underlying asset is returned.
    pub fn burn(&mut self, caller: Address, amount: i128) -> (r: Result<(), WrapError>)
        requires
            amount > 0 && old(self).balance_of(caller@) >= amount ==> old(self).supply() - amount
                >= i128::MIN,
        ensures
            match r {
                Ok(()) => {
                    &&& amount > 0
                    &&& old(self).balance_of(caller@) >= amount
                    &&& old(self).debited(&*final(self), caller@, amount as int)
                },
                Err(e) => {
                    &&& *final(self) == *old(self)
                    &&& e == if amount <= 0 {
                        WrapError::AmountNotPositive
                    } else {
                        WrapError::InsufficientBalance
                    }
                    &&& (amount <= 0 || old(self).balance_of(caller@) < amount)
                },
            },
            old(self).consistent() ==> final(self).consistent(),
    {
        if amount <= 0 {
            return Err(WrapError::AmountNotPositive);
        }
        if self.balance(&caller) < amount {
            return Err(WrapError::InsufficientBalance);
        }
        self.debit(&caller, amount);
        Ok(())
    }

    /// The wrapped balance of `account` (0 for unknown accounts).
    pub fn balance(&self, account: &Address) -> (r: i128)
        ensures
            r == self.balance_of(account@),
    {
        match self.balances.get(account) {
            Some(v) => *v,
            None => 0,
        }
    }

    /// The total supply of wrapped tokens in circulation (0 before initialization).
    pub fn total_supply(&self) -> (r: i128)
        ensures
            r == self.supply(),
    {
        match self.total_supply {
            Some(t) => t,
            None => 0,
        }
    }

    /// The token name set at initialization.
    pub fn name(&self) -> (r: Result<String, WrapError>)
        ensures
            match r {
                Ok(n) => self.name == Some(n),
                Err(e) => self.name is None && e == WrapError::NotInitialized,
            },
    {
        match &self.name {
            Some(n) => Ok(n.clone()),
            None => Err(WrapError::NotInitialized),
        }
    }

    /// The ticker symbol set at initialization.
    pub fn symbol(&self) -> (r: Result<String, WrapError>)
        ensures
            match r {
                Ok(s) => self.symbol == Some(s),
                Err(e) => self.symbol is None && e == WrapError::NotInitialized,
            },
    {
        match &self.symbol {
            Some(s) => Ok(s.clone()),
            None => Err(WrapError::NotInitialized),
        }
    }

    /// The decimal precision set at initialization.
    pub fn decimals(&self) -> (r: Result<u32, WrapError>)
        ensures
            match r {
                Ok(d) => self.decimals == Some(d),
                Err(e) => self.decimals is None && e == WrapError::NotInitialized,
            },
    {
        match self.decimals {
            Some(d) => Ok(d),
            None => Err(WrapError::NotInitialized),
        }
    }

    /// The address of the underlying asset being wrapped.
    pub fn underlying(&self) -> (r: Result<Address, WrapError>)
        ensures
            match r {
                Ok(u) => self.underlying == Some(u),
                Err(e) => self.underlying is None && e == WrapError::NotInitialized,
            },
    {
        match &self.underlying {
            Some(u) => Ok(u.clone()),
            None => Err(WrapError::NotInitialized),
        }
    }

    /// Adds `amount` to the balance of `account` and to the supply.
    fn credit(&mut self, account: &Address, amount: i128)
        requires
            amount > 0,
            old(self).balance_of(account@) + amount <= i128::MAX,
            old(self).supply() + amount <= i128::MAX,
        ensures
            old(self).credited(&*final(self), account@, amount as int),
            old(self).conserved() ==> final(self).conserved(),
    {
        let current = self.balance(account);
        self.balances.insert(account.clone(), current + amount);
        let supply = self.total_supply();
        self.total_supply = Some(supply + amount);
    }

    /// Takes `amount` from the balance of `account` and from the supply.
    fn debit(&mut self, account: &Address, amount: i128)
        requires
            amount > 0,
            old(self).balance_of(account@) >= amount,
            old(self).supply() - amount >= i128::MIN,
        ensures
            old(self).debited(&*final(self), account@, amount as int),
            old(self).conserved() ==> final(self).conserved(),
    {
        let current = self.balance(account);
        self.balances.insert(account.clone(), current - amount);
        let supply = self.total_supply();
        self.total_supply = Some(supply - amount);
    }

    /// Whether `caller` is the stored admin.
    fn require_admin(&self, caller: &Address) -> (r: Result<(), WrapError>)
        ensures
            match r {
                Ok(()) => self.is_admin(caller@),
                Err(e) => {
                    &&& !self.is_admin(caller@)
                    &&& e == if self.admin is None {
                        WrapError::NotInitialized
                    } else {
                        WrapError::NotAdmin
                    }
                },
            },
    {
        match &self.admin {
            None => Err(WrapError::NotInitialized),
            Some(a) => {
                if *a == *caller {
                    Ok(())
                } else {
                    Err(WrapError::NotAdmin)
                }
            },
        }
    }
}

/// Where the supply is conserved, no account holds more than the supply, and
/// no balance is negative.
pub proof fn lemma_balance_within_supply(w: &WrapperContract, a: Seq<char>)
    requires
        w.conserved(),
    ensures
        0 <= w.balance_of(a) <= w.supply(),
{
    w.balances.lemma_total_bounds(a, |v: i128| v as int);
}

/// Wrapping `amount` and then unwrapping the same `amount` for the same account
/// leaves every balance, the supply and the settings as they were.
pub proof fn law_wrap_unwrap_round_trip(
    w0: WrapperContract,
    w1: WrapperContract,
    w2: WrapperContract,
    a: Seq<char>,
    amount: int,
)
    requires
        w0.credited(&w1, a, amount),
        w1.debited(&w2, a, amount),
        i128::MIN <= w0.balance_of(a) + amount <= i128::MAX,
        i128::MIN <= w0.supply() + amount <= i128::MAX,
    ensures
        forall|k: Seq<char>| #[trigger] w2.balance_of(k) == w0.balance_of(k),
        w2.supply() == w0.supply(),
        w0.same_settings(&w2),
{
    assert(w1.balance_of(a) == w0.balance_of(a) + amount);
}

} // verus!
