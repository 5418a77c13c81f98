//! Storage of the token vault: the stored entries, read with their defaults,
//! and the events that the vault emits.
//!
//! Each field of [`Storage`] but `events` is one stored entry (`None` is an entry
//! never written); `events` holds the events emitted, oldest first.
use vstd::prelude::*;

use crate::address::Address;
use crate::errors::Error;
use crate::keyed_map::KeyedMap;
use crate::types::{Allowance, Balance, VaultConfig};

verus! {

/// An event that the vault emits.
#[derive(Debug, PartialEq, Eq)]
pub enum VaultEvent {
    /// `user` deposited `amount`.
    Deposit { user: Address, amount: i128 },
    /// `user` withdrew `amount`.
    Withdraw { user: Address, amount: i128 },
    /// `owner` allowed `spender` to spend `amount`.
    Approval { owner: Address, spender: Address, amount: i128 },
}

/// The parts of [`Storage`], to say which one a call changes.
pub enum Part {
    /// The initialized flag.
    Initialized,
    /// The admin address.
    Admin,
    /// The token address.
    Token,
    /// The configuration.
    Config,
    /// The paused flag.
    Paused,
    /// The balances.
    Balances,
    /// The allowances.
    Allowances,
    /// The total deposits.
    TotalDeposits,
    /// The event log.
    Events,
}

/// The stored entries of the vault and the events it emitted.
pub struct Storage {
    /// Vault initialized flag
    pub initialized: Option<bool>,
    /// Admin address
    pub admin: Option<Address>,
    /// Token address
    pub token: Option<Address>,
    /// Vault configuration
    pub config: Option<VaultConfig>,
    /// Vault paused flag
    pub paused: Option<bool>,
    /// Balance per user
    pub balances: KeyedMap<Address, Balance>,
    /// Allowance per (owner, spender)
    pub allowances: KeyedMap<(Address, Address), Allowance>,
    /// Total deposits
    pub total_deposits: Option<i128>,
    /// Events emitted, oldest first
    pub events: Vec<VaultEvent>,
}

impl Storage {
    /// Every part but `changed` is the same in `self` and `other`.
    pub open spec fn same_except(&self, other: &Self, changed: Part) -> bool {
        &&& (changed !is Initialized ==> self.initialized == other.initialized)
        &&& (changed !is Admin ==> self.admin == other.admin)
        &&& (changed !is Token ==> self.token == other.token)
        &&& (changed !is Config ==> self.config == other.config)
        &&& (changed !is Paused ==> self.paused == other.paused)
        &&& (changed !is Balances ==> self.balances == other.balances)
        &&& (changed !is Allowances ==> self.allowances == other.allowances)
        &&& (changed !is TotalDeposits ==> self.total_deposits == other.total_deposits)
        &&& (changed !is Events ==> self.events == other.events)
    }

    /// The balance that `get_balance` reads for user `u` at time `now`.
    pub open spec fn balance_read(&self, u: Seq<char>, now: u64) -> Balance {
        if self.balances@.contains_key(u) {
            self.balances@[u]
        } else {
            Balance { amount: 0, last_updated: now }
        }
    }

    /// The total deposits (0 when never written).
    pub open spec fn deposits(&self) -> int {
        match self.total_deposits {
            Some(t) => t as int,
            None => 0,
        }
    }

    /// Nothing stored and no event.
    pub fn new() -> (s: Self)
        ensures
            s.initialized is None,
            s.admin is None,
            s.token is None,
            s.config is None,
            s.paused is None,
            s.balances@ == Map::<Seq<char>, Balance>::empty(),
            s.allowances@ == Map::<(Seq<char>, Seq<char>), Allowance>::empty(),
            s.total_deposits is None,
            s.events@.len() == 0,
    {
        Storage {
            initialized: None,
            admin: None,
            token: None,
            config: None,
            paused: None,
            balances: KeyedMap::new(),
            allowances: KeyedMap::new(),
            total_deposits: None,
            events: Vec::new(),
        }
    }

    /// Whether the vault is initialized.
    pub fn is_initialized(&self) -> (r: bool)
        ensures
            r == self.initialized is Some,
    {
        self.initialized.is_some()
    }

    /// Marks the vault as initialized.
    pub fn set_initialized(&mut self)
        ensures
            final(self).initialized == Some(true),
            old(self).same_except(&*final(self), Part::Initialized),
    {
        self.initialized = Some(true);
    }

    /// The admin address, refused before it was set.
    pub fn get_admin(&self) -> (r: Result<Address, Error>)
        ensures
            match self.admin {
                Some(a) => r == Ok::<Address, Error>(a),
                None => r == Err::<Address, Error>(Error::NotInitialized),
            },
    {
        match &self.admin {
            Some(a) => Ok(a.clone()),
            None => Err(Error::NotInitialized),
        }
    }

    /// Sets the admin address.
    pub fn set_admin(&mut self, admin: &Address)
        ensures
            final(self).admin == Some(*admin),
            old(self).same_except(&*final(self), Part::Admin),
    {
        self.admin = Some(admin.clone());
    }

    /// The token address, refused before it was set.
    pub fn get_token(&self) -> (r: Result<Address, Error>)
        ensures
            match self.token {
                Some(t) => r == Ok::<Address, Error>(t),
                None => r == Err::<Address, Error>(Error::NotInitialized),
            },
    {
        match &self.token {
            Some(t) => Ok(t.clone()),
            None => Err(Error::NotInitialized),
        }
    }

    /// Sets the token address.
    pub fn set_token(&mut self, token: &Address)
        ensures
            final(self).token == Some(*token),
            old(self).same_except(&*final(self), Part::Token),
    {
        self.token = Some(token.clone());
    }

    /// The vault configuration, refused before it was set.
    pub fn get_config(&self) -> (r: Result<VaultConfig, Error>)
        ensures
            match self.config {
                Some(c) => r == Ok::<VaultConfig, Error>(c),
                None => r == Err::<VaultConfig, Error>(Error::NotInitialized),
            },
    {
        match &self.config {
            Some(c) => Ok(c.duplicate()),
            None => Err(Error::NotInitialized),
        }
    }

    /// Sets the vault configuration.
    pub fn set_config(&mut self, config: &VaultConfig)
        ensures
            final(self).config == Some(*config),
            old(self).same_except(&*final(self), Part::Config),
    {
        self.config = Some(config.duplicate());
    }

    /// Whether the vault is paused (false when never set).
    pub fn is_paused(&self) -> (r: bool)
        ensures
            r == (self.paused == Some(true)),
    {
        match self.paused {
            Some(p) => p,
            None => false,
        }
    }

    /// Pauses the vault.
    pub fn pause_vault(&mut self)
        ensures
            final(self).paused == Some(true),
            old(self).same_except(&*final(self), Part::Paused),
    {
        self.paused = Some(true);
    }

    /// Unpauses the vault.
    pub fn unpause_vault(&mut self)
        ensures
            final(self).paused == Some(false),
            old(self).same_except(&*final(self), Part::Paused),
    {
        self.paused = Some(false);
    }

    /// The balance of `user`; a user never written has amount 0, updated `now`.
    pub fn get_balance(&self, user: &Address, now: u64) -> (r: Balance)
        ensures
            r == self.balance_read(user@, now),
    {
        match self.balances.get(user) {
            Some(b) => *b,
            None => Balance { amount: 0, last_updated: now },
        }
    }

    /// Sets the balance of `user`.
    pub fn set_balance(&mut self, user: &Address, balance: &Balance)
        ensures
            final(self).balances@ == old(self).balances@.insert(user@, *balance),
            old(self).same_except(&*final(self), Part::Balances),
    {
        self.balances.insert(user.clone(), *balance);
    }

    /// The allowance from `owner` to `spender`; when never written, an amount of
    /// 0 for `spender`.
    pub fn get_allowance(&self, owner: &Address, spender: &Address) -> (r: Allowance)
        ensures
            self.allowances@.contains_key((owner@, spender@)) ==> r == self.allowances@[(
                owner@,
                spender@,
            )],
            !self.allowances@.contains_key((owner@, spender@)) ==> r == (Allowance {
                amount: 0,
                spender: *spender,
            }),
    {
        let key = (owner.clone(), spender.clone());
        match self.allowances.get(&key) {
            Some(a) => a.duplicate(),
            None => Allowance { amount: 0, spender: spender.clone() },
        }
    }

    /// Sets the allowance from `owner` to `spender`.
    pub fn set_allowance(&mut self, owner: &Address, spender: &Address, allowance: &Allowance)
        ensures
            final(self).allowances@ == old(self).allowances@.insert(
                (owner@, spender@),
                *allowance,
            ),
            old(self).same_except(&*final(self), Part::Allowances),
    {
        self.allowances.insert((owner.clone(), spender.clone()), allowance.duplicate());
    }

    /// The total deposits (0 when never written).
    pub fn get_total_deposits(&self) -> (r: i128)
        ensures
            r == self.deposits(),
    {
        match self.total_deposits {
            Some(t) => t,
            None => 0,
        }
    }

    /// Adds `amount` to the total deposits.
    pub fn add_to_total_deposits(&mut self, amount: i128)
        requires
            i128::MIN <= old(self).deposits() + amount <= i128::MAX,
        ensures
            final(self).total_deposits == Some((old(self).deposits() + amount) as i128),
            old(self).same_except(&*final(self), Part::TotalDeposits),
    {
        let current = self.get_total_deposits();
        self.total_deposits = Some(current + amount);
    }

    /// Emits a deposit event.
    pub fn emit_deposit_event(&mut self, user: &Address, amount: i128)
        ensures
            final(self).events@ == old(self).events@.push(
                VaultEvent::Deposit { user: *user, amount },
            ),
            old(self).same_except(&*final(self), Part::Events),
    {
        self.events.push(VaultEvent::Deposit { user: user.clone(), amount });
    }

    /// Emits a withdraw event.
    pub fn emit_withdraw_event(&mut self, user: &Address, amount: i128)
        ensures
            final(self).events@ == old(self).events@.push(
                VaultEvent::Withdraw { user: *user, amount },
            ),
            old(self).same_except(&*final(self), Part::Events),
    {
        self.events.push(VaultEvent::Withdraw { user: user.clone(), amount });
    }

    /// Emits an approval event.
    pub fn emit_approval_event(
        &mut self,
        owner: &Address,
        spender: &Address,
        amount: i128,
    )
        ensures
            final(self).events@ == old(self).events@.push(
                VaultEvent::Approval { owner: *owner, spender: *spender, amount },
            ),
            old(self).same_except(&*final(self), Part::Events),
    {
        self.events.push(
            VaultEvent::Approval { owner: owner.clone(), spender: spender.clone(), amount },
        );
    }
}

/// A balance written for a user is what `get_balance` reads back for that user,
/// at any time, and the balances of other users read as before.
pub proof fn law_balance_read_back(
    s0: Storage,
    s1: Storage,
    user: Seq<char>,
    b: Balance,
    other: Seq<char>,
    now: u64,
)
    requires
        s1.balances@ == s0.balances@.insert(user, b),
        other != user,
    ensures
        s1.balance_read(user, now) == b,
        s1.balance_read(other, now) == s0.balance_read(other, now),
{
}

} // verus!
