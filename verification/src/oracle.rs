//! Price oracle: an admin registers signers, signers publish prices per asset,
//! and readers get a price only while it is fresh (no older than the heartbeat).
//!
//! Each field of [`OracleContract`] is one stored entry of the contract; `None`
//! is an entry that was never written.
use vstd::prelude::*;

use crate::address::{Address, copy_addresses, views_of};
use crate::keyed_map::KeyedMap;

verus! {

/// Maximum age (seconds) of a price before it is stale, when no other was set.
pub const DEFAULT_HEARTBEAT: u64 = 3600u64;

/// Why an oracle call was refused.
#[derive(Clone, Copy, Debug, PartialEq, Eq, Structural)]
pub enum OracleError {
    /// Admin has not been set; call `init` first.
    NotInitialized,
    /// `init` was already called.
    AlreadyInitialized,
    /// Caller is not authorized for this action.
    Unauthorized,
    /// No price has been stored for the requested asset.
    PriceNotFound,
    /// Stored price is older than the heartbeat window.
    StalePrice,
    /// Signer is already registered.
    SignerAlreadyExists,
    /// Signer is not in the authorized set.
    SignerNotFound,
}

impl OracleError {
    /// The contract error code of this error.
    pub fn code(&self) -> (r: u32)
        ensures
            r == match *self {
                OracleError::NotInitialized => 1u32,
                OracleError::AlreadyInitialized => 2u32,
                OracleError::Unauthorized => 3u32,
                OracleError::PriceNotFound => 4u32,
                OracleError::StalePrice => 5u32,
                OracleError::SignerAlreadyExists => 6u32,
                OracleError::SignerNotFound => 7u32,
            },
    {
        match self {
            OracleError::NotInitialized => 1,
            OracleError::AlreadyInitialized => 2,
            OracleError::Unauthorized => 3,
            OracleError::PriceNotFound => 4,
            OracleError::StalePrice => 5,
            OracleError::SignerAlreadyExists => 6,
            OracleError::SignerNotFound => 7,
        }
    }
}

/// Price snapshot for a single asset.
#[derive(Clone, Copy, Debug, PartialEq, Eq, Structural)]
pub struct PriceData {
    /// Price in the smallest quote unit (e.g. micro-USD).
    pub price: i128,
    /// Ledger timestamp when the price was last updated.
    pub timestamp: u64,
}

/// The stored state of the oracle contract.
pub struct OracleContract {
    /// The administrator.
    pub admin: Option<Address>,
    /// Maximum age (seconds) before a price is considered stale.
    pub heartbeat: Option<u64>,
    /// Authorized price-update signers, in order of registration.
    pub signers: Option<Vec<Address>>,
    /// Latest price per asset symbol (e.g. BTC, ETH).
    pub prices: KeyedMap<String, PriceData>,
}

/// The heartbeat that a requested value sets: 0 asks for the default.
pub open spec fn effective_heartbeat(requested: u64) -> u64 {
    if requested == 0 {
        DEFAULT_HEARTBEAT
    } else {
        requested
    }
}

/// The test that keeps every view other than `s`.
pub open spec fn other_than(s: Seq<char>) -> spec_fn(Seq<char>) -> bool {
    |x: Seq<char>| x != s
}

/// The age at time `now` of a price stamped `timestamp`, counted as 0 when
/// the stamp is in the future.
pub open spec fn price_age(timestamp: u64, now: u64) -> int {
    if now >= timestamp {
        now - timestamp
    } else {
        0
    }
}

impl OracleContract {
    /// The stored admin is the address whose view is `a`.
    pub open spec fn is_admin(&self, a: Seq<char>) -> bool {
        match self.admin {
            Some(x) => x@ == a,
            None => false,
        }
    }

    /// The error with which an admin-only call by `caller` is refused, if it is.
    pub open spec fn admin_refusal(&self, caller: Seq<char>) -> Option<OracleError> {
        if self.admin is None {
            Some(OracleError::NotInitialized)
        } else if !self.is_admin(caller) {
            Some(OracleError::Unauthorized)
        } else {
            None
        }
    }

    /// The registered signers, by view (empty when never written).
    pub open spec fn signer_views(&self) -> Seq<Seq<char>> {
        match self.signers {
            Some(v) => views_of(v@),
            None => Seq::empty(),
        }
    }

    /// The address whose view is `a` is a registered signer.
    pub open spec fn has_signer(&self, a: Seq<char>) -> bool {
        self.signer_views().contains(a)
    }

    /// The heartbeat in force.
    pub open spec fn heartbeat_in_force(&self) -> u64 {
        match self.heartbeat {
            Some(h) => h,
            None => DEFAULT_HEARTBEAT,
        }
    }

    /// A price stamped `timestamp` is fresh at time `now`: its age, counted as 0
    /// when the stamp is in the future, is at most the heartbeat.
    pub open spec fn fresh_at(&self, timestamp: u64, now: u64) -> bool {
        (if now >= timestamp {
            now - timestamp
        } else {
            0
        }) <= self.heartbeat_in_force()
    }

    /// The price stored for `asset`, if any.
    pub open spec fn price_entry(&self, asset: Seq<char>) -> Option<PriceData> {
        if self.prices@.contains_key(asset) {
            Some(self.prices@[asset])
        } else {
            None
        }
    }

    /// What `get_price(asset)` answers at time `now`.
    pub open spec fn price_answer(&self, asset: Seq<char>, now: u64) -> Result<PriceData, OracleError> {
        match self.price_entry(asset) {
            None => Err(OracleError::PriceNotFound),
            Some(d) => if self.fresh_at(d.timestamp, now) {
                Ok(d)
            } else {
                Err(OracleError::StalePrice)
            },
        }
    }

    /// A contract with nothing stored.
    pub fn new() -> (o: Self)
        ensures
            o.admin is None,
            o.heartbeat is None,
            o.signers is None,
            o.prices@ == Map::<Seq<char>, PriceData>::empty(),
    {
        OracleContract { admin: None, heartbeat: None, signers: None, prices: KeyedMap::new() }
    }

    /// One-time setup: sets the admin and the heartbeat window (0 asks for the
    /// default of one hour) and an empty signer list.
    pub fn init(&mut self, admin: Address, heartbeat: u64) -> (r: Result<(), OracleError>)
        ensures
            r == if old(self).admin is Some {
                Err::<(), OracleError>(OracleError::AlreadyInitialized)
            } else {
                Ok(())
            },
            r is Err ==> *final(self) == *old(self),
            r is Ok ==> {
                &&& final(self).admin == Some(admin)
                &&& final(self).heartbeat == Some(effective_heartbeat(heartbeat))
                &&& heartbeat != 0 ==> final(self).heartbeat == Some(heartbeat)
                &&& heartbeat == 0 ==> final(self).heartbeat == Some(3600u64)
                &&& final(self).signers matches Some(v) && v@.len() == 0
                &&& final(self).prices == old(self).prices
            },
    {
        if self.admin.is_some() {
            return Err(OracleError::AlreadyInitialized);
        }
        let hb = if heartbeat == 0 {
            DEFAULT_HEARTBEAT
        } else {
            heartbeat
        };
        self.admin = Some(admin);
        self.heartbeat = Some(hb);
        self.signers = Some(Vec::new());
        Ok(())
    }

    /// Admin-only: registers an address allowed to push price updates.
    pub fn add_signer(&mut self, admin: Address, signer: Address) -> (r: Result<(), OracleError>)
        ensures
            match r {
                Ok(()) => {
                    &&& old(self).admin_refusal(admin@) is None
                    &&& !old(self).has_signer(signer@)
                    &&& final(self).signer_views() == old(self).signer_views().push(signer@)
                    &&& old(self).signer_views().no_duplicates()
                        ==> final(self).signer_views().no_duplicates()
                    &&& final(self).signers is Some
                    &&& final(self).admin == old(self).admin
                    &&& final(self).heartbeat == old(self).heartbeat
                    &&& final(self).prices == old(self).prices
                },
                Err(e) => {
                    &&& *final(self) == *old(self)
                    &&& e == match old(self).admin_refusal(admin@) {
                        Some(refusal) => refusal,
                        None => OracleError::SignerAlreadyExists,
                    }
                    &&& (old(self).admin_refusal(admin@) is Some || old(self).has_signer(signer@))
                },
            },
    {
        self.require_admin(&admin)?;
        if self.is_signer(&signer) {
            return Err(OracleError::SignerAlreadyExists);
        }
        let mut signers = self.signer_list();
        let ghost before = views_of(signers@);
        let ghost sv = signer@;
        signers.push(signer);
        proof {
            assert(views_of(signers@) =~= before.push(sv));
            let after = before.push(sv);
            if before.no_duplicates() {
                assert forall|a: int, b: int|
                    0 <= a < after.len() && 0 <= b < after.len() && a != b implies after[a]
                    != after[b] by {
                    if a == before.len() {
                        assert(before[b] != sv);
                    } else if b == before.len() {
                        assert(before[a] != sv);
                    }
                }
            }
        }
        self.signers = Some(signers);
        Ok(())
    }

    /// Admin-only: revokes a signer's update rights.
    pub fn remove_signer(&mut self, admin: Address, signer: Address) -> (r: Result<
        (),
        OracleError,
    >)
        ensures
            match r {
                Ok(()) => {
                    &&& old(self).admin_refusal(admin@) is None
                    &&& old(self).has_signer(signer@)
                    &&& final(self).signer_views() == old(self).signer_views().filter(
                        other_than(signer@),
                    )
                    &&& !final(self).has_signer(signer@)
                    &&& old(self).signer_views().no_duplicates()
                        ==> final(self).signer_views().no_duplicates()
                    &&& final(self).signers is Some
                    &&& final(self).admin == old(self).admin
                    &&& final(self).heartbeat == old(self).heartbeat
                    &&& final(self).prices == old(self).prices
                },
                Err(e) => {
                    &&& *final(self) == *old(self)
                    &&& e == match old(self).admin_refusal(admin@) {
                        Some(refusal) => refusal,
                        None => OracleError::SignerNotFound,
                    }
                    &&& (old(self).admin_refusal(admin@) is Some || !old(self).has_signer(
                        signer@,
                    ))
                },
            },
    {
        self.require_admin(&admin)?;
        let signers = self.signer_list();
        let ghost all = views_of(signers@);
        let ghost sv = signer@;
        let ghost keep = other_than(sv);
        let mut updated: Vec<Address> = Vec::new();
        let mut found = false;
        let mut i: usize = 0;
        while i < signers.len()
            invariant
                0 <= i <= signers@.len(),
                all == views_of(signers@),
                sv == signer@,
                keep == other_than(sv),
                views_of(updated@) == all.take(i as int).filter(keep),
                found == all.take(i as int).contains(sv),
            decreases signers@.len() - i,
        {
            let ghost prefix = all.take(i as int);
            let ghost next = all.take(i as int + 1);
            proof {
                assert(all.take(i as int + 1).drop_last() =~= prefix);
                assert(all.take(i as int + 1).last() == signers@[i as int]@);
            }
            if signers[i] == signer {
                found = true;
                proof {
                    assert(next[i as int] == sv);
                    assert(!keep(next.last()));
                    reveal(Seq::filter);
                    assert(next.filter(keep) == prefix.filter(keep));
                }
            } else {
                let ghost before = views_of(updated@);
                updated.push(signers[i].clone());
                proof {
                    assert(views_of(updated@) =~= before.push(signers@[i as int]@));
                    assert(keep(next.last()));
                    reveal(Seq::filter);
                    assert(next.filter(keep) == prefix.filter(keep).push(signers@[i as int]@));
                    assert(found == all.take(i as int + 1).contains(sv)) by {
                        if prefix.contains(sv) {
                            let j = choose|j: int| 0 <= j < prefix.len() && prefix[j] == sv;
                            assert(all.take(i as int + 1)[j] == sv);
                        }
                    }
                }
            }
            proof {
                if found {
                    if prefix.contains(sv) {
                        let j = choose|j: int| 0 <= j < prefix.len() && prefix[j] == sv;
                        assert(all.take(i as int + 1)[j] == sv);
                    } else {
                        assert(all.take(i as int + 1)[i as int] == sv);
                    }
                }
            }
            i += 1;
        }
        proof {
            assert(all.take(signers@.len() as int) =~= all);
        }
        if !found {
            return Err(OracleError::SignerNotFound);
        }
        proof {
            broadcast use vstd::seq_lib::group_filter_ensures;
            let f = all.filter(keep);
            assert(!f.contains(sv)) by {
                if f.contains(sv) {
                    let j = choose|j: int| 0 <= j < f.len() && f[j] == sv;
                    assert(keep(f[j]));
                }
            }
        }
        proof {
            if all.no_duplicates() {
                lemma_filter_keeps_distinct(all, keep);
            }
        }
        self.signers = Some(updated);
        Ok(())
    }

    /// Admin-only: sets the freshness window (0 asks for the default).
    pub fn set_heartbeat(&mut self, admin: Address, heartbeat: u64) -> (r: Result<
        (),
        OracleError,
    >)
        ensures
            match r {
                Ok(()) => {
                    &&& old(self).admin_refusal(admin@) is None
                    &&& final(self).heartbeat == Some(effective_heartbeat(heartbeat))
                    &&& heartbeat != 0 ==> final(self).heartbeat == Some(heartbeat)
                    &&& heartbeat == 0 ==> final(self).heartbeat == Some(3600u64)
                    &&& final(self).admin == old(self).admin
                    &&& final(self).signers == old(self).signers
                    &&& final(self).prices == old(self).prices
                },
                Err(e) => {
                    &&& *final(self) == *old(self)
                    &&& old(self).admin_refusal(admin@) == Some(e)
                },
            },
    {
        self.require_admin(&admin)?;
        let hb = if heartbeat == 0 {
            DEFAULT_HEARTBEAT
        } else {
            heartbeat
        };
        self.heartbeat = Some(hb);
        Ok(())
    }

    /// A registered signer stores the price of `asset`, stamped with `now`.
    pub fn update_price(&mut self, signer: Address, asset: String, price: i128, now: u64) -> (r:
        Result<(), OracleError>)
        ensures
            match r {
                Ok(()) => {
                    &&& old(self).has_signer(signer@)
                    &&& final(self).prices@ == old(self).prices@.insert(
                        asset@,
                        PriceData { price, timestamp: now },
                    )
                    &&& final(self).admin == old(self).admin
                    &&& final(self).heartbeat == old(self).heartbeat
                    &&& final(self).signers == old(self).signers
                },
                Err(e) => {
                    &&& *final(self) == *old(self)
                    &&& !old(self).has_signer(signer@)
                    &&& e == OracleError::Unauthorized
                },
            },
    {
        if !self.is_signer(&signer) {
            return Err(OracleError::Unauthorized);
        }
        self.prices.insert(asset, PriceData { price, timestamp: now });
        Ok(())
    }

    /// The latest price of `asset`, refused when missing or stale at time `now`.
    pub fn get_price(&self, asset: &String, now: u64) -> (r: Result<PriceData, OracleError>)
        ensures
            r == self.price_answer(asset@, now),
            self.prices@.contains_key(asset@) && self.heartbeat is Some && price_age(
                self.prices@[asset@].timestamp,
                now,
            ) <= self.heartbeat.unwrap() ==> r == Ok::<PriceData, OracleError>(
                self.prices@[asset@],
            ),
    {
        match self.prices.get(asset) {
            None => Err(OracleError::PriceNotFound),
            Some(d) => {
                if self.fresh(d.timestamp, now) {
                    Ok(*d)
                } else {
                    Err(OracleError::StalePrice)
                }
            },
        }
    }

    /// The latest price of `asset`, without the freshness check.
    pub fn get_price_unsafe(&self, asset: &String) -> (r: Result<PriceData, OracleError>)
        ensures
            match self.price_entry(asset@) {
                Some(d) => r == Ok::<PriceData, OracleError>(d),
                None => r == Err::<PriceData, OracleError>(OracleError::PriceNotFound),
            },
    {
        match self.prices.get(asset) {
            None => Err(OracleError::PriceNotFound),
            Some(d) => Ok(*d),
        }
    }

    /// Whether a price of `asset` exists and is fresh at time `now`.
    pub fn is_fresh(&self, asset: &String, now: u64) -> (r: bool)
        ensures
            r == (self.price_answer(asset@, now) is Ok),
            self.prices@.contains_key(asset@) && self.heartbeat is Some && price_age(
                self.prices@[asset@].timestamp,
                now,
            ) <= self.heartbeat.unwrap() ==> r,
            !self.prices@.contains_key(asset@) ==> !r,
    {
        match self.prices.get(asset) {
            Some(d) => self.fresh(d.timestamp, now),
            None => false,
        }
    }

    /// The heartbeat window in seconds.
    pub fn get_heartbeat(&self) -> (r: u64)
        ensures
            r == self.heartbeat_in_force(),
            self.heartbeat matches Some(h) ==> r == h,
            self.heartbeat is None ==> r == 3600u64,
    {
        match self.heartbeat {
            Some(h) => h,
            None => DEFAULT_HEARTBEAT,
        }
    }

    /// The authorized signers, in order of registration.
    pub fn get_signers(&self) -> (r: Vec<Address>)
        ensures
            views_of(r@) == self.signer_views(),
            self.signers matches Some(v) ==> r@ == v@,
            self.signers is None ==> r@.len() == 0,
    {
        self.signer_list()
    }

    /// A copy of the stored signer list (empty when never written).
    fn signer_list(&self) -> (r: Vec<Address>)
        ensures
            views_of(r@) == self.signer_views(),
            self.signers matches Some(v) ==> r@ == v@,
            self.signers is None ==> r@.len() == 0,
    {
        match &self.signers {
            Some(v) => copy_addresses(v),
            None => {
                let r = Vec::new();
                proof {
                    assert(views_of(r@) =~= Seq::<Seq<char>>::empty());
                }
                r
            },
        }
    }

    /// Whether `a` is a registered signer.
    fn is_signer(&self, a: &Address) -> (r: bool)
        ensures
            r == self.has_signer(a@),
    {
        let signers = self.signer_list();
        let ghost all = views_of(signers@);
        let mut i: usize = 0;
        while i < signers.len()
            invariant
                0 <= i <= signers@.len(),
                all == views_of(signers@),
                all == self.signer_views(),
                forall|j: int| 0 <= j < i ==> all[j] != a@,
            decreases signers@.len() - i,
        {
            if signers[i] == *a {
                proof {
                    assert(all[i as int] == a@);
                }
                return true;
            }
            i += 1;
        }
        false
    }

    /// Whether `caller` is the stored admin.
    fn require_admin(&self, caller: &Address) -> (r: Result<(), OracleError>)
        ensures
            match r {
                Ok(()) => self.admin_refusal(caller@) is None,
                Err(e) => self.admin_refusal(caller@) == Some(e),
            },
    {
        match &self.admin {
            None => Err(OracleError::NotInitialized),
            Some(a) => {
                if *a == *caller {
                    Ok(())
                } else {
                    Err(OracleError::Unauthorized)
                }
            },
        }
    }

    /// Whether a price stamped `timestamp` is fresh at time `now`.
    fn fresh(&self, timestamp: u64, now: u64) -> (r: bool)
        ensures
            r == self.fresh_at(timestamp, now),
    {
        let heartbeat = self.get_heartbeat();
        now.saturating_sub(timestamp) <= heartbeat
    }
}

proof fn lemma_filter_keeps_distinct(s: Seq<Seq<char>>, p: spec_fn(Seq<char>) -> bool)
    requires
        s.no_duplicates(),
    ensures
        s.filter(p).no_duplicates(),
    decreases s.len(),
{
    reveal(Seq::filter);
    if s.len() > 0 {
        let rest = s.drop_last();
        lemma_filter_keeps_distinct(rest, p);
        if p(s.last()) {
            let f = rest.filter(p);
            if f.contains(s.last()) {
                rest.lemma_filter_contains_rev(p, s.last());
                let j = choose|j: int| 0 <= j < rest.len() && rest[j] == s.last();
                assert(s[j] == s[s.len() - 1]);
            }
            let g = f.push(s.last());
            assert forall|a: int, b: int|
                0 <= a < g.len() && 0 <= b < g.len() && a != b implies g[a] != g[b] by {
                if a == f.len() {
                    assert(f[b] != s.last());
                } else if b == f.len() {
                    assert(f[a] != s.last());
                }
            }
        }
    }
}

/// Once a signer is removed, that address is no signer, so its price updates are refused.
pub proof fn law_removed_signer_cannot_update(o0: OracleContract, o1: OracleContract, signer: Seq<char>)
    requires
        o1.signer_views() == o0.signer_views().filter(other_than(signer)),
    ensures
        !o1.has_signer(signer),
{
    broadcast use vstd::seq_lib::group_filter_ensures;

    let f = o1.signer_views();
    if f.contains(signer) {
        let j = choose|j: int| 0 <= j < f.len() && f[j] == signer;
        assert(other_than(signer)(f[j]));
    }
}

/// A price that a signer has just written is what the unchecked read returns,
/// and `get_price` returns it while its age is within the heartbeat.
pub proof fn law_written_price_is_read_back(
    o0: OracleContract,
    o1: OracleContract,
    asset: Seq<char>,
    price: i128,
    now: u64,
    later: u64,
)
    requires
        o1.prices@ == o0.prices@.insert(asset, PriceData { price, timestamp: now }),
        o1.heartbeat == o0.heartbeat,
        now <= later,
        later - now <= o1.heartbeat_in_force(),
    ensures
        o1.price_entry(asset) == Some(PriceData { price, timestamp: now }),
        o1.price_answer(asset, later) == Ok::<PriceData, OracleError>(
            PriceData { price, timestamp: now },
        ),
{
}

/// Only a requested heartbeat of 0 selects the default of one hour; any other
/// request is kept as it is.
pub proof fn law_requested_heartbeat_is_kept(requested: u64)
    ensures
        requested != 0 ==> effective_heartbeat(requested) == requested,
        requested == 0 ==> effective_heartbeat(requested) == 3600,
{
}

/// The heartbeat in force is the stored one whenever one is stored, one hour
/// otherwise; and a stored price whose age (0 for a future stamp) is at most
/// that heartbeat is fresh and is what `get_price` answers, while an older one
/// is stale.
pub proof fn law_freshness_follows_stored_heartbeat(o: OracleContract, asset: Seq<char>, now: u64)
    ensures
        o.heartbeat is Some ==> o.heartbeat_in_force() == o.heartbeat.unwrap(),
        o.heartbeat is None ==> o.heartbeat_in_force() == 3600,
        o.prices@.contains_key(asset) ==> {
            let d = o.prices@[asset];
            let age = price_age(d.timestamp, now);
            let limit: int = match o.heartbeat {
                Some(h) => h as int,
                None => 3600,
            };
            &&& age <= limit ==> o.price_answer(asset, now) == Ok::<PriceData, OracleError>(d)
            &&& age > limit ==> o.price_answer(asset, now) == Err::<PriceData, OracleError>(
                OracleError::StalePrice,
            )
        },
        !o.prices@.contains_key(asset) ==> o.price_answer(asset, now) == Err::<
            PriceData,
            OracleError,
        >(OracleError::PriceNotFound),
{
}

/// `get_price` succeeds exactly when `is_fresh` holds, and then returns the stored price.
pub proof fn law_get_price_agrees_with_is_fresh(o: OracleContract, asset: Seq<char>, now: u64)
    ensures
        (o.price_answer(asset, now) is Ok) <==> (o.price_entry(asset) matches Some(d)
            && o.fresh_at(d.timestamp, now)),
        o.price_answer(asset, now) matches Ok(d) ==> o.price_entry(asset) == Some(d),
{
}

} // verus!
