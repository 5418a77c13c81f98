//! Community content moderation:
//! - Flagging: any user can flag content
//! - Moderator review: designated moderators confirm or reject flags
//! - Appeal: content owners can appeal a confirmed decision
//! - Audit log: every successful action is recorded as an event
//!
//! Each field of [`ModerationStore`] but `events` is one stored entry of the
//! contract (`None` is an entry never written); `events` holds the events that
//! the actions emitted, oldest first.
use vstd::prelude::*;

use crate::address::Address;
use crate::keyed_map::KeyedMap;

verus! {

/// Reason a piece of content was flagged.
#[derive(Clone, Copy, Debug, PartialEq, Eq, Structural)]
pub enum FlagReason {
    /// Content is spam or unsolicited
    Spam,
    /// Content is abusive or harassing
    Abusive,
    /// Content violates platform rules
    PolicyViolation,
    /// Other reason (described in flag notes)
    Other,
}

/// Current state of a content flag.
#[derive(Clone, Copy, Debug, PartialEq, Eq, Structural)]
pub enum FlagStatus {
    /// Flag submitted, awaiting moderator review
    Pending,
    /// Moderator confirmed: content removed/restricted
    Confirmed,
    /// Moderator rejected: content restored/cleared
    Rejected,
    /// Content owner appealed a Confirmed decision
    Appealed,
    /// Appeal reviewed: original decision upheld
    AppealDenied,
    /// Appeal reviewed: decision reversed, content restored
    AppealGranted,
}

/// A flag submitted against a piece of content.
#[derive(Debug, PartialEq, Eq)]
pub struct ContentFlag {
    /// Unique identifier for this flag
    pub flag_id: u64,
    /// ID of the flagged content (off-chain reference)
    pub content_id: String,
    /// Address that submitted the flag
    pub flagged_by: Address,
    /// Reason for flagging
    pub reason: FlagReason,
    /// Optional notes from the flagger
    pub notes: Option<String>,
    /// Current status of this flag
    pub status: FlagStatus,
    /// Ledger when flag was submitted
    pub submitted_ledger: u32,
    /// Moderator who reviewed (None if still Pending)
    pub reviewed_by: Option<Address>,
    /// Ledger when reviewed (None if still Pending)
    pub reviewed_ledger: Option<u32>,
    /// Appeal notes from content owner (None if not appealed)
    pub appeal_notes: Option<String>,
}

fn copy_text(s: &Option<String>) -> (r: Option<String>)
    ensures
        r == *s,
{
    match s {
        Some(t) => Some(t.clone()),
        None => None,
    }
}

impl ContentFlag {
    /// A copy of this flag.
    pub fn duplicate(&self) -> (r: ContentFlag)
        ensures
            r == *self,
    {
        ContentFlag {
            flag_id: self.flag_id,
            content_id: self.content_id.clone(),
            flagged_by: self.flagged_by.clone(),
            reason: self.reason,
            notes: copy_text(&self.notes),
            status: self.status,
            submitted_ledger: self.submitted_ledger,
            reviewed_by: match &self.reviewed_by {
                Some(a) => Some(a.clone()),
                None => None,
            },
            reviewed_ledger: self.reviewed_ledger,
            appeal_notes: copy_text(&self.appeal_notes),
        }
    }
}

/// Why a moderation action was refused.
#[derive(Clone, Copy, Debug, PartialEq, Eq, Structural)]
pub enum ModerationError {
    /// Caller is not an authorized moderator
    NotModerator,
    /// Caller is not the contract admin
    NotAdmin,
    /// Flag not found
    FlagNotFound,
    /// Flag is not in Pending status (cannot review)
    FlagNotPending,
    /// Flag is not in Confirmed status (cannot appeal)
    FlagNotConfirmed,
    /// Flag is not in Appealed status (cannot resolve appeal)
    FlagNotAppealed,
    /// Caller is not the content owner (cannot appeal)
    NotContentOwner,
    /// Content ID is empty
    EmptyContentId,
}

impl ModerationError {
    /// The contract error code with which the contract aborts for this error.
    pub fn code(&self) -> (r: u32)
        ensures
            r == match *self {
                ModerationError::NotModerator => 1u32,
                ModerationError::NotAdmin => 2u32,
                ModerationError::FlagNotFound => 3u32,
                ModerationError::FlagNotPending => 4u32,
                ModerationError::FlagNotConfirmed => 5u32,
                ModerationError::FlagNotAppealed => 6u32,
                ModerationError::NotContentOwner => 7u32,
                ModerationError::EmptyContentId => 8u32,
            },
    {
        match self {
            ModerationError::NotModerator => 1,
            ModerationError::NotAdmin => 2,
            ModerationError::FlagNotFound => 3,
            ModerationError::FlagNotPending => 4,
            ModerationError::FlagNotConfirmed => 5,
            ModerationError::FlagNotAppealed => 6,
            ModerationError::NotContentOwner => 7,
            ModerationError::EmptyContentId => 8,
        }
    }
}

/// An entry of the audit log.
#[derive(Debug, PartialEq, Eq)]
pub enum ModerationEvent {
    /// `by` made `moderator` a moderator.
    ModeratorAdded { moderator: Address, by: Address },
    /// `by` revoked the moderator rights of `moderator`.
    ModeratorRemoved { moderator: Address, by: Address },
    /// `by` flagged `content_id` for `reason`; the flag got `flag_id`.
    Flagged { flag_id: u64, by: Address, content_id: String, reason: FlagReason },
    /// `moderator` confirmed (or rejected) flag `flag_id` at ledger `ledger`.
    Reviewed { flag_id: u64, moderator: Address, confirmed: bool, ledger: u32 },
    /// `by` appealed flag `flag_id`.
    Appealed { flag_id: u64, by: Address, appeal_notes: String },
    /// `moderator` granted (or denied) the appeal of flag `flag_id`.
    AppealResolved { flag_id: u64, moderator: Address, granted: bool },
}

/// The stored state of the moderation contract and its audit log.
pub struct ModerationStore {
    /// Admin address (can add/remove moderators)
    pub admin: Option<Address>,
    /// Total flag count (used as next flag ID)
    pub flag_count: Option<u64>,
    /// Flags by ID
    pub flags: KeyedMap<u64, ContentFlag>,
    /// Whether an address is a moderator
    pub moderators: KeyedMap<Address, bool>,
    /// Events emitted, oldest first
    pub events: Vec<ModerationEvent>,
}

/// A flag may go from status `from` to status `to`: it stays, or it takes one of
/// the steps Pending to Confirmed or Rejected, Confirmed to Appealed, and
/// Appealed to AppealGranted or AppealDenied.
pub open spec fn status_step(from: FlagStatus, to: FlagStatus) -> bool {
    ||| from == to
    ||| from == FlagStatus::Pending && (to == FlagStatus::Confirmed || to == FlagStatus::Rejected)
    ||| from == FlagStatus::Confirmed && to == FlagStatus::Appealed
    ||| from == FlagStatus::Appealed && (to == FlagStatus::AppealGranted || to
        == FlagStatus::AppealDenied)
}

/// `b` is the same submission as `a`: every field set when the flag was submitted agrees.
pub open spec fn same_submission(a: ContentFlag, b: ContentFlag) -> bool {
    &&& a.flag_id == b.flag_id
    &&& a.content_id == b.content_id
    &&& a.flagged_by == b.flagged_by
    &&& a.reason == b.reason
    &&& a.notes == b.notes
    &&& a.submitted_ledger == b.submitted_ledger
}

/// The review and appeal fields of a flag agree with its status: the moderator
/// and the ledger of the decision are set exactly when the status is not
/// Pending, and the appeal notes exactly when the flag went to appeal.
pub open spec fn record_matches_status(f: ContentFlag) -> bool {
    &&& (f.reviewed_by is None) == (f.status == FlagStatus::Pending)
    &&& (f.reviewed_ledger is None) == (f.status == FlagStatus::Pending)
    &&& (f.appeal_notes is Some) == (f.status == FlagStatus::Appealed || f.status
        == FlagStatus::AppealDenied || f.status == FlagStatus::AppealGranted)
}

impl ModerationStore {
    /// The stored admin is the address whose view is `a`.
    pub open spec fn is_admin(&self, a: Seq<char>) -> bool {
        match self.admin {
            Some(x) => x@ == a,
            None => false,
        }
    }

    /// The address whose view is `a` is a moderator.
    pub open spec fn is_mod(&self, a: Seq<char>) -> bool {
        self.moderators@.contains_key(a) && self.moderators@[a]
    }

    /// The flag count (0 when never written).
    pub open spec fn count(&self) -> int {
        match self.flag_count {
            Some(c) => c as int,
            None => 0,
        }
    }

    /// Every stored flag sits under its own ID, and no ID is above the count.
    pub open spec fn ids_issued(&self) -> bool {
        forall|id: u64| #[trigger]
            self.flags@.contains_key(id) ==> id <= self.count() && self.flags@[id].flag_id == id
    }

    /// Every stored flag's review and appeal record follows its status.
    pub open spec fn records_match(&self) -> bool {
        forall|id: u64| #[trigger]
            self.flags@.contains_key(id) ==> record_matches_status(self.flags@[id])
    }

    /// The flag count is the number of flags stored, each under its own ID.
    pub open spec fn counted(&self) -> bool {
        &&& self.ids_issued()
        &&& self.flags@.dom().finite()
        &&& self.flags@.dom().len() == self.count()
    }

    /// Every flag of `self` is still in `next`, as the same submission, and its
    /// status took at most one allowed step.
    pub open spec fn flags_progress(&self, next: &Self) -> bool {
        forall|id: u64| #[trigger]
            self.flags@.contains_key(id) ==> {
                &&& next.flags@.contains_key(id)
                &&& same_submission(self.flags@[id], next.flags@[id])
                &&& status_step(self.flags@[id].status, next.flags@[id].status)
            }
    }

    /// The error with which an admin-only action by `caller` is refused, if it is.
    pub open spec fn admin_refusal(&self, caller: Seq<char>) -> Option<ModerationError> {
        if self.is_admin(caller) {
            None
        } else {
            Some(ModerationError::NotAdmin)
        }
    }

    /// The error with which flag `id` is refused to a moderator action by `m`
    /// that needs the flag in status `needed`, if it is.
    pub open spec fn moderator_refusal(
        &self,
        m: Seq<char>,
        id: u64,
        needed: FlagStatus,
        wrong_status: ModerationError,
    ) -> Option<ModerationError> {
        if !self.is_mod(m) {
            Some(ModerationError::NotModerator)
        } else if !self.flags@.contains_key(id) {
            Some(ModerationError::FlagNotFound)
        } else if self.flags@[id].status != needed {
            Some(wrong_status)
        } else {
            None
        }
    }

    /// The error with which an appeal of flag `id` is refused, if it is.
    pub open spec fn appeal_refusal(&self, id: u64) -> Option<ModerationError> {
        if !self.flags@.contains_key(id) {
            Some(ModerationError::FlagNotFound)
        } else if self.flags@[id].status != FlagStatus::Confirmed {
            Some(ModerationError::FlagNotConfirmed)
        } else {
            None
        }
    }

    /// An empty store.
    pub fn new() -> (s: Self)
        ensures
            s.admin is None,
            s.flag_count is None,
            s.flags@ == Map::<u64, ContentFlag>::empty(),
            s.moderators@ == Map::<Seq<char>, bool>::empty(),
            s.events@.len() == 0,
            s.ids_issued(),
            s.records_match(),
            s.counted(),
    {
        ModerationStore {
            admin: None,
            flag_count: None,
            flags: KeyedMap::new(),
            moderators: KeyedMap::new(),
            events: Vec::new(),
        }
    }
}

/// Initializes the moderation contract with an admin and a flag count of 0.
pub fn initialize_moderation(store: &mut ModerationStore, admin: Address)
    ensures
        final(store).admin == Some(admin),
        final(store).flag_count == Some(0u64),
        final(store).flags == old(store).flags,
        final(store).moderators == old(store).moderators,
        final(store).events == old(store).events,
        old(store).flags_progress(&*final(store)),
        old(store).flags@ == Map::<u64, ContentFlag>::empty() ==> final(store).ids_issued(),
        old(store).flags@ == Map::<u64, ContentFlag>::empty() ==> final(store).counted(),
        old(store).records_match() ==> final(store).records_match(),
{
    store.admin = Some(admin);
    store.flag_count = Some(0);
}

/// Makes `moderator` a moderator. Admin only.
pub fn add_moderator(store: &mut ModerationStore, caller: Address, moderator: Address) -> (r:
    Result<(), ModerationError>)
    ensures
        match r {
            Ok(()) => {
                &&& old(store).is_admin(caller@)
                &&& final(store).moderators@ == old(store).moderators@.insert(moderator@, true)
                &&& final(store).events@ == old(store).events@.push(
                    ModerationEvent::ModeratorAdded { moderator, by: caller },
                )
                &&& final(store).admin == old(store).admin
                &&& final(store).flag_count == old(store).flag_count
                &&& final(store).flags == old(store).flags
            },
            Err(e) => {
                &&& old(store).admin_refusal(caller@) == Some(e)
                &&& *final(store) == *old(store)
            },
        },
        old(store).flags_progress(&*final(store)),
        old(store).ids_issued() ==> final(store).ids_issued(),
        old(store).counted() ==> final(store).counted(),
        old(store).records_match() ==> final(store).records_match(),
{
    check_admin(store, &caller)?;
    store.moderators.insert(moderator.clone(), true);
    store.events.push(ModerationEvent::ModeratorAdded { moderator, by: caller });
    Ok(())
}

/// Revokes the moderator rights of `moderator`. Admin only.
pub fn remove_moderator(store: &mut ModerationStore, caller: Address, moderator: Address) -> (r:
    Result<(), ModerationError>)
    ensures
        match r {
            Ok(()) => {
                &&& old(store).is_admin(caller@)
                &&& final(store).moderators@ == old(store).moderators@.remove(moderator@)
                &&& final(store).events@ == old(store).events@.push(
                    ModerationEvent::ModeratorRemoved { moderator, by: caller },
                )
                &&& final(store).admin == old(store).admin
                &&& final(store).flag_count == old(store).flag_count
                &&& final(store).flags == old(store).flags
            },
            Err(e) => {
                &&& old(store).admin_refusal(caller@) == Some(e)
                &&& *final(store) == *old(store)
            },
        },
        old(store).flags_progress(&*final(store)),
        old(store).ids_issued() ==> final(store).ids_issued(),
        old(store).counted() ==> final(store).counted(),
        old(store).records_match() ==> final(store).records_match(),
{
    check_admin(store, &caller)?;
    store.moderators.remove(&moderator);
    store.events.push(ModerationEvent::ModeratorRemoved { moderator, by: caller });
    Ok(())
}

/// Flags `content_id` for `reason`, at ledger `ledger`. Any user can flag.
/// Returns the new flag's ID, which is the previous count plus one.
pub fn flag_content(
    store: &mut ModerationStore,
    caller: Address,
    content_id: String,
    reason: FlagReason,
    notes: Option<String>,
    ledger: u32,
) -> (r: Result<u64, ModerationError>)
    requires
        content_id@.len() > 0 ==> old(store).count() < u64::MAX,
    ensures
        match r {
            Ok(id) => {
                &&& content_id@.len() > 0
                &&& id == old(store).count() + 1
                &&& final(store).flag_count == Some(id)
                &&& final(store).flags@ == old(store).flags@.insert(
                    id,
                    ContentFlag {
                        flag_id: id,
                        content_id,
                        flagged_by: caller,
                        reason,
                        notes,
                        status: FlagStatus::Pending,
                        submitted_ledger: ledger,
                        reviewed_by: None,
                        reviewed_ledger: None,
                        appeal_notes: None,
                    },
                )
                &&& final(store).events@ == old(store).events@.push(
                    ModerationEvent::Flagged { flag_id: id, by: caller, content_id, reason },
                )
                &&& final(store).admin == old(store).admin
                &&& final(store).moderators == old(store).moderators
            },
            Err(e) => {
                &&& content_id@.len() == 0
                &&& e == ModerationError::EmptyContentId
                &&& *final(store) == *old(store)
            },
        },
        old(store).ids_issued() ==> old(store).flags_progress(&*final(store)),
        old(store).ids_issued() ==> final(store).ids_issued(),
        old(store).counted() ==> final(store).counted(),
        old(store).records_match() ==> final(store).records_match(),
{
    if content_id.as_str().is_empty() {
        return Err(ModerationError::EmptyContentId);
    }
    let count = get_flag_count(store);
    let next_id = count + 1;
    let flag = ContentFlag {
        flag_id: next_id,
        content_id: content_id.clone(),
        flagged_by: caller.clone(),
        reason,
        notes,
        status: FlagStatus::Pending,
        submitted_ledger: ledger,
        reviewed_by: None,
        reviewed_ledger: None,
        appeal_notes: None,
    };
    store.flags.insert(next_id, flag);
    store.flag_count = Some(next_id);
    store.events.push(
        ModerationEvent::Flagged { flag_id: next_id, by: caller, content_id, reason },
    );
    proof {
        let o = old(store);
        let n = &*store;
        if o.ids_issued() {
            assert forall|id: u64| #[trigger] n.flags@.contains_key(id) implies id <= n.count()
                && n.flags@[id].flag_id == id by {
                if id != next_id {
                    assert(o.flags@.contains_key(id));
                }
            }
            assert forall|id: u64| #[trigger] o.flags@.contains_key(id) implies {
                &&& n.flags@.contains_key(id)
                &&& same_submission(o.flags@[id], n.flags@[id])
                &&& status_step(o.flags@[id].status, n.flags@[id].status)
            } by {
                assert(id != next_id);
            }
        }
    }
    Ok(next_id)
}

/// A moderator reviews a pending flag at ledger `ledger`: `action` true confirms
/// it (content removed), false rejects it (content restored).
pub fn review_flag(
    store: &mut ModerationStore,
    moderator: Address,
    flag_id: u64,
    action: bool,
    ledger: u32,
) -> (r: Result<(), ModerationError>)
    ensures
        match r {
            Ok(()) => {
                &&& old(store).moderator_refusal(
                    moderator@,
                    flag_id,
                    FlagStatus::Pending,
                    ModerationError::FlagNotPending,
                ) is None
                &&& final(store).flags@ == old(store).flags@.insert(
                    flag_id,
                    ContentFlag {
                        status: if action {
                            FlagStatus::Confirmed
                        } else {
                            FlagStatus::Rejected
                        },
                        reviewed_by: Some(moderator),
                        reviewed_ledger: Some(ledger),
                        ..old(store).flags@[flag_id]
                    },
                )
                &&& final(store).events@ == old(store).events@.push(
                    ModerationEvent::Reviewed { flag_id, moderator, confirmed: action, ledger },
                )
                &&& final(store).admin == old(store).admin
                &&& final(store).flag_count == old(store).flag_count
                &&& final(store).moderators == old(store).moderators
            },
            Err(e) => {
                &&& old(store).moderator_refusal(
                    moderator@,
                    flag_id,
                    FlagStatus::Pending,
                    ModerationError::FlagNotPending,
                ) == Some(e)
                &&& *final(store) == *old(store)
            },
        },
        old(store).is_mod(moderator@) && old(store).flags@.contains_key(flag_id) && old(
            store,
        ).flags@[flag_id].status == FlagStatus::Pending ==> r is Ok,
        r is Ok ==> old(store).is_mod(moderator@) && old(store).flags@.contains_key(flag_id) && old(
            store,
        ).flags@[flag_id].status == FlagStatus::Pending,
        old(store).flags_progress(&*final(store)),
        old(store).ids_issued() ==> final(store).ids_issued(),
        old(store).counted() ==> final(store).counted(),
        old(store).records_match() ==> final(store).records_match(),
{
    let mut flag = moderated_flag(
        store,
        &moderator,
        flag_id,
        FlagStatus::Pending,
        ModerationError::FlagNotPending,
    )?;
    flag.status = if action {
        FlagStatus::Confirmed
    } else {
        FlagStatus::Rejected
    };
    flag.reviewed_by = Some(moderator.clone());
    flag.reviewed_ledger = Some(ledger);
    store.flags.insert(flag_id, flag);
    store.events.push(ModerationEvent::Reviewed { flag_id, moderator, confirmed: action, ledger });
    proof {
        lemma_one_flag_step(*old(store), *store, flag_id);
    }
    Ok(())
}

/// The content owner appeals a confirmed flag.
pub fn appeal_flag(
    store: &mut ModerationStore,
    caller: Address,
    flag_id: u64,
    appeal_notes: String,
) -> (r: Result<(), ModerationError>)
    ensures
        match r {
            Ok(()) => {
                &&& old(store).appeal_refusal(flag_id) is None
                &&& final(store).flags@ == old(store).flags@.insert(
                    flag_id,
                    ContentFlag {
                        status: FlagStatus::Appealed,
                        appeal_notes: Some(appeal_notes),
                        ..old(store).flags@[flag_id]
                    },
                )
                &&& final(store).events@ == old(store).events@.push(
                    ModerationEvent::Appealed { flag_id, by: caller, appeal_notes },
                )
                &&& final(store).admin == old(store).admin
                &&& final(store).flag_count == old(store).flag_count
                &&& final(store).moderators == old(store).moderators
            },
            Err(e) => {
                &&& old(store).appeal_refusal(flag_id) == Some(e)
                &&& *final(store) == *old(store)
            },
        },
        r is Ok <==> old(store).flags@.contains_key(flag_id) && old(store).flags@[flag_id].status
            == FlagStatus::Confirmed,
        old(store).flags@.contains_key(flag_id) && old(store).flags@[flag_id].status
            != FlagStatus::Confirmed ==> r == Err::<(), ModerationError>(
            ModerationError::FlagNotConfirmed,
        ),
        old(store).flags_progress(&*final(store)),
        old(store).ids_issued() ==> final(store).ids_issued(),
        old(store).counted() ==> final(store).counted(),
        old(store).records_match() ==> final(store).records_match(),
{
    let mut flag = match store.flags.get(&flag_id) {
        Some(f) => f.duplicate(),
        None => return Err(ModerationError::FlagNotFound),
    };
    if flag.status != FlagStatus::Confirmed {
        return Err(ModerationError::FlagNotConfirmed);
    }
    flag.status = FlagStatus::Appealed;
    flag.appeal_notes = Some(appeal_notes.clone());
    store.flags.insert(flag_id, flag);
    store.events.push(ModerationEvent::Appealed { flag_id, by: caller, appeal_notes });
    proof {
        lemma_one_flag_step(*old(store), *store, flag_id);
    }
    Ok(())
}

/// A moderator resolves an appeal at ledger `ledger`: `grant` true reverses the
/// decision (content restored), false upholds it.
pub fn resolve_appeal(
    store: &mut ModerationStore,
    moderator: Address,
    flag_id: u64,
    grant: bool,
    ledger: u32,
) -> (r: Result<(), ModerationError>)
    ensures
        match r {
            Ok(()) => {
                &&& old(store).moderator_refusal(
                    moderator@,
                    flag_id,
                    FlagStatus::Appealed,
                    ModerationError::FlagNotAppealed,
                ) is None
                &&& final(store).flags@ == old(store).flags@.insert(
                    flag_id,
                    ContentFlag {
                        status: if grant {
                            FlagStatus::AppealGranted
                        } else {
                            FlagStatus::AppealDenied
                        },
                        reviewed_by: Some(moderator),
                        reviewed_ledger: Some(ledger),
                        ..old(store).flags@[flag_id]
                    },
                )
                &&& final(store).events@ == old(store).events@.push(
                    ModerationEvent::AppealResolved { flag_id, moderator, granted: grant },
                )
                &&& final(store).admin == old(store).admin
                &&& final(store).flag_count == old(store).flag_count
                &&& final(store).moderators == old(store).moderators
            },
            Err(e) => {
                &&& old(store).moderator_refusal(
                    moderator@,
                    flag_id,
                    FlagStatus::Appealed,
                    ModerationError::FlagNotAppealed,
                ) == Some(e)
                &&& *final(store) == *old(store)
            },
        },
        old(store).is_mod(moderator@) && old(store).flags@.contains_key(flag_id) && old(
            store,
        ).flags@[flag_id].status == FlagStatus::Appealed ==> r is Ok,
        r is Ok ==> old(store).is_mod(moderator@) && old(store).flags@.contains_key(flag_id) && old(
            store,
        ).flags@[flag_id].status == FlagStatus::Appealed,
        old(store).flags_progress(&*final(store)),
        old(store).ids_issued() ==> final(store).ids_issued(),
        old(store).counted() ==> final(store).counted(),
        old(store).records_match() ==> final(store).records_match(),
{
    let mut flag = moderated_flag(
        store,
        &moderator,
        flag_id,
        FlagStatus::Appealed,
        ModerationError::FlagNotAppealed,
    )?;
    flag.status = if grant {
        FlagStatus::AppealGranted
    } else {
        FlagStatus::AppealDenied
    };
    flag.reviewed_by = Some(moderator.clone());
    flag.reviewed_ledger = Some(ledger);
    store.flags.insert(flag_id, flag);
    store.events.push(ModerationEvent::AppealResolved { flag_id, moderator, granted: grant });
    proof {
        lemma_one_flag_step(*old(store), *store, flag_id);
    }
    Ok(())
}

/// The flag with ID `flag_id`, if any.
pub fn get_flag(store: &ModerationStore, flag_id: u64) -> (r: Option<ContentFlag>)
    ensures
        match r {
            Some(f) => store.flags@.contains_key(flag_id) && f == store.flags@[flag_id],
            None => !store.flags@.contains_key(flag_id),
        },
{
    match store.flags.get(&flag_id) {
        Some(f) => Some(f.duplicate()),
        None => None,
    }
}

/// The total number of flags submitted (0 before initialization).
pub fn get_flag_count(store: &ModerationStore) -> (r: u64)
    ensures
        r == store.count(),
{
    match store.flag_count {
        Some(c) => c,
        None => 0,
    }
}

/// Whether `address` is a moderator.
pub fn is_moderator(store: &ModerationStore, address: Address) -> (r: bool)
    ensures
        r == store.is_mod(address@),
{
    match store.moderators.get(&address) {
        Some(b) => *b,
        None => false,
    }
}

/// Refuses `caller` unless it is the stored admin.
fn check_admin(store: &ModerationStore, caller: &Address) -> (r: Result<(), ModerationError>)
    ensures
        match r {
            Ok(()) => store.is_admin(caller@),
            Err(e) => store.admin_refusal(caller@) == Some(e),
        },
{
    match &store.admin {
        Some(a) => {
            if *a == *caller {
                Ok(())
            } else {
                Err(ModerationError::NotAdmin)
            }
        },
        None => Err(ModerationError::NotAdmin),
    }
}

/// A copy of flag `flag_id` for a moderator action by `moderator` that needs
/// the flag in status `needed`.
fn moderated_flag(
    store: &ModerationStore,
    moderator: &Address,
    flag_id: u64,
    needed: FlagStatus,
    wrong_status: ModerationError,
) -> (r: Result<ContentFlag, ModerationError>)
    ensures
        match r {
            Ok(f) => {
                &&& store.moderator_refusal(moderator@, flag_id, needed, wrong_status) is None
                &&& f == store.flags@[flag_id]
            },
            Err(e) => store.moderator_refusal(moderator@, flag_id, needed, wrong_status) == Some(
                e,
            ),
        },
{
    if !is_moderator(store, moderator.clone()) {
        return Err(ModerationError::NotModerator);
    }
    let flag = match store.flags.get(&flag_id) {
        Some(f) => f.duplicate(),
        None => return Err(ModerationError::FlagNotFound),
    };
    if flag.status != needed {
        return Err(wrong_status);
    }
    Ok(flag)
}

/// A rejected flag, and a flag whose appeal was resolved, keep their status:
/// no action moves them on.
pub proof fn law_settled_flags_stay_settled(from: FlagStatus, to: FlagStatus)
    requires
        status_step(from, to),
        from == FlagStatus::Rejected || from == FlagStatus::AppealGranted || from
            == FlagStatus::AppealDenied,
    ensures
        to == from,
{
}

/// Once reviewed, a flag never returns to Pending.
pub proof fn law_reviewed_flags_never_pend_again(from: FlagStatus, to: FlagStatus)
    requires
        status_step(from, to),
        from != FlagStatus::Pending,
    ensures
        to != FlagStatus::Pending,
{
}

/// An appeal is accepted exactly on a flag that exists and is Confirmed; a
/// flag in any other status (Pending, Rejected, already Appealed or resolved)
/// is refused with `FlagNotConfirmed`, a missing one with `FlagNotFound`.
pub proof fn law_only_confirmed_flags_can_be_appealed(s: ModerationStore, id: u64)
    ensures
        s.appeal_refusal(id) is None <==> s.flags@.contains_key(id) && s.flags@[id].status
            == FlagStatus::Confirmed,
        s.flags@.contains_key(id) && s.flags@[id].status != FlagStatus::Confirmed
            ==> s.appeal_refusal(id) == Some(ModerationError::FlagNotConfirmed),
        !s.flags@.contains_key(id) ==> s.appeal_refusal(id) == Some(ModerationError::FlagNotFound),
{
}

/// A moderator action is refused only for the three reasons of the contract:
/// the actor is no moderator, the flag is missing, or the flag is not in the
/// status the action needs. Any moderator may act on any flag in that status,
/// whoever submitted it, and a refusal names the first reason that applies.
pub proof fn law_moderator_refused_only_for_stated_reasons(
    s: ModerationStore,
    m: Seq<char>,
    id: u64,
    needed: FlagStatus,
    wrong_status: ModerationError,
)
    ensures
        s.moderator_refusal(m, id, needed, wrong_status) is None <==> (s.moderators@.contains_key(
            m,
        ) && s.moderators@[m] && s.flags@.contains_key(id) && s.flags@[id].status == needed),
        !(s.moderators@.contains_key(m) && s.moderators@[m]) ==> s.moderator_refusal(
            m,
            id,
            needed,
            wrong_status,
        ) == Some(ModerationError::NotModerator),
        s.moderators@.contains_key(m) && s.moderators@[m] && !s.flags@.contains_key(id)
            ==> s.moderator_refusal(m, id, needed, wrong_status) == Some(
            ModerationError::FlagNotFound,
        ),
        s.moderators@.contains_key(m) && s.moderators@[m] && s.flags@.contains_key(id)
            && s.flags@[id].status != needed ==> s.moderator_refusal(m, id, needed, wrong_status)
            == Some(wrong_status),
{
}

/// Replacing flag `id` by a copy of itself whose status took an allowed step
/// keeps every flag's submission and lets its status progress.
proof fn lemma_one_flag_step(o: ModerationStore, n: ModerationStore, id: u64)
    requires
        o.flags@.contains_key(id),
        n.flags@.contains_key(id),
        n.flags@ == o.flags@.insert(id, n.flags@[id]),
        same_submission(o.flags@[id], n.flags@[id]),
        status_step(o.flags@[id].status, n.flags@[id].status),
        n.flag_count == o.flag_count,
        record_matches_status(o.flags@[id]) ==> record_matches_status(n.flags@[id]),
    ensures
        o.flags_progress(&n),
        o.ids_issued() ==> n.ids_issued(),
        o.counted() ==> n.counted(),
        o.records_match() ==> n.records_match(),
{
    assert(n.flags@.dom() =~= o.flags@.dom());
    if o.records_match() {
        assert forall|k: u64| #[trigger] n.flags@.contains_key(k) implies record_matches_status(
            n.flags@[k],
        ) by {
            assert(o.flags@.contains_key(k));
        }
    }
    if o.ids_issued() {
        assert forall|k: u64| #[trigger] n.flags@.contains_key(k) implies k <= n.count()
            && n.flags@[k].flag_id == k by {
            assert(o.flags@.contains_key(k));
        }
    }
}

} // verus!
