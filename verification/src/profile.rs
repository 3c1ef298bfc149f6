//! Profiles, their content store and subscriber ledger, and the entitlement
//! engine.
//!
//! A profile belongs to one account. Creator profiles hold keyed content
//! items behind a pay-to-subscribe gate; consumer profiles are placeholders
//! that may subscribe but never publish. Entitlement is purely a function of
//! the profile's monotonically increasing content counter: a payment records
//! the counter value as the subscriber's snapshot, and access is permitted
//! exactly while `content_count <= snapshot + payment_interval`.

use vstd::prelude::*;
use vstd::string::StringExecFns;

use crate::errors::DenialReason;
use crate::errors::Error;
use crate::store::str_eq;
use crate::store::KvStore;

verus! {

/// The subscription price a freshly seeded demo profile asks for, in the
/// smallest currency unit.
pub const DEFAULT_PROFILE_COST: u128 = 10_000_000_000_000_000_000_000_000;

/// Names for the persisted components of the system's state. A persistence
/// host can use these to prefix its storage keys; the library itself only
/// fixes the set of components.
#[derive(Clone, Copy, Debug, PartialEq, Eq, Structural)]
pub enum StorageKeys {
    /// The profile registry itself.
    Data,
    /// A profile's content items.
    Content,
    /// A profile's subscriber ledger.
    Subscribers,
    /// A profile's subscription price.
    Cost,
    /// A profile's content counter.
    ContentCount,
}

/// Whether an account publishes content or only consumes it.
#[derive(Clone, Copy, Debug, PartialEq, Eq, Structural)]
pub enum ProfileType {
    Creator,
    Consumer,
}

/// The strings accepted as a profile type.
pub open spec fn is_profile_type_name(s: Seq<char>) -> bool {
    s == "creator"@ || s == "consumer"@
}

/// The profile type a valid profile-type string denotes.
pub open spec fn spec_profile_type_of(s: Seq<char>) -> ProfileType {
    if s == "creator"@ {
        ProfileType::Creator
    } else {
        ProfileType::Consumer
    }
}

impl ProfileType {
    /// Parse a profile-type string; any string other than the two accepted
    /// names is rejected.
    pub fn parse(profile_type: &str) -> (r: Option<ProfileType>)
        ensures
            r == (if is_profile_type_name(profile_type@) {
                Some(spec_profile_type_of(profile_type@))
            } else {
                None::<ProfileType>
            }),
    {
        if str_eq(profile_type, "creator") {
            Some(ProfileType::Creator)
        } else if str_eq(profile_type, "consumer") {
            Some(ProfileType::Consumer)
        } else {
            None
        }
    }

    /// The profile type named by `profile_type`, which must be one of the
    /// two accepted names.
    pub fn new(profile_type: &str) -> (r: ProfileType)
        requires
            is_profile_type_name(profile_type@),
        ensures
            r == spec_profile_type_of(profile_type@),
    {
        match Self::parse(profile_type) {
            Some(t) => t,
            None => {
                proof {
                    assert(false);
                }
                ProfileType::Creator
            },
        }
    }
}

/// The mathematical model of a profile.
pub ghost struct ProfileView {
    /// The account that owns the profile; the key it is registered under.
    pub owner: Seq<char>,
    pub profile_type: ProfileType,
    /// Content items by content id.
    pub content: Map<Seq<char>, Seq<char>>,
    /// How many items have ever been added; the clock entitlement windows
    /// are measured against.
    pub content_count: u64,
    /// The width of the window one payment buys, in content items.
    pub payment_interval: u64,
    /// The subscription price, in the smallest currency unit.
    pub cost: u128,
    /// Each subscriber's entitlement snapshot: the content counter value
    /// recorded at their last successful payment.
    pub subscribers: Map<Seq<char>, u64>,
}

/// A creator or consumer account with its content, price and subscriber
/// ledger.
pub struct Profile {
    pub owner: String,
    pub profile_type: ProfileType,
    pub content: KvStore<String>,
    pub content_count: u64,
    pub payment_interval: u64,
    pub cost: u128,
    pub subscribers: KvStore<u64>,
}

impl View for Profile {
    type V = ProfileView;

    open spec fn view(&self) -> ProfileView {
        ProfileView {
            owner: self.owner@,
            profile_type: self.profile_type,
            content: self.content@,
            content_count: self.content_count,
            payment_interval: self.payment_interval,
            cost: self.cost,
            subscribers: self.subscribers@,
        }
    }
}

/// A fresh profile: empty content, empty ledger, counter at zero.
pub open spec fn spec_fresh_profile(
    owner: Seq<char>,
    profile_type: ProfileType,
    cost: u128,
    payment_interval: u64,
) -> ProfileView {
    ProfileView {
        owner,
        profile_type,
        content: Map::<Seq<char>, Seq<char>>::empty(),
        content_count: 0,
        payment_interval,
        cost,
        subscribers: Map::<Seq<char>, u64>::empty(),
    }
}

/// The seeded demo profile a defaulted registry holds for `bob_near`.
pub open spec fn spec_default_profile() -> ProfileView {
    ProfileView {
        owner: "bob_near"@,
        profile_type: ProfileType::Creator,
        content: Map::<Seq<char>, Seq<char>>::empty().insert("date"@, "content test"@),
        content_count: 1,
        payment_interval: 4,
        cost: DEFAULT_PROFILE_COST,
        subscribers: Map::<Seq<char>, u64>::empty(),
    }
}

/// `p` after recording `requester`'s payment: the ledger holds the current
/// counter value as their snapshot, and nothing else changes.
pub open spec fn with_subscriber(p: ProfileView, requester: Seq<char>) -> ProfileView {
    ProfileView { subscribers: p.subscribers.insert(requester, p.content_count), ..p }
}

/// `p` after publishing one item: the counter advances by one and the item
/// is stored, and nothing else changes.
pub open spec fn with_content(p: ProfileView, content_id: Seq<char>, payload: Seq<char>) -> ProfileView {
    ProfileView {
        content: p.content.insert(content_id, payload),
        content_count: (p.content_count + 1) as u64,
        ..p
    }
}

/// `p` with its price replaced and nothing else changed.
pub open spec fn with_cost(p: ProfileView, cost: u128) -> ProfileView {
    ProfileView { cost, ..p }
}

/// Whether access is permitted: a profile's owner may always read it, and
/// a subscriber may read while the counter has not moved past the window
/// bought by the last payment (boundary inclusive).
pub open spec fn spec_access_allowed(p: ProfileView, requester: Seq<char>) -> bool {
    ||| requester == p.owner
    ||| (p.subscribers.contains_key(requester) && p.content_count <= p.subscribers[requester]
        + p.payment_interval)
}

/// The derived state of the relationship between a profile and a requester.
/// It is recomputed from the current counter on every query; a subscription
/// lapses purely by the counter advancing past the paid window.
#[derive(Clone, Copy, Debug, PartialEq, Eq, Structural)]
pub enum SubscriptionStatus {
    /// No payment was ever recorded for the requester.
    NeverSubscribed,
    /// The requester's last payment still covers the current counter.
    Active,
    /// The counter has moved past the window of the requester's last
    /// payment.
    Lapsed,
}

/// The derived relationship state, ignoring ownership.
pub open spec fn spec_subscription_status(p: ProfileView, requester: Seq<char>) -> SubscriptionStatus {
    if !p.subscribers.contains_key(requester) {
        SubscriptionStatus::NeverSubscribed
    } else if p.content_count <= p.subscribers[requester] + p.payment_interval {
        SubscriptionStatus::Active
    } else {
        SubscriptionStatus::Lapsed
    }
}

/// Why a non-entitled requester is turned away.
pub open spec fn spec_denial_reason(p: ProfileView, requester: Seq<char>) -> DenialReason {
    if !p.subscribers.contains_key(requester) {
        DenialReason::NeverSubscribed
    } else {
        DenialReason::Lapsed
    }
}

impl Profile {
    /// A fresh profile for `owner`: empty content, empty subscriber ledger,
    /// content counter at zero.
    pub fn new(owner: String, profile_type: ProfileType, cost: u128, payment_interval: u64) -> (r:
        Profile)
        ensures
            r@ == spec_fresh_profile(owner@, profile_type, cost, payment_interval),
    {
        Profile {
            owner,
            profile_type,
            content: KvStore::new(),
            content_count: 0,
            payment_interval,
            cost,
            subscribers: KvStore::new(),
        }
    }

    /// The entitlement verdict for `requester` against the current state.
    /// No mutation occurs.
    pub fn access_allowed(&self, requester: &str) -> (r: bool)
        ensures
            r == spec_access_allowed(self@, requester@),
    {
        if str_eq(requester, self.owner.as_str()) {
            true
        } else {
            match self.subscribers.get(requester) {
                None => false,
                Some(snapshot) => (self.content_count as u128) <= (*snapshot as u128) + (
                self.payment_interval as u128),
            }
        }
    }

    /// The derived relationship state for `requester`, ignoring ownership.
    pub fn subscription_status(&self, requester: &str) -> (r: SubscriptionStatus)
        ensures
            r == spec_subscription_status(self@, requester@),
    {
        match self.subscribers.get(requester) {
            None => SubscriptionStatus::NeverSubscribed,
            Some(snapshot) => {
                if (self.content_count as u128) <= (*snapshot as u128) + (self.payment_interval
                    as u128) {
                    SubscriptionStatus::Active
                } else {
                    SubscriptionStatus::Lapsed
                }
            },
        }
    }

    /// Record `requester`'s successful payment: their entitlement snapshot
    /// becomes the current content counter value.
    pub fn subscribe(&mut self, requester: String)
        ensures
            final(self)@ == with_subscriber(old(self)@, requester@),
    {
        self.subscribers.insert(requester, self.content_count);
    }

    /// Look up a content item on behalf of `requester`: the payload if the
    /// requester is entitled and the item exists, and otherwise the exact
    /// reason for refusal.
    pub fn get_content(&self, content_id: &str, requester: &str) -> (r: Result<String, Error>)
        ensures
            spec_access_allowed(self@, requester@) && self@.content.contains_key(content_id@) ==> (
            r matches Ok(payload) && payload@ == self@.content[content_id@]),
            spec_access_allowed(self@, requester@) && !self@.content.contains_key(content_id@)
                ==> r == Err::<String, Error>(Error::ContentNotFound),
            !spec_access_allowed(self@, requester@) ==> r == Err::<String, Error>(
                Error::Unauthorized(spec_denial_reason(self@, requester@)),
            ),
    {
        if self.access_allowed(requester) {
            match self.content.get(content_id) {
                Some(payload) => Ok(payload.clone()),
                None => Err(Error::ContentNotFound),
            }
        } else {
            match self.subscription_status(requester) {
                SubscriptionStatus::NeverSubscribed => Err(
                    Error::Unauthorized(DenialReason::NeverSubscribed),
                ),
                _ => Err(Error::Unauthorized(DenialReason::Lapsed)),
            }
        }
    }

    /// Publish one content item. Only a creator profile may publish; on a
    /// consumer profile nothing changes. The counter is committed together
    /// with the item in one step, the counter advancing before the item is
    /// stored.
    pub fn add_content(&mut self, content_id: String, payload: String) -> (r: Result<(), Error>)
        requires
            old(self)@.profile_type is Creator ==> old(self)@.content_count < u64::MAX,
        ensures
            old(self)@.profile_type is Creator ==> r == Ok::<(), Error>(()) && final(self)@
                == with_content(old(self)@, content_id@, payload@),
            old(self)@.profile_type is Consumer ==> r == Err::<(), Error>(
                Error::Unauthorized(DenialReason::NotCreator),
            ) && final(self)@ == old(self)@,
    {
        match self.profile_type {
            ProfileType::Creator => {
                self.content_count = self.content_count + 1;
                self.content.insert(content_id, payload);
                Ok(())
            },
            ProfileType::Consumer => Err(Error::Unauthorized(DenialReason::NotCreator)),
        }
    }

    /// Replace the subscription price. Nothing else changes: existing
    /// snapshots and the content counter are untouched, so entitlements are
    /// unaffected by price changes.
    pub fn update_cost(&mut self, cost: u128)
        ensures
            final(self)@ == with_cost(old(self)@, cost),
    {
        self.cost = cost;
    }
}

impl Clone for Profile {
    /// Cloning preserves the profile's model exactly.
    fn clone(&self) -> (res: Self)
        ensures
            res@ == self@,
    {
        Profile {
            owner: self.owner.clone(),
            profile_type: self.profile_type,
            content: self.content.clone(),
            content_count: self.content_count,
            payment_interval: self.payment_interval,
            cost: self.cost,
            subscribers: self.subscribers.clone(),
        }
    }
}

impl Default for Profile {
    /// The seeded demo profile: a creator with one content item, a four-item
    /// payment window and the default price.
    fn default() -> (r: Self)
        ensures
            r@ == spec_default_profile(),
    {
        let mut content: KvStore<String> = KvStore::new();
        content.insert(String::from_str("date"), String::from_str("content test"));
        Profile {
            owner: String::from_str("bob_near"),
            profile_type: ProfileType::Creator,
            content,
            content_count: 1,
            payment_interval: 4,
            cost: DEFAULT_PROFILE_COST,
            subscribers: KvStore::new(),
        }
    }
}

/// The owner bypass: the owner of a profile may always read it, whatever
/// the subscriber ledger holds.
pub proof fn lemma_owner_always_allowed(p: ProfileView)
    ensures
        spec_access_allowed(p, p.owner),
{
}

/// A requester who is not the owner and has no ledger entry is never
/// allowed.
pub proof fn lemma_never_subscribed_denied(p: ProfileView, requester: Seq<char>)
    requires
        requester != p.owner,
        !p.subscribers.contains_key(requester),
    ensures
        !spec_access_allowed(p, requester),
{
}

/// The entitlement window: while a non-owner's recorded snapshot is `n`,
/// access is allowed in every state whose counter is at most
/// `n + payment_interval`, and denied in every state whose counter has moved
/// past that bound.
pub proof fn lemma_entitlement_window(p: ProfileView, requester: Seq<char>, n: u64)
    requires
        requester != p.owner,
        p.subscribers.contains_key(requester),
        p.subscribers[requester] == n,
    ensures
        p.content_count <= n + p.payment_interval ==> spec_access_allowed(p, requester),
        p.content_count > n + p.payment_interval ==> !spec_access_allowed(p, requester),
{
}

} // verus!
