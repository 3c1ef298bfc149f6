//! The profile registry and the operations of the system: profile creation
//! and lookup, publishing, the access query, price management, and the
//! two-phase subscription processor.
//!
//! Identity is an explicit parameter of every operation: the execution host
//! resolves who is calling and passes that identity in. The funds transfer
//! of a subscription is likewise delegated to the host's ledger
//! collaborator: `subscribe_request` decides whether a transfer is owed and
//! for how much, the host performs it, and `subscribe` commits or discards
//! the entitlement depending on the reported outcome. The subscriber
//! snapshot is written only if and after the transfer succeeded.

use vstd::prelude::*;
use vstd::string::StringExecFns;

use crate::decimal::dec_string_of;
use crate::decimal::dec_value;
use crate::decimal::is_dec_digits;
use crate::decimal::parse_u128;
use crate::decimal::to_decimal;
use crate::errors::Error;
use crate::profile::is_profile_type_name;
use crate::profile::spec_access_allowed;
use crate::profile::spec_default_profile;
use crate::profile::spec_denial_reason;
use crate::profile::spec_fresh_profile;
use crate::profile::spec_profile_type_of;
use crate::profile::with_cost;
use crate::profile::with_content;
use crate::profile::with_subscriber;
use crate::profile::Profile;
use crate::profile::ProfileType;
use crate::profile::ProfileView;
use crate::store::KvStore;

verus! {

/// How many of the smallest currency units one display unit stands for.
/// String-encoded amounts on the operation surface are given in display
/// units; profiles store and charge the scaled amount.
pub const UNITS_PER_DISPLAY_UNIT: u128 = 1_000_000_000_000_000_000_000_000;

/// Whether a cost string is accepted: all digits, and the scaled amount
/// fits the currency type.
pub open spec fn spec_cost_accepted(s: Seq<char>) -> bool {
    is_dec_digits(s) && dec_value(s) * UNITS_PER_DISPLAY_UNIT <= u128::MAX
}

/// The scaled amount a cost string denotes.
pub open spec fn spec_scaled_cost(s: Seq<char>) -> u128 {
    (dec_value(s) * UNITS_PER_DISPLAY_UNIT) as u128
}

/// Whether a payment-interval string is accepted: all digits, and the
/// denoted width fits the counter type.
pub open spec fn spec_interval_accepted(s: Seq<char>) -> bool {
    is_dec_digits(s) && dec_value(s) <= u64::MAX
}

/// Whether one set of profile inputs is accepted as a whole.
pub open spec fn spec_profile_input_accepted(
    profile_type: Seq<char>,
    cost: Seq<char>,
    payment_interval: Seq<char>,
) -> bool {
    is_profile_type_name(profile_type) && spec_cost_accepted(cost) && spec_interval_accepted(
        payment_interval,
    )
}

/// What the host's ledger collaborator reported about a requested funds
/// transfer.
#[derive(Clone, Copy, Debug, PartialEq, Eq, Structural)]
pub enum TransferOutcome {
    /// The full amount moved from the requester to the payee.
    Completed,
    /// The ledger refused the transfer; no funds moved.
    Rejected,
}

/// A transfer the host is asked to perform before a subscription can be
/// committed.
pub struct PaymentRequest {
    /// The creator account to be paid.
    pub payee: String,
    /// The price, in the smallest currency unit.
    pub amount: u128,
}

/// The registry: every account's profile, keyed by account identity.
pub struct Contract {
    data: KvStore<Profile>,
}

impl View for Contract {
    type V = Map<Seq<char>, ProfileView>;

    closed spec fn view(&self) -> Map<Seq<char>, ProfileView> {
        self.data@
    }
}

impl Default for Contract {
    /// A registry seeded with the demo profile under `bob_near`.
    fn default() -> (r: Self)
        ensures
            r@ == Map::<Seq<char>, ProfileView>::empty().insert("bob_near"@, spec_default_profile()),
    {
        let mut data: KvStore<Profile> = KvStore::new();
        data.insert(String::from_str("bob_near"), Profile::default());
        Contract { data }
    }
}

impl Contract {
    /// An empty registry.
    pub fn new() -> (r: Self)
        ensures
            r@ == Map::<Seq<char>, ProfileView>::empty(),
    {
        Contract { data: KvStore::new() }
    }

    /// Install a profile under its owner's identity, replacing any profile
    /// registered there. A persistence host uses this to rehydrate registry
    /// state it keeps elsewhere.
    pub fn put_profile(&mut self, profile: Profile)
        ensures
            final(self)@ == old(self)@.insert(profile.owner@, profile@),
    {
        let key: String = profile.owner.clone();
        self.data.insert(key, profile);
    }

    /// Look up an account's profile. Absence is not an error.
    pub fn get_profile(&self, account_id: &str) -> (r: Option<&Profile>)
        ensures
            match r {
                Some(p) => self@.contains_key(account_id@) && p@ == self@[account_id@],
                None => !self@.contains_key(account_id@),
            },
    {
        self.data.get(account_id)
    }

    /// Register a fresh profile for `account_id`, parsing the profile type,
    /// the cost (in display units) and the payment interval from strings;
    /// any malformed input is rejected as `InvalidInput` with nothing
    /// changed.
    ///
    /// Registering an account that already has a profile deliberately
    /// replaces the old profile wholesale — content, counter and subscriber
    /// ledger are all discarded, with no merge.
    pub fn add_profile(
        &mut self,
        account_id: String,
        profile_type: String,
        cost: String,
        payment_interval: String,
    ) -> (r: Result<(), Error>)
        ensures
            spec_profile_input_accepted(profile_type@, cost@, payment_interval@) ==> r == Ok::<
                (),
                Error,
            >(()) && final(self)@ == old(self)@.insert(
                account_id@,
                spec_fresh_profile(
                    account_id@,
                    spec_profile_type_of(profile_type@),
                    spec_scaled_cost(cost@),
                    (dec_value(payment_interval@) as u64),
                ),
            ),
            !spec_profile_input_accepted(profile_type@, cost@, payment_interval@) ==> r == Err::<
                (),
                Error,
            >(Error::InvalidInput) && final(self)@ == old(self)@,
    {
        let ptype: ProfileType = match ProfileType::parse(profile_type.as_str()) {
            Some(t) => t,
            None => {
                return Err(Error::InvalidInput);
            },
        };
        let cost_units: u128 = match parse_u128(cost.as_str()) {
            Some(v) => v,
            None => {
                return Err(Error::InvalidInput);
            },
        };
        if cost_units > u128::MAX / UNITS_PER_DISPLAY_UNIT {
            proof {
                assert(cost_units * UNITS_PER_DISPLAY_UNIT > u128::MAX) by (nonlinear_arith)
                    requires
                        cost_units > u128::MAX / UNITS_PER_DISPLAY_UNIT,
                ;
            }
            return Err(Error::InvalidInput);
        }
        proof {
            assert(cost_units * UNITS_PER_DISPLAY_UNIT <= u128::MAX) by (nonlinear_arith)
                requires
                    cost_units <= u128::MAX / UNITS_PER_DISPLAY_UNIT,
            ;
        }
        let scaled_cost: u128 = cost_units * UNITS_PER_DISPLAY_UNIT;
        let interval_wide: u128 = match parse_u128(payment_interval.as_str()) {
            Some(v) => v,
            None => {
                return Err(Error::InvalidInput);
            },
        };
        if interval_wide > u64::MAX as u128 {
            return Err(Error::InvalidInput);
        }
        let interval: u64 = interval_wide as u64;
        let owner: String = account_id.clone();
        self.data.insert(account_id, Profile::new(owner, ptype, scaled_cost, interval));
        Ok(())
    }

    /// The first half of a subscription: decide whether a transfer is owed.
    ///
    /// Nothing changes. If the creator's profile is missing the request is
    /// `NotFound`; if the requester is still entitled there is nothing to
    /// pay for and the request is `AlreadySubscribed`, so no transfer is
    /// ever asked for; otherwise the host is handed the transfer to
    /// perform, for the profile's current price.
    pub fn subscribe_request(&self, requester: &str, creator_address: &str) -> (r: Result<
        PaymentRequest,
        Error,
    >)
        ensures
            !self@.contains_key(creator_address@) ==> r == Err::<PaymentRequest, Error>(
                Error::NotFound,
            ),
            self@.contains_key(creator_address@) && spec_access_allowed(
                self@[creator_address@],
                requester@,
            ) ==> r == Err::<PaymentRequest, Error>(Error::AlreadySubscribed),
            self@.contains_key(creator_address@) && !spec_access_allowed(
                self@[creator_address@],
                requester@,
            ) ==> (r matches Ok(pr) && pr.payee@ == creator_address@ && pr.amount
                == self@[creator_address@].cost),
    {
        match self.data.get(creator_address) {
            None => Err(Error::NotFound),
            Some(p) => {
                if p.access_allowed(requester) {
                    Err(Error::AlreadySubscribed)
                } else {
                    Ok(PaymentRequest { payee: String::from_str(creator_address), amount: p.cost })
                }
            },
        }
    }

    /// The second half of a subscription: commit or discard, given the
    /// outcome the ledger collaborator reported for the transfer.
    ///
    /// The entitlement snapshot is written only if and after the transfer
    /// succeeded: a rejected transfer, a missing profile, or a requester
    /// who is (still) entitled leaves the ledger untouched. On success the
    /// requester's snapshot becomes the content counter value at the moment
    /// of payment.
    pub fn subscribe(
        &mut self,
        requester: String,
        creator_address: &str,
        transfer: TransferOutcome,
    ) -> (r: Result<(), Error>)
        ensures
            !old(self)@.contains_key(creator_address@) ==> r == Err::<(), Error>(Error::NotFound)
                && final(self)@ == old(self)@,
            old(self)@.contains_key(creator_address@) && spec_access_allowed(
                old(self)@[creator_address@],
                requester@,
            ) ==> r == Err::<(), Error>(Error::AlreadySubscribed) && final(self)@ == old(self)@,
            old(self)@.contains_key(creator_address@) && !spec_access_allowed(
                old(self)@[creator_address@],
                requester@,
            ) && transfer is Rejected ==> r == Err::<(), Error>(Error::InsufficientFunds)
                && final(self)@ == old(self)@,
            old(self)@.contains_key(creator_address@) && !spec_access_allowed(
                old(self)@[creator_address@],
                requester@,
            ) && transfer is Completed ==> r == Ok::<(), Error>(())
                && final(self)@ == old(self)@.insert(
                    creator_address@,
                    with_subscriber(old(self)@[creator_address@], requester@),
                ),
    {
        let cloned: Option<Profile> = match self.data.get(creator_address) {
            Some(p) => Some(p.clone()),
            None => None,
        };
        match cloned {
            None => Err(Error::NotFound),
            Some(mut prof) => {
                if prof.access_allowed(requester.as_str()) {
                    Err(Error::AlreadySubscribed)
                } else {
                    match transfer {
                        TransferOutcome::Rejected => Err(Error::InsufficientFunds),
                        TransferOutcome::Completed => {
                            prof.subscribe(requester);
                            self.data.insert(String::from_str(creator_address), prof);
                            Ok(())
                        },
                    }
                }
            },
        }
    }

    /// Publish one content item on the caller's own profile. Only a creator
    /// profile may publish; a consumer profile is refused with nothing
    /// changed.
    pub fn add_content(&mut self, requester: &str, content_id: String, payload: String) -> (r:
        Result<(), Error>)
        requires
            old(self)@.contains_key(requester@) && old(self)@[requester@].profile_type is Creator
                ==> old(self)@[requester@].content_count < u64::MAX,
        ensures
            !old(self)@.contains_key(requester@) ==> r == Err::<(), Error>(Error::NotFound)
                && final(self)@ == old(self)@,
            old(self)@.contains_key(requester@) && old(self)@[requester@].profile_type is Consumer
                ==> r == Err::<(), Error>(
                Error::Unauthorized(crate::errors::DenialReason::NotCreator),
            ) && final(self)@ == old(self)@,
            old(self)@.contains_key(requester@) && old(self)@[requester@].profile_type is Creator
                ==> r == Ok::<(), Error>(()) && final(self)@ == old(self)@.insert(
                requester@,
                with_content(old(self)@[requester@], content_id@, payload@),
            ),
    {
        let cloned: Option<Profile> = match self.data.get(requester) {
            Some(p) => Some(p.clone()),
            None => None,
        };
        match cloned {
            None => Err(Error::NotFound),
            Some(mut prof) => {
                match prof.add_content(content_id, payload) {
                    Ok(u) => {
                        self.data.insert(String::from_str(requester), prof);
                        Ok(u)
                    },
                    Err(e) => Err(e),
                }
            },
        }
    }

    /// Look up a content item of a creator on behalf of `requester`.
    pub fn get_content(&self, creator_address: &str, content_id: &str, requester: &str) -> (r:
        Result<String, Error>)
        ensures
            !self@.contains_key(creator_address@) ==> r == Err::<String, Error>(Error::NotFound),
            self@.contains_key(creator_address@) && spec_access_allowed(
                self@[creator_address@],
                requester@,
            ) && self@[creator_address@].content.contains_key(content_id@) ==> (r matches Ok(
                payload,
            ) && payload@ == self@[creator_address@].content[content_id@]),
            self@.contains_key(creator_address@) && spec_access_allowed(
                self@[creator_address@],
                requester@,
            ) && !self@[creator_address@].content.contains_key(content_id@) ==> r == Err::<
                String,
                Error,
            >(Error::ContentNotFound),
            self@.contains_key(creator_address@) && !spec_access_allowed(
                self@[creator_address@],
                requester@,
            ) ==> r == Err::<String, Error>(
                Error::Unauthorized(spec_denial_reason(self@[creator_address@], requester@)),
            ),
    {
        match self.data.get(creator_address) {
            None => Err(Error::NotFound),
            Some(p) => p.get_content(content_id, requester),
        }
    }

    /// The caller's own subscription price, rendered in display units.
    pub fn get_cost(&self, account_id: &str) -> (r: Result<String, Error>)
        ensures
            !self@.contains_key(account_id@) ==> r == Err::<String, Error>(Error::NotFound),
            self@.contains_key(account_id@) ==> (r matches Ok(s) && s@ == dec_string_of(
                (self@[account_id@].cost / UNITS_PER_DISPLAY_UNIT) as nat,
            ) && is_dec_digits(s@) && dec_value(s@) == self@[account_id@].cost
                / UNITS_PER_DISPLAY_UNIT),
    {
        match self.data.get(account_id) {
            None => Err(Error::NotFound),
            Some(p) => {
                proof {
                    crate::decimal::lemma_dec_string_of_value(
                        (p.cost / UNITS_PER_DISPLAY_UNIT) as nat,
                    );
                }
                Ok(to_decimal(p.cost / UNITS_PER_DISPLAY_UNIT))
            },
        }
    }

    /// Replace the caller's own subscription price, parsed from a string in
    /// display units. Only the price changes: every existing entitlement
    /// snapshot and the content counter stay exactly as they were.
    pub fn update_cost(&mut self, account_id: &str, cost: String) -> (r: Result<(), Error>)
        ensures
            !old(self)@.contains_key(account_id@) ==> r == Err::<(), Error>(Error::NotFound)
                && final(self)@ == old(self)@,
            old(self)@.contains_key(account_id@) && !spec_cost_accepted(cost@) ==> r == Err::<
                (),
                Error,
            >(Error::InvalidInput) && final(self)@ == old(self)@,
            old(self)@.contains_key(account_id@) && spec_cost_accepted(cost@) ==> r == Ok::<
                (),
                Error,
            >(()) && final(self)@ == old(self)@.insert(
                account_id@,
                with_cost(old(self)@[account_id@], spec_scaled_cost(cost@)),
            ),
    {
        let cloned: Option<Profile> = match self.data.get(account_id) {
            Some(p) => Some(p.clone()),
            None => None,
        };
        match cloned {
            None => Err(Error::NotFound),
            Some(mut prof) => {
                let cost_units: u128 = match parse_u128(cost.as_str()) {
                    Some(v) => v,
                    None => {
                        return Err(Error::InvalidInput);
                    },
                };
                if cost_units > u128::MAX / UNITS_PER_DISPLAY_UNIT {
                    proof {
                        assert(cost_units * UNITS_PER_DISPLAY_UNIT > u128::MAX)
                            by (nonlinear_arith)
                            requires
                                cost_units > u128::MAX / UNITS_PER_DISPLAY_UNIT,
                        ;
                    }
                    return Err(Error::InvalidInput);
                }
                proof {
                    assert(cost_units * UNITS_PER_DISPLAY_UNIT <= u128::MAX) by (nonlinear_arith)
                        requires
                            cost_units <= u128::MAX / UNITS_PER_DISPLAY_UNIT,
                    ;
                }
                prof.update_cost(cost_units * UNITS_PER_DISPLAY_UNIT);
                self.data.insert(String::from_str(account_id), prof);
                Ok(())
            },
        }
    }
}

} // verus!
