//! The error taxonomy shared by every operation of the library.

use vstd::prelude::*;

verus! {

/// Why a read request was denied.
#[derive(Clone, Copy, Debug, PartialEq, Eq, Structural)]
pub enum DenialReason {
    /// The caller tried a creator-only write on a consumer profile.
    NotCreator,
    /// The requester has never paid for a subscription on this profile.
    NeverSubscribed,
    /// The requester once subscribed, but the content counter has moved past
    /// the window their last payment bought.
    Lapsed,
}

/// Every failure an operation can report. All errors are terminal for the
/// single request that raised them: no operation retries internally, and no
/// operation commits a partial state change alongside an error.
#[derive(Clone, Copy, Debug, PartialEq, Eq, Structural)]
pub enum Error {
    /// The addressed profile does not exist.
    NotFound,
    /// The addressed content item does not exist.
    ContentNotFound,
    /// A write was attempted by an identity that the profile rules refuse,
    /// or a read by a requester without a live entitlement.
    Unauthorized(DenialReason),
    /// A malformed profile-type string or an unparseable numeric string.
    InvalidInput,
    /// A redundant subscription request while the requester is still
    /// entitled.
    AlreadySubscribed,
    /// The ledger collaborator refused the funds transfer.
    InsufficientFunds,
}

} // verus!
