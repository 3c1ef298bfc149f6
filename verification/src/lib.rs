//! A pay-to-subscribe content gating library.
//!
//! Creators publish keyed content items; consumers pay a per-creator price
//! and are entitled to read a bounded window of that creator's content until
//! the creator has published enough new items to exhaust the window, at which
//! point renewed payment is required.
//!
//! The heart of the crate is the entitlement engine: a pure decision rule
//! that combines a creator's content counter, the payment interval, and a
//! subscriber's recorded snapshot into an allow/deny verdict, together with a
//! subscription processor that couples a funds transfer to an atomic update
//! of the entitlement state. Identity resolution, currency transfer execution
//! and persistent storage are external collaborators: callers pass the
//! requesting identity explicitly and report the outcome of a transfer back
//! to the processor.

pub mod contract;
pub mod decimal;
pub mod errors;
pub mod profile;
pub mod store;

pub use contract::Contract;
pub use contract::PaymentRequest;
pub use contract::TransferOutcome;
pub use errors::DenialReason;
pub use errors::Error;
pub use profile::Profile;
pub use profile::ProfileType;
pub use profile::StorageKeys;
pub use profile::SubscriptionStatus;
pub use store::KvStore;
