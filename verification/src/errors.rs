//! Errors returned by the club's operations.

use vstd::prelude::*;

verus! {

/// Everything that can go wrong in a club operation. Every guard failure
/// is reported through one of these variants; no operation that returns an
/// error leaves any mutation behind.
#[derive(Debug, Clone, Copy, PartialEq, Eq, Structural)]
pub enum Error {
    /// The club is closed, or the current time is past its end time.
    TandaClosed,
    /// The club has reached its maximum number of members.
    MaximumReached,
    /// A withdrawal was attempted before the cadence interval had elapsed.
    WithdrawalTimeNotReached,
    /// The withdrawal phase has already been started once.
    WithdrawalPhaseAlreadyStarted,
    /// Only individual accounts may take part; the caller was a contract.
    ContractMember,
    /// Not every member slot has a contribution yet.
    ContributorsNotComplete,
    /// The caller is not allowed to perform this operation.
    NotAuthorized,
    /// The club's end time has passed; no further withdrawal is possible.
    AlreadyFinalized,
    /// The club's start time has not been reached yet.
    NotStarted,
    /// The caller has not joined the club.
    NotJoined,
    /// The caller has already joined the club.
    AlreadyJoined,
    /// The caller has already withdrawn from the pool.
    AlreadyWithdrawn,
    /// The caller has never contributed to the pool.
    NotContributor,
    /// The paid penalty differs from the configured penalty amount.
    InvalidPenaltyAmount,
    /// The paid amount is zero or differs from the configured contribution.
    InvalidContributionAmount,
    /// The withdrawal phase was to be started before its start time.
    WithdrawalIntervalNotReached,
    /// The club is not in the phase this operation needs.
    InvalidState,
}

} // verus!
