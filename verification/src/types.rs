//! Plain value types the club's operations speak of: caller identities,
//! phases, creation parameters, transfer instructions and logged events.

use vstd::prelude::*;

verus! {

/// The phase a club is in. Transitions only ever move forward along
/// Open, Closed, InProgress, Pending, Completed; the one transition
/// driven by an operation in this crate is InProgress to Pending, taken
/// by `State::start_withdrawal_phase`.
#[derive(Debug, Clone, Copy, PartialEq, Eq, Structural)]
pub enum TandaState {
    /// The club is accepting new members.
    Open,
    /// The club is no longer accepting new members.
    Closed,
    /// The club has not yet started its payout cycles.
    Pending,
    /// The club is collecting contributions and moving toward payout.
    InProgress,
    /// The club has completed all payout cycles.
    Completed,
}

/// The identity behind a call: an individual account, or a contract
/// acting on an account's behalf. Only individual accounts may become
/// members; each identity carries its plain identifier.
#[derive(Debug, Clone, Copy, PartialEq, Eq, Structural)]
pub enum Address {
    /// An individual account.
    Account(u64),
    /// A contract identity.
    Contract(u64),
}

/// What a successful withdrawal authorizes: a transfer of `amount` to
/// `receiver`, to be carried out by the hosting layer as one unit with
/// the state change.
#[derive(Debug, Clone, Copy, PartialEq, Eq, Structural)]
pub struct TransferInstruction {
    /// The account the payout goes to.
    pub receiver: u64,
    /// The amount to transfer, in the currency's smallest unit.
    pub amount: u64,
}

/// Everything a club is created with. All of it is fixed at creation;
/// times are milliseconds, amounts are in the currency's smallest unit.
#[derive(Debug)]
pub struct InitParameter {
    /// The name of the club.
    pub name: String,
    /// A brief description of the club.
    pub description: String,
    /// The account the creator names in the parameter.
    pub creator: u64,
    /// The amount each member contributes per round.
    pub contribution_amount: u64,
    /// The number of payout cycles.
    pub payout_cycle: u64,
    /// When the club starts.
    pub start_time: u64,
    /// When the club is finalized.
    pub end_time: u64,
    /// The interval between payout windows, in milliseconds.
    pub time_interval: u64,
    /// The entry fee paid on joining.
    pub penalty_amount: u64,
    /// The maximum number of members.
    pub max_contributors: u64,
}

/// The decoded parameter of a join call.
#[derive(Debug, Clone, Copy, PartialEq, Eq, Structural)]
pub struct JoinTandaParameter {
    /// The penalty amount named in the call's parameter.
    pub penalty_amount: u64,
}

/// The event logged when an account joins the club.
#[derive(Debug, Clone, Copy, PartialEq, Eq, Structural)]
pub struct TandaEvent {
    /// The account that joined.
    pub user: u64,
}

/// The events this club can log.
#[derive(Debug, Clone, Copy, PartialEq, Eq, Structural)]
pub enum Event {
    /// An account joined the club.
    Join(TandaEvent),
}

} // verus!
