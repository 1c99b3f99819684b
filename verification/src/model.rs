//! The mathematical model of a club: a ghost image of the executable
//! state, the club invariant, and one check/apply pair of spec functions
//! per operation. Every operation's contract says that it returns exactly
//! what the check function decides and, on success, leaves the state the
//! apply function describes; the laws are stated and proved over these
//! functions.

use vstd::prelude::*;

use crate::errors::Error;
use crate::types::{Address, InitParameter, TandaState, TransferInstruction};

verus! {

/// The ghost image of a club's state. Membership is an ordered sequence
/// of (account, admission index) pairs; contributors and withdrawn
/// accounts are sets; every time is in milliseconds and every amount in
/// the currency's smallest unit.
#[verifier::ext_equal]
pub ghost struct StateModel {
    /// The name of the club.
    pub name: Seq<char>,
    /// A brief description of the club.
    pub description: Seq<char>,
    /// The phase the club is in.
    pub tanda_state: TandaState,
    /// The account that created the club.
    pub creator: u64,
    /// The admitted members, in admission order, each with its index.
    pub members: Seq<(u64, u64)>,
    /// The fixed amount each member contributes per round.
    pub contribution_amount: u64,
    /// The fixed entry fee each joiner pays; immutable after creation.
    pub penalty_amount: u64,
    /// The pool of entry fees collected so far, one fee per admission.
    pub penalty_pool: u64,
    /// The running sum of all accepted contributions.
    pub total_contributions: u64,
    /// The number of payout cycles.
    pub payout_cycle: u64,
    /// The current payout cycle.
    pub current_cycle: u64,
    /// When the club starts.
    pub start_time: u64,
    /// When the club is finalized.
    pub end_time: u64,
    /// The interval between payout windows.
    pub time_interval: u64,
    /// The account next in line for a rotation payout; reserved for
    /// rotation logic, not consulted by any operation here.
    pub next_receiver: Option<u64>,
    /// When the last withdrawal was made.
    pub last_withdrawal_time: u64,
    /// The accounts paid in each completed cycle.
    pub completed_cycles: Seq<(u64, Seq<u64>)>,
    /// The accounts that have made their contribution.
    pub contributors: Set<u64>,
    /// The accounts that have already claimed a payout.
    pub withdrawn_addresses: Set<u64>,
    /// Whether the withdrawal phase has been started; latched once set.
    pub withdrawal_phase_started: bool,
    /// When the next withdrawal window opens.
    pub next_withdrawal_time: u64,
    /// When withdrawals may start.
    pub withdrawal_start_time: u64,
    /// The maximum number of members.
    pub max_contributors: u64,
    /// The counter that assigns admission indices.
    pub user_index: u64,
}

/// The plain identifier behind a caller identity.
pub open spec fn addr_account(a: Address) -> u64 {
    match a {
        Address::Account(x) => x,
        Address::Contract(x) => x,
    }
}

/// Whether `acc` holds one of the member slots of `members`.
pub open spec fn has_account(members: Seq<(u64, u64)>, acc: u64) -> bool {
    exists|i: int| 0 <= i < members.len() && (#[trigger] members[i]).0 == acc
}

/// Whether the caller is an admitted member. A contract identity never
/// is: only individual accounts are ever admitted.
pub open spec fn caller_joined(m: StateModel, caller: Address) -> bool {
    match caller {
        Address::Account(acc) => has_account(m.members, acc),
        Address::Contract(_) => false,
    }
}

/// The position of a phase along the club's one-way lifecycle.
pub open spec fn phase_rank(s: TandaState) -> int {
    match s {
        TandaState::Open => 0,
        TandaState::Closed => 1,
        TandaState::InProgress => 2,
        TandaState::Pending => 3,
        TandaState::Completed => 4,
    }
}

impl StateModel {
    /// The club invariant: membership stays within capacity, accounts are
    /// admitted at most once, admission indices count up from one in
    /// admission order, the index counter matches the member count, only
    /// members contribute, and only contributors withdraw.
    pub open spec fn inv(self) -> bool {
        &&& self.members.len() <= self.max_contributors
        &&& forall|i: int, j: int|
            0 <= i < j < self.members.len() ==> (#[trigger] self.members[i]).0 != (
            #[trigger] self.members[j]).0
        &&& forall|i: int| 0 <= i < self.members.len() ==> (#[trigger] self.members[i]).1 == i + 1
        &&& self.user_index == self.members.len()
        &&& self.contributors.finite()
        &&& forall|a: u64| self.contributors.contains(a) ==> has_account(self.members, a)
        &&& self.withdrawn_addresses.finite()
        &&& forall|a: u64| self.withdrawn_addresses.contains(a) ==> self.contributors.contains(a)
    }

    /// The guards of `join`, in order, first failure wins: the club must
    /// be open and within its time window with a free slot, the caller
    /// must not already be a member, must pay exactly the configured
    /// penalty amount, and must be an individual account.
    pub open spec fn join_check(self, caller: Address, paid: u64, now: u64) -> Result<(), Error> {
        if self.tanda_state != TandaState::Open {
            Err(Error::TandaClosed)
        } else if self.end_time <= now {
            Err(Error::TandaClosed)
        } else if now < self.start_time {
            Err(Error::NotStarted)
        } else if self.members.len() >= self.max_contributors {
            Err(Error::MaximumReached)
        } else if caller_joined(self, caller) {
            Err(Error::AlreadyJoined)
        } else if paid != self.penalty_amount {
            Err(Error::InvalidPenaltyAmount)
        } else if caller is Contract {
            Err(Error::ContractMember)
        } else {
            Ok(())
        }
    }

    /// The state after a successful `join`: the paid fee is added to the
    /// penalty pool — the configured fee itself never changes — the index
    /// counter moves up, and the account is appended to the members under
    /// the new index.
    pub open spec fn join_apply(self, acc: u64, paid: u64) -> StateModel {
        StateModel {
            penalty_pool: (self.penalty_pool + paid) as u64,
            user_index: (self.user_index + 1) as u64,
            members: self.members.push((acc, (self.user_index + 1) as u64)),
            ..self
        }
    }

    /// The guards of `contribute`, in order: the amount must be positive
    /// and exactly the configured contribution, the time within the
    /// club's window, the club not closed, and the caller an individual
    /// account that has joined.
    pub open spec fn contribute_check(self, caller: Address, amount: u64, now: u64) -> Result<
        (),
        Error,
    > {
        if amount == 0 {
            Err(Error::InvalidContributionAmount)
        } else if amount != self.contribution_amount {
            Err(Error::InvalidContributionAmount)
        } else if now < self.start_time {
            Err(Error::NotStarted)
        } else if now > self.end_time {
            Err(Error::TandaClosed)
        } else if self.tanda_state == TandaState::Closed {
            Err(Error::TandaClosed)
        } else if caller is Contract {
            Err(Error::ContractMember)
        } else if !caller_joined(self, caller) {
            Err(Error::NotJoined)
        } else {
            Ok(())
        }
    }

    /// The state after a successful `contribute`: the account enters the
    /// contributor set (idempotently) and the pool grows by the amount.
    pub open spec fn contribute_apply(self, acc: u64, amount: u64) -> StateModel {
        StateModel {
            contributors: self.contributors.insert(acc),
            total_contributions: (self.total_contributions + amount) as u64,
            ..self
        }
    }

    /// The guards of `withdraw`, in order: the club must not have ended,
    /// the cadence interval must have elapsed since the last withdrawal,
    /// the club must not be closed, and the caller must be an individual
    /// account that has joined, has contributed, and has not withdrawn
    /// before.
    pub open spec fn withdraw_check(self, caller: Address, now: u64) -> Result<(), Error> {
        if now >= self.end_time {
            Err(Error::AlreadyFinalized)
        } else if self.last_withdrawal_time <= now && now - self.last_withdrawal_time
            < self.time_interval {
            Err(Error::WithdrawalTimeNotReached)
        } else if self.tanda_state == TandaState::Closed {
            Err(Error::TandaClosed)
        } else if caller is Contract {
            Err(Error::ContractMember)
        } else if !caller_joined(self, caller) {
            Err(Error::NotJoined)
        } else if !self.contributors.contains(addr_account(caller)) {
            Err(Error::NotContributor)
        } else if self.withdrawn_addresses.contains(addr_account(caller)) {
            Err(Error::AlreadyWithdrawn)
        } else {
            Ok(())
        }
    }

    /// The state after a successful `withdraw`: the account joins the
    /// withdrawn set and the withdrawal clock is reset to now.
    pub open spec fn withdraw_apply(self, acc: u64, now: u64) -> StateModel {
        StateModel {
            withdrawn_addresses: self.withdrawn_addresses.insert(acc),
            last_withdrawal_time: now,
            ..self
        }
    }

    /// What a successful `withdraw` authorizes: the whole pool, to the
    /// claiming account.
    pub open spec fn withdraw_payout(self, acc: u64) -> TransferInstruction {
        TransferInstruction { receiver: acc, amount: self.total_contributions }
    }

    /// The guards of `start_withdrawal_phase`, in order: only the creator
    /// may call it, only once, only with a full contributor set, only
    /// once the withdrawal start time has passed, and only while the club
    /// is in progress.
    pub open spec fn start_withdrawal_check(self, caller: Address, now: u64) -> Result<
        (),
        Error,
    > {
        if caller != Address::Account(self.creator) {
            Err(Error::NotAuthorized)
        } else if self.withdrawal_phase_started {
            Err(Error::WithdrawalPhaseAlreadyStarted)
        } else if self.contributors.len() != self.max_contributors {
            Err(Error::ContributorsNotComplete)
        } else if now < self.withdrawal_start_time {
            Err(Error::WithdrawalIntervalNotReached)
        } else if self.tanda_state != TandaState::InProgress {
            Err(Error::InvalidState)
        } else {
            Ok(())
        }
    }

    /// The state after `start_withdrawal_phase` succeeds: the phase moves
    /// to Pending, the next withdrawal window is scheduled one interval
    /// after the withdrawal start time, and the latch is set.
    pub open spec fn start_withdrawal_apply(self) -> StateModel {
        StateModel {
            tanda_state: TandaState::Pending,
            next_withdrawal_time: (self.withdrawal_start_time + self.time_interval) as u64,
            withdrawal_phase_started: true,
            ..self
        }
    }
}

/// The one guard of creation: the withdrawal start time, one interval
/// past the club's start time, must fit in a timestamp.
pub open spec fn init_check(p: InitParameter) -> Result<(), Error> {
    if p.start_time + p.time_interval > u64::MAX {
        Err(Error::InvalidState)
    } else {
        Ok(())
    }
}

/// The state a club is created in: open, empty, with the configuration
/// copied from the parameter, the given account as creator, and the
/// withdrawal start time one interval past the start time.
pub open spec fn init_state(p: InitParameter, account: u64) -> StateModel {
    StateModel {
        name: p.name@,
        description: p.description@,
        tanda_state: TandaState::Open,
        creator: account,
        members: Seq::empty(),
        contribution_amount: p.contribution_amount,
        penalty_amount: p.penalty_amount,
        penalty_pool: 0,
        total_contributions: 0,
        payout_cycle: p.payout_cycle,
        current_cycle: 0,
        start_time: p.start_time,
        end_time: p.end_time,
        time_interval: p.time_interval,
        next_receiver: None,
        last_withdrawal_time: 0,
        completed_cycles: Seq::empty(),
        contributors: Set::empty(),
        withdrawn_addresses: Set::empty(),
        withdrawal_phase_started: false,
        next_withdrawal_time: 0,
        withdrawal_start_time: (p.start_time + p.time_interval) as u64,
        max_contributors: p.max_contributors,
        user_index: 0,
    }
}

} // verus!
