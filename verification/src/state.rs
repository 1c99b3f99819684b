//! The executable club state and its operations: creation, joining,
//! contributing, opening the withdrawal phase, and withdrawing. Each
//! operation checks its guards in order, mutates nothing on failure, and
//! is specified exactly by the check/apply pair of spec functions in
//! `model`.

use vstd::prelude::*;

use crate::errors::Error;
use crate::model::{addr_account, has_account, init_check, init_state, StateModel};
use crate::types::{Address, InitParameter, TandaState, TransferInstruction};

verus! {

/// A club's mutable state. One value of this type is the single
/// authoritative copy for one club; the operations below are its only
/// mutators. Membership is a vector of (account, admission index) pairs;
/// the contributor and withdrawn sets are vectors without duplicates.
#[derive(Debug)]
pub struct State {
    /// The name of the club.
    pub name: String,
    /// A brief description of the club.
    pub description: String,
    /// The phase the club is in.
    pub tanda_state: TandaState,
    /// The account that created the club.
    pub creator: u64,
    /// The admitted members, in admission order, each with its index.
    pub members: Vec<(u64, u64)>,
    /// The fixed amount each member contributes per round.
    pub contribution_amount: u64,
    /// The fixed entry fee each joiner pays; immutable after creation.
    pub penalty_amount: u64,
    /// The pool of entry fees collected so far, one fee per admission.
    pub penalty_pool: u64,
    /// The running sum of all accepted contributions.
    pub total_contributions: u64,
    /// The number of payout cycles.
    pub payout_cycle: u64,
    /// The current payout cycle.
    pub current_cycle: u64,
    /// When the club starts.
    pub start_time: u64,
    /// When the club is finalized.
    pub end_time: u64,
    /// The interval between payout windows, in milliseconds.
    pub time_interval: u64,
    /// The account next in line for a rotation payout; reserved for
    /// rotation logic, not consulted by any operation here.
    pub next_receiver: Option<u64>,
    /// When the last withdrawal was made.
    pub last_withdrawal_time: u64,
    /// The accounts paid in each completed cycle.
    pub completed_cycles: Vec<(u64, Vec<u64>)>,
    /// The accounts that have made their contribution, without
    /// duplicates.
    pub contributors: Vec<u64>,
    /// The accounts that have already claimed a payout, without
    /// duplicates.
    pub withdrawn_addresses: Vec<u64>,
    /// Whether the withdrawal phase has been started; latched once set.
    pub withdrawal_phase_started: bool,
    /// When the next withdrawal window opens.
    pub next_withdrawal_time: u64,
    /// When withdrawals may start.
    pub withdrawal_start_time: u64,
    /// The maximum number of members.
    pub max_contributors: u64,
    /// The counter that assigns admission indices.
    pub user_index: u64,
}

impl View for State {
    type V = StateModel;

    open spec fn view(&self) -> StateModel {
        StateModel {
            name: self.name@,
            description: self.description@,
            tanda_state: self.tanda_state,
            creator: self.creator,
            members: self.members@,
            contribution_amount: self.contribution_amount,
            penalty_amount: self.penalty_amount,
            penalty_pool: self.penalty_pool,
            total_contributions: self.total_contributions,
            payout_cycle: self.payout_cycle,
            current_cycle: self.current_cycle,
            start_time: self.start_time,
            end_time: self.end_time,
            time_interval: self.time_interval,
            next_receiver: self.next_receiver,
            last_withdrawal_time: self.last_withdrawal_time,
            completed_cycles: self.completed_cycles@.map_values(|c: (u64, Vec<u64>)| (c.0, c.1@)),
            contributors: self.contributors@.to_set(),
            withdrawn_addresses: self.withdrawn_addresses@.to_set(),
            withdrawal_phase_started: self.withdrawal_phase_started,
            next_withdrawal_time: self.next_withdrawal_time,
            withdrawal_start_time: self.withdrawal_start_time,
            max_contributors: self.max_contributors,
            user_index: self.user_index,
        }
    }
}

/// Whether `acc` holds one of the member slots.
fn members_contain(members: &Vec<(u64, u64)>, acc: u64) -> (found: bool)
    ensures
        found == has_account(members@, acc),
{
    let mut i: usize = 0;
    while i < members.len()
        invariant
            i <= members@.len(),
            forall|k: int| 0 <= k < i ==> (#[trigger] members@[k]).0 != acc,
        decreases members@.len() - i,
    {
        if members[i].0 == acc {
            return true;
        }
        i = i + 1;
    }
    false
}

/// Whether `x` occurs in `v`.
fn vec_contains(v: &Vec<u64>, x: u64) -> (found: bool)
    ensures
        found == v@.contains(x),
{
    let mut i: usize = 0;
    while i < v.len()
        invariant
            i <= v@.len(),
            forall|k: int| 0 <= k < i ==> v@[k] != x,
        decreases v@.len() - i,
    {
        if v[i] == x {
            return true;
        }
        i = i + 1;
    }
    false
}

impl State {
    /// Well-formedness: the model invariant holds and the two set-like
    /// vectors carry no duplicates. Creation establishes it and every
    /// operation preserves it.
    pub open spec fn wf(self) -> bool {
        &&& self@.inv()
        &&& self.contributors@.no_duplicates()
        &&& self.withdrawn_addresses@.no_duplicates()
    }

    /// Creates a club from its parameter: open, without members, with the
    /// withdrawal start time one interval past the start time. The given
    /// account, not the one named in the parameter, becomes the creator.
    /// Fails only when the withdrawal start time would not fit in a
    /// timestamp.
    pub fn tanda_init(param: InitParameter, account: u64) -> (r: Result<State, Error>)
        ensures
            init_check(param) matches Err(e) ==> r == Err::<State, Error>(e),
            init_check(param) is Ok ==> (r matches Ok(s) && s@ == init_state(param, account)
                && s.wf()),
    {
        let ghost p = param;
        let withdrawal_start_time = match param.start_time.checked_add(param.time_interval) {
            Some(t) => t,
            None => {
                return Err(Error::InvalidState);
            },
        };
        let s = State {
            name: param.name,
            description: param.description,
            tanda_state: TandaState::Open,
            creator: account,
            members: Vec::new(),
            contribution_amount: param.contribution_amount,
            penalty_amount: param.penalty_amount,
            penalty_pool: 0,
            total_contributions: 0,
            payout_cycle: param.payout_cycle,
            current_cycle: 0,
            start_time: param.start_time,
            end_time: param.end_time,
            time_interval: param.time_interval,
            next_receiver: None,
            last_withdrawal_time: 0,
            completed_cycles: Vec::new(),
            contributors: Vec::new(),
            withdrawn_addresses: Vec::new(),
            withdrawal_phase_started: false,
            next_withdrawal_time: 0,
            withdrawal_start_time,
            max_contributors: param.max_contributors,
            user_index: 0,
        };
        proof {
            assert(s@ =~= init_state(p, account));
        }
        Ok(s)
    }

    /// Admits the caller as a member. The guards, in order, first failure
    /// wins: the club must be open, the time within the club's window,
    /// a member slot free, the caller not yet a member, the paid amount
    /// exactly the configured penalty amount — no overpay, no underpay —
    /// and the caller an individual account. On success the fee goes into
    /// the penalty pool, the fee itself staying as configured, and the
    /// caller is appended to the members under the next admission index;
    /// contributions and the pool total are untouched. On failure nothing
    /// changes.
    pub fn join_tanda(&mut self, caller: Address, paid_amount: u64, now: u64) -> (r: Result<
        (),
        Error,
    >)
        requires
            old(self).wf(),
            old(self)@.join_check(caller, paid_amount, now) is Ok ==> old(self).penalty_pool
                + paid_amount <= u64::MAX,
        ensures
            final(self).wf(),
            r == old(self)@.join_check(caller, paid_amount, now),
            r is Ok ==> final(self)@ == old(self)@.join_apply(addr_account(caller), paid_amount),
            r is Err ==> *final(self) == *old(self),
    {
        if self.tanda_state != TandaState::Open {
            return Err(Error::TandaClosed);
        }
        if self.end_time <= now {
            return Err(Error::TandaClosed);
        }
        if now < self.start_time {
            return Err(Error::NotStarted);
        }
        if self.members.len() as u64 >= self.max_contributors {
            return Err(Error::MaximumReached);
        }
        let already_member = match caller {
            Address::Account(acc) => members_contain(&self.members, acc),
            Address::Contract(_) => false,
        };
        if already_member {
            return Err(Error::AlreadyJoined);
        }
        if paid_amount != self.penalty_amount {
            return Err(Error::InvalidPenaltyAmount);
        }
        let acc = match caller {
            Address::Account(acc) => acc,
            Address::Contract(_) => {
                return Err(Error::ContractMember);
            },
        };
        let ghost pre = self@;
        self.penalty_pool = self.penalty_pool + paid_amount;
        let new_user_index = self.user_index + 1;
        self.user_index = new_user_index;
        self.members.push((acc, new_user_index));
        proof {
            assert(self@ =~= pre.join_apply(acc, paid_amount));
            crate::laws::lemma_join_preserves_inv(pre, acc, paid_amount, now);
        }
        Ok(())
    }

    /// Accepts the caller's deposit for the current round. The guards, in
    /// order: the amount must be positive and exactly the configured
    /// contribution, the time within the club's window, the club not
    /// closed, and the caller an individual account that has joined. On
    /// success the caller enters the contributor set — idempotently, so a
    /// repeated deposit is accepted again and counted again in the pool —
    /// and the pool grows by the amount. On failure nothing changes.
    pub fn contribute(&mut self, caller: Address, amount: u64, now: u64) -> (r: Result<(), Error>)
        requires
            old(self).wf(),
            old(self)@.contribute_check(caller, amount, now) is Ok ==> old(
                self,
            ).total_contributions + amount <= u64::MAX,
        ensures
            final(self).wf(),
            r == old(self)@.contribute_check(caller, amount, now),
            r is Ok ==> final(self)@ == old(self)@.contribute_apply(addr_account(caller), amount),
            r is Err ==> *final(self) == *old(self),
    {
        if amount == 0 {
            return Err(Error::InvalidContributionAmount);
        }
        if amount != self.contribution_amount {
            return Err(Error::InvalidContributionAmount);
        }
        if now < self.start_time {
            return Err(Error::NotStarted);
        }
        if now > self.end_time {
            return Err(Error::TandaClosed);
        }
        if self.tanda_state == TandaState::Closed {
            return Err(Error::TandaClosed);
        }
        let acc = match caller {
            Address::Account(acc) => acc,
            Address::Contract(_) => {
                return Err(Error::ContractMember);
            },
        };
        if !members_contain(&self.members, acc) {
            return Err(Error::NotJoined);
        }
        let ghost pre = self@;
        if !vec_contains(&self.contributors, acc) {
            self.contributors.push(acc);
            proof {
                old(self).contributors@.lemma_push_to_set_commute(acc);
            }
        } else {
            proof {
                assert(pre.contributors.insert(acc) =~= pre.contributors);
            }
        }
        self.total_contributions = self.total_contributions + amount;
        proof {
            assert(self@ =~= pre.contribute_apply(acc, amount));
        }
        Ok(())
    }

    /// Pays the whole pool out to the caller, at most once per account.
    /// The guards, in order: the club must not have ended, the cadence
    /// interval must have elapsed since the last withdrawal, the club
    /// must not be closed, and the caller must be an individual account
    /// that has joined, has contributed, and has not withdrawn before. On
    /// success the caller enters the withdrawn set, the returned
    /// instruction transfers the pool total to the caller — to be carried
    /// out by the hosting layer as one unit with this state change — and
    /// the withdrawal clock is reset to now. On failure nothing changes.
    pub fn withdraw(&mut self, caller: Address, now: u64) -> (r: Result<TransferInstruction, Error>)
        requires
            old(self).wf(),
        ensures
            final(self).wf(),
            old(self)@.withdraw_check(caller, now) matches Err(e) ==> r == Err::<
                TransferInstruction,
                Error,
            >(e),
            old(self)@.withdraw_check(caller, now) is Ok ==> r == Ok::<
                TransferInstruction,
                Error,
            >(old(self)@.withdraw_payout(addr_account(caller))),
            r is Ok ==> final(self)@ == old(self)@.withdraw_apply(addr_account(caller), now),
            r is Err ==> *final(self) == *old(self),
    {
        if now >= self.end_time {
            return Err(Error::AlreadyFinalized);
        }
        if self.last_withdrawal_time <= now && now - self.last_withdrawal_time
            < self.time_interval {
            return Err(Error::WithdrawalTimeNotReached);
        }
        if self.tanda_state == TandaState::Closed {
            return Err(Error::TandaClosed);
        }
        let acc = match caller {
            Address::Account(acc) => acc,
            Address::Contract(_) => {
                return Err(Error::ContractMember);
            },
        };
        if !members_contain(&self.members, acc) {
            return Err(Error::NotJoined);
        }
        if !vec_contains(&self.contributors, acc) {
            return Err(Error::NotContributor);
        }
        if vec_contains(&self.withdrawn_addresses, acc) {
            return Err(Error::AlreadyWithdrawn);
        }
        let ghost pre = self@;
        self.withdrawn_addresses.push(acc);
        let payout = TransferInstruction { receiver: acc, amount: self.total_contributions };
        self.last_withdrawal_time = now;
        proof {
            old(self).withdrawn_addresses@.lemma_push_to_set_commute(acc);
            assert(self@ =~= pre.withdraw_apply(acc, now));
        }
        Ok(payout)
    }

    /// Opens the withdrawal phase. The guards, in order: only the creator
    /// may call it, only once, only when every member slot has a
    /// contribution, only at or after the withdrawal start time, and only
    /// while the club is in progress. On success the phase moves to
    /// Pending, the next withdrawal window is scheduled one interval
    /// after the withdrawal start time, and the latch is set for good. On
    /// failure nothing changes.
    pub fn start_withdrawal_phase(&mut self, caller: Address, now: u64) -> (r: Result<(), Error>)
        requires
            old(self).wf(),
            old(self)@.start_withdrawal_check(caller, now) is Ok ==> old(
                self,
            ).withdrawal_start_time + old(self).time_interval <= u64::MAX,
        ensures
            final(self).wf(),
            r == old(self)@.start_withdrawal_check(caller, now),
            r is Ok ==> final(self)@ == old(self)@.start_withdrawal_apply(),
            r is Err ==> *final(self) == *old(self),
    {
        let creator_address = Address::Account(self.creator);
        if caller != creator_address {
            return Err(Error::NotAuthorized);
        }
        if self.withdrawal_phase_started {
            return Err(Error::WithdrawalPhaseAlreadyStarted);
        }
        proof {
            self.contributors@.unique_seq_to_set();
        }
        if self.contributors.len() as u64 != self.max_contributors {
            return Err(Error::ContributorsNotComplete);
        }
        if now < self.withdrawal_start_time {
            return Err(Error::WithdrawalIntervalNotReached);
        }
        if self.tanda_state != TandaState::InProgress {
            return Err(Error::InvalidState);
        }
        let ghost pre = self@;
        self.tanda_state = TandaState::Pending;
        self.next_withdrawal_time = self.withdrawal_start_time + self.time_interval;
        self.withdrawal_phase_started = true;
        proof {
            assert(self@ =~= pre.start_withdrawal_apply());
        }
        Ok(())
    }
}

} // verus!
