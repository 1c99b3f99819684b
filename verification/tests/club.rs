//! The club lifecycle end to end: creation, admission, contribution,
//! phase start and withdrawal, with the exact values each step leaves
//! behind.

use dthrift::errors::Error;
use dthrift::state::State;
use dthrift::types::{Address, InitParameter, TandaState, TransferInstruction};

// Standard club used by most tests: starts at 1000, ends at 1_000_000,
// contribution 100, penalty 50, cadence interval 100, created by account 7.
fn fresh_club(max_contributors: u64) -> State {
    let param = InitParameter {
        name: String::from("savings circle"),
        description: String::from("a small rotating savings club"),
        creator: 9,
        contribution_amount: 100,
        payout_cycle: 3,
        start_time: 1000,
        end_time: 1_000_000,
        time_interval: 100,
        penalty_amount: 50,
        max_contributors,
    };
    State::tanda_init(param, 7).unwrap()
}

// A club of the given capacity whose members 1..=n have all joined and
// contributed, moved to InProgress so the withdrawal phase can start.
fn contributed_club(n: u64) -> State {
    let mut s = fresh_club(n);
    for acc in 1..=n {
        let penalty = s.penalty_amount;
        assert_eq!(s.join_tanda(Address::Account(acc), penalty, 1000), Ok(()));
        assert_eq!(s.contribute(Address::Account(acc), 100, 1001), Ok(()));
    }
    s.tanda_state = TandaState::InProgress;
    s
}

#[test]
fn init_sets_up_open_club() {
    let s = fresh_club(2);
    assert_eq!(s.tanda_state, TandaState::Open);
    assert_eq!(s.creator, 7);
    assert_eq!(s.name, "savings circle");
    assert_eq!(s.members, Vec::<(u64, u64)>::new());
    assert_eq!(s.contribution_amount, 100);
    assert_eq!(s.penalty_amount, 50);
    assert_eq!(s.penalty_pool, 0);
    assert_eq!(s.total_contributions, 0);
    assert_eq!(s.start_time, 1000);
    assert_eq!(s.end_time, 1_000_000);
    assert_eq!(s.withdrawal_start_time, 1100);
    assert_eq!(s.next_withdrawal_time, 0);
    assert_eq!(s.last_withdrawal_time, 0);
    assert!(!s.withdrawal_phase_started);
    assert_eq!(s.max_contributors, 2);
    assert_eq!(s.user_index, 0);
    assert!(s.contributors.is_empty());
    assert!(s.withdrawn_addresses.is_empty());
}

#[test]
fn init_rejects_overflowing_withdrawal_start() {
    let param = InitParameter {
        name: String::from("late club"),
        description: String::new(),
        creator: 9,
        contribution_amount: 100,
        payout_cycle: 3,
        start_time: u64::MAX,
        end_time: u64::MAX,
        time_interval: 1,
        penalty_amount: 50,
        max_contributors: 2,
    };
    assert_eq!(State::tanda_init(param, 7).unwrap_err(), Error::InvalidState);
}

#[test]
fn join_assigns_strictly_increasing_indices() {
    let mut s = fresh_club(3);
    assert_eq!(s.join_tanda(Address::Account(11), 50, 1000), Ok(()));
    assert_eq!(s.join_tanda(Address::Account(22), 50, 1500), Ok(()));
    assert_eq!(s.join_tanda(Address::Account(33), 50, 2000), Ok(()));
    assert_eq!(s.members, vec![(11, 1), (22, 2), (33, 3)]);
    assert_eq!(s.user_index, 3);
    assert_eq!(s.total_contributions, 0);
    assert!(s.contributors.is_empty());
}

#[test]
fn join_collects_fee_into_penalty_pool() {
    let mut s = fresh_club(3);
    assert_eq!(s.join_tanda(Address::Account(1), 50, 1000), Ok(()));
    assert_eq!(s.penalty_amount, 50);
    assert_eq!(s.penalty_pool, 50);
    // The fee stays as configured; an overpay is rejected like an underpay.
    assert_eq!(
        s.join_tanda(Address::Account(2), 100, 1000),
        Err(Error::InvalidPenaltyAmount)
    );
    assert_eq!(s.join_tanda(Address::Account(2), 50, 1000), Ok(()));
    assert_eq!(s.penalty_amount, 50);
    assert_eq!(s.penalty_pool, 100);
}

#[test]
fn join_wrong_penalty_fails_without_state_change() {
    let mut s = fresh_club(2);
    let before_members = s.members.clone();
    let before_penalty = s.penalty_amount;
    assert_eq!(
        s.join_tanda(Address::Account(1), 49, 1000),
        Err(Error::InvalidPenaltyAmount)
    );
    assert_eq!(
        s.join_tanda(Address::Account(1), 51, 1000),
        Err(Error::InvalidPenaltyAmount)
    );
    assert_eq!(s.members, before_members);
    assert_eq!(s.penalty_amount, before_penalty);
    assert_eq!(s.penalty_pool, 0);
    assert_eq!(s.user_index, 0);
}

#[test]
fn join_twice_rejected() {
    let mut s = fresh_club(3);
    assert_eq!(s.join_tanda(Address::Account(1), 50, 1000), Ok(()));
    assert_eq!(
        s.join_tanda(Address::Account(1), 50, 1000),
        Err(Error::AlreadyJoined)
    );
    assert_eq!(s.members, vec![(1, 1)]);
}

#[test]
fn join_beyond_capacity_rejected() {
    let mut s = fresh_club(1);
    assert_eq!(s.join_tanda(Address::Account(1), 50, 1000), Ok(()));
    assert_eq!(
        s.join_tanda(Address::Account(2), 50, 1000),
        Err(Error::MaximumReached)
    );
    assert_eq!(s.members, vec![(1, 1)]);
}

#[test]
fn join_respects_time_window() {
    let mut s = fresh_club(2);
    assert_eq!(
        s.join_tanda(Address::Account(1), 50, 999),
        Err(Error::NotStarted)
    );
    // The window is closed at the end time itself.
    assert_eq!(
        s.join_tanda(Address::Account(1), 50, 1_000_000),
        Err(Error::TandaClosed)
    );
    assert_eq!(s.join_tanda(Address::Account(1), 50, 1000), Ok(()));
}

#[test]
fn join_closed_club_rejected() {
    let mut s = fresh_club(2);
    s.tanda_state = TandaState::Closed;
    assert_eq!(
        s.join_tanda(Address::Account(1), 50, 1000),
        Err(Error::TandaClosed)
    );
    assert!(s.members.is_empty());
}

#[test]
fn join_by_contract_identity_rejected() {
    let mut s = fresh_club(2);
    assert_eq!(
        s.join_tanda(Address::Contract(5), 50, 1000),
        Err(Error::ContractMember)
    );
    assert!(s.members.is_empty());
    assert_eq!(s.penalty_amount, 50);
}

#[test]
fn contribute_requires_exact_positive_amount() {
    let mut s = fresh_club(2);
    assert_eq!(s.join_tanda(Address::Account(1), 50, 1000), Ok(()));
    assert_eq!(
        s.contribute(Address::Account(1), 0, 1000),
        Err(Error::InvalidContributionAmount)
    );
    assert_eq!(
        s.contribute(Address::Account(1), 99, 1000),
        Err(Error::InvalidContributionAmount)
    );
    assert_eq!(
        s.contribute(Address::Account(1), 101, 1000),
        Err(Error::InvalidContributionAmount)
    );
    assert_eq!(s.total_contributions, 0);
    assert!(s.contributors.is_empty());
    assert_eq!(s.contribute(Address::Account(1), 100, 1000), Ok(()));
    assert_eq!(s.total_contributions, 100);
    assert_eq!(s.contributors, vec![1]);
}

#[test]
fn contributions_accumulate_exactly() {
    let mut s = fresh_club(3);
    for acc in [1, 2, 3] {
        let penalty = s.penalty_amount;
        assert_eq!(s.join_tanda(Address::Account(acc), penalty, 1000), Ok(()));
    }
    assert_eq!(s.contribute(Address::Account(1), 100, 1000), Ok(()));
    assert_eq!(s.contribute(Address::Account(2), 100, 1000), Ok(()));
    assert_eq!(s.contribute(Address::Account(3), 100, 1000), Ok(()));
    // Three accepted contributions: exactly three times the configured amount.
    assert_eq!(s.total_contributions, 300);
    assert_eq!(s.contributors, vec![1, 2, 3]);
}

#[test]
fn repeated_contribution_counts_again_in_the_pool() {
    // Set insertion is idempotent, but the deposit is accepted and added
    // to the pool again; nothing in this operation rejects a repeat.
    let mut s = fresh_club(2);
    assert_eq!(s.join_tanda(Address::Account(1), 50, 1000), Ok(()));
    assert_eq!(s.contribute(Address::Account(1), 100, 1000), Ok(()));
    assert_eq!(s.contribute(Address::Account(1), 100, 1001), Ok(()));
    assert_eq!(s.total_contributions, 200);
    assert_eq!(s.contributors, vec![1]);
}

#[test]
fn contribute_respects_time_window() {
    let mut s = fresh_club(2);
    assert_eq!(s.join_tanda(Address::Account(1), 50, 1000), Ok(()));
    assert_eq!(
        s.contribute(Address::Account(1), 100, 999),
        Err(Error::NotStarted)
    );
    assert_eq!(
        s.contribute(Address::Account(1), 100, 1_000_001),
        Err(Error::TandaClosed)
    );
    // The end time itself is still within the contribution window.
    assert_eq!(s.contribute(Address::Account(1), 100, 1_000_000), Ok(()));
}

#[test]
fn contribute_closed_club_rejected() {
    let mut s = fresh_club(2);
    assert_eq!(s.join_tanda(Address::Account(1), 50, 1000), Ok(()));
    s.tanda_state = TandaState::Closed;
    assert_eq!(
        s.contribute(Address::Account(1), 100, 1000),
        Err(Error::TandaClosed)
    );
    assert_eq!(s.total_contributions, 0);
}

#[test]
fn contribute_requires_membership() {
    let mut s = fresh_club(2);
    assert_eq!(
        s.contribute(Address::Account(1), 100, 1000),
        Err(Error::NotJoined)
    );
    assert_eq!(
        s.contribute(Address::Contract(5), 100, 1000),
        Err(Error::ContractMember)
    );
    assert_eq!(s.total_contributions, 0);
    assert!(s.contributors.is_empty());
}

#[test]
fn start_withdrawal_phase_requires_creator() {
    let mut s = contributed_club(2);
    assert_eq!(
        s.start_withdrawal_phase(Address::Account(8), 1100),
        Err(Error::NotAuthorized)
    );
    assert_eq!(
        s.start_withdrawal_phase(Address::Contract(7), 1100),
        Err(Error::NotAuthorized)
    );
    assert!(!s.withdrawal_phase_started);
    assert_eq!(s.tanda_state, TandaState::InProgress);
}

#[test]
fn start_withdrawal_phase_is_a_one_shot_latch() {
    let mut s = contributed_club(2);
    assert_eq!(s.start_withdrawal_phase(Address::Account(7), 1100), Ok(()));
    assert!(s.withdrawal_phase_started);
    assert_eq!(
        s.start_withdrawal_phase(Address::Account(7), 2000),
        Err(Error::WithdrawalPhaseAlreadyStarted)
    );
}

#[test]
fn start_withdrawal_phase_needs_full_contribution() {
    let mut s = fresh_club(2);
    assert_eq!(s.join_tanda(Address::Account(1), 50, 1000), Ok(()));
    assert_eq!(s.contribute(Address::Account(1), 100, 1001), Ok(()));
    s.tanda_state = TandaState::InProgress;
    assert_eq!(
        s.start_withdrawal_phase(Address::Account(7), 1100),
        Err(Error::ContributorsNotComplete)
    );
}

#[test]
fn start_withdrawal_phase_respects_start_time() {
    let mut s = contributed_club(2);
    assert_eq!(
        s.start_withdrawal_phase(Address::Account(7), 1099),
        Err(Error::WithdrawalIntervalNotReached)
    );
    assert_eq!(s.start_withdrawal_phase(Address::Account(7), 1100), Ok(()));
}

#[test]
fn start_withdrawal_phase_needs_in_progress_club() {
    let mut s = contributed_club(2);
    s.tanda_state = TandaState::Open;
    assert_eq!(
        s.start_withdrawal_phase(Address::Account(7), 1100),
        Err(Error::InvalidState)
    );
    s.tanda_state = TandaState::Pending;
    assert_eq!(
        s.start_withdrawal_phase(Address::Account(7), 1100),
        Err(Error::InvalidState)
    );
}

#[test]
fn start_withdrawal_phase_schedules_next_window() {
    let mut s = contributed_club(2);
    assert_eq!(s.start_withdrawal_phase(Address::Account(7), 1200), Ok(()));
    assert_eq!(s.tanda_state, TandaState::Pending);
    // One interval past the withdrawal start time, not past `now`.
    assert_eq!(s.next_withdrawal_time, 1200);
    assert!(s.withdrawal_phase_started);
}

#[test]
fn full_lifecycle_pays_the_pool_once_per_member() {
    let mut s = fresh_club(2);
    assert_eq!(s.join_tanda(Address::Account(1), 50, 1000), Ok(()));
    assert_eq!(s.join_tanda(Address::Account(2), 50, 1001), Ok(()));
    assert_eq!(s.contribute(Address::Account(1), 100, 1002), Ok(()));
    assert_eq!(s.contribute(Address::Account(2), 100, 1003), Ok(()));
    s.tanda_state = TandaState::InProgress;
    assert_eq!(s.start_withdrawal_phase(Address::Account(7), 1100), Ok(()));
    assert_eq!(s.tanda_state, TandaState::Pending);
    assert_eq!(s.total_contributions, 200);
    assert_eq!(
        s.withdraw(Address::Account(1), 1200),
        Ok(TransferInstruction { receiver: 1, amount: 200 })
    );
    assert_eq!(s.withdrawn_addresses, vec![1]);
    assert_eq!(s.last_withdrawal_time, 1200);
    assert_eq!(
        s.withdraw(Address::Account(1), 1300),
        Err(Error::AlreadyWithdrawn)
    );
    assert_eq!(s.withdrawn_addresses, vec![1]);
    // The other member can still claim, one cadence interval later.
    assert_eq!(
        s.withdraw(Address::Account(2), 1300),
        Ok(TransferInstruction { receiver: 2, amount: 200 })
    );
}

#[test]
fn withdraw_again_within_interval_hits_cadence_gate() {
    let mut s = contributed_club(2);
    assert_eq!(s.start_withdrawal_phase(Address::Account(7), 1100), Ok(()));
    assert_eq!(
        s.withdraw(Address::Account(1), 1200),
        Ok(TransferInstruction { receiver: 1, amount: 200 })
    );
    assert_eq!(
        s.withdraw(Address::Account(1), 1250),
        Err(Error::WithdrawalTimeNotReached)
    );
    assert_eq!(
        s.withdraw(Address::Account(2), 1299),
        Err(Error::WithdrawalTimeNotReached)
    );
    assert_eq!(
        s.withdraw(Address::Account(2), 1300),
        Ok(TransferInstruction { receiver: 2, amount: 200 })
    );
}

#[test]
fn withdraw_after_end_time_is_finalized() {
    let mut s = contributed_club(2);
    assert_eq!(s.start_withdrawal_phase(Address::Account(7), 1100), Ok(()));
    assert_eq!(
        s.withdraw(Address::Account(1), 1_000_000),
        Err(Error::AlreadyFinalized)
    );
    assert!(s.withdrawn_addresses.is_empty());
}

#[test]
fn withdraw_from_closed_club_rejected() {
    let mut s = contributed_club(2);
    s.tanda_state = TandaState::Closed;
    assert_eq!(
        s.withdraw(Address::Account(1), 1200),
        Err(Error::TandaClosed)
    );
}

#[test]
fn withdraw_requires_membership_and_contribution() {
    let mut s = fresh_club(3);
    assert_eq!(s.join_tanda(Address::Account(1), 50, 1000), Ok(()));
    assert_eq!(s.join_tanda(Address::Account(2), 50, 1000), Ok(()));
    assert_eq!(s.contribute(Address::Account(1), 100, 1001), Ok(()));
    assert_eq!(
        s.withdraw(Address::Account(9), 1200),
        Err(Error::NotJoined)
    );
    assert_eq!(
        s.withdraw(Address::Account(2), 1200),
        Err(Error::NotContributor)
    );
    assert_eq!(
        s.withdraw(Address::Contract(1), 1200),
        Err(Error::ContractMember)
    );
    assert!(s.withdrawn_addresses.is_empty());
}

#[test]
fn withdraw_failure_leaves_state_unchanged() {
    let mut s = contributed_club(2);
    assert_eq!(s.start_withdrawal_phase(Address::Account(7), 1100), Ok(()));
    let members_before = s.members.clone();
    let total_before = s.total_contributions;
    // The withdrawal clock starts at zero, so only a very early call
    // can trip the cadence gate before the first successful withdrawal.
    assert_eq!(
        s.withdraw(Address::Account(1), 50),
        Err(Error::WithdrawalTimeNotReached)
    );
    assert_eq!(s.members, members_before);
    assert_eq!(s.total_contributions, total_before);
    assert!(s.withdrawn_addresses.is_empty());
    assert_eq!(s.last_withdrawal_time, 0);
}
