//! The club's laws: properties that hold across operations, stated over
//! the model and proved once and for all. Together with each operation's
//! exact contract — the result equals the check function's verdict, a
//! success leaves the apply function's state, a failure changes nothing —
//! they carry over to every executable call sequence.

use vstd::prelude::*;

use crate::errors::Error;
use crate::model::{addr_account, has_account, init_state, phase_rank, StateModel};
use crate::types::{Address, InitParameter, TandaState};

verus! {

/// In every well-formed state the membership registry is within
/// capacity, each admitted account holds at most one slot, and the
/// admission indices are unique and strictly increasing in admission
/// order. Creation establishes the invariant and every operation
/// preserves it, so this holds after any sequence of calls.
pub proof fn lemma_registry_shape(m: StateModel)
    requires
        m.inv(),
    ensures
        m.members.len() <= m.max_contributors,
        forall|i: int, j: int|
            0 <= i < j < m.members.len() ==> (#[trigger] m.members[i]).0 != (
            #[trigger] m.members[j]).0,
        forall|i: int, j: int|
            0 <= i < j < m.members.len() ==> (#[trigger] m.members[i]).1 < (
            #[trigger] m.members[j]).1,
{
}

/// Admission preserves the club invariant: the new member fits the
/// capacity freed by the guard, keeps every account unique, and takes
/// the next strictly increasing admission index.
pub proof fn lemma_join_preserves_inv(m: StateModel, acc: u64, paid: u64, now: u64)
    requires
        m.inv(),
        m.join_check(Address::Account(acc), paid, now) is Ok,
    ensures
        m.join_apply(acc, paid).inv(),
{
    let m2 = m.join_apply(acc, paid);
    assert forall|i: int, j: int| 0 <= i < j < m2.members.len() implies (
    #[trigger] m2.members[i]).0 != (#[trigger] m2.members[j]).0 by {
        if j == m2.members.len() - 1 {
            assert(m2.members[i] == m.members[i]);
            assert(!has_account(m.members, acc));
        }
    }
    assert forall|a: u64| m2.contributors.contains(a) implies has_account(m2.members, a) by {
        let i = choose|i: int| 0 <= i < m.members.len() && (#[trigger] m.members[i]).0 == a;
        assert(m2.members[i] == m.members[i]);
    }
}

/// A club is created open and empty — no members, no contributions, no
/// collected fees — with its configuration taken from the parameter and
/// the invariant holding: the base case of every law below.
pub proof fn lemma_creation_starts_empty(p: InitParameter, account: u64)
    ensures
        init_state(p, account).inv(),
        init_state(p, account).tanda_state == TandaState::Open,
        init_state(p, account).members.len() == 0,
        init_state(p, account).total_contributions == 0,
        init_state(p, account).penalty_pool == 0,
        init_state(p, account).penalty_amount == p.penalty_amount,
        init_state(p, account).contribution_amount == p.contribution_amount,
{
}

/// The configured amounts are immutable after creation: no operation's
/// successful state changes the entry fee or the contribution amount.
pub proof fn lemma_configuration_immutable(
    m: StateModel,
    acc: u64,
    paid: u64,
    amount: u64,
    now: u64,
)
    ensures
        m.join_apply(acc, paid).penalty_amount == m.penalty_amount,
        m.contribute_apply(acc, amount).penalty_amount == m.penalty_amount,
        m.withdraw_apply(acc, now).penalty_amount == m.penalty_amount,
        m.start_withdrawal_apply().penalty_amount == m.penalty_amount,
        m.join_apply(acc, paid).contribution_amount == m.contribution_amount,
        m.contribute_apply(acc, amount).contribution_amount == m.contribution_amount,
        m.withdraw_apply(acc, now).contribution_amount == m.contribution_amount,
        m.start_withdrawal_apply().contribution_amount == m.contribution_amount,
{
}

/// No join ever pushes membership past capacity, succeed or fail: a
/// rejected join leaves the state unchanged by `join_tanda`'s contract,
/// and an admitted member fills a slot the free-slot guard proved open.
pub proof fn lemma_join_capacity_bound(m: StateModel, caller: Address, paid: u64, now: u64)
    requires
        m.inv(),
    ensures
        m.members.len() <= m.max_contributors,
        m.join_check(caller, paid, now) is Ok ==> m.join_apply(
            addr_account(caller),
            paid,
        ).members.len() <= m.max_contributors,
{
}

/// Each account is admitted at most once: once the guards before it pass
/// — club open, within the window, a slot free — a join by an account
/// that already holds a slot fails as already joined, and a successful
/// admission keeps every admitted account unique.
pub proof fn lemma_join_admits_each_account_once(m: StateModel, acc: u64, paid: u64, now: u64)
    requires
        m.inv(),
    ensures
        (m.tanda_state == TandaState::Open && now < m.end_time && m.start_time <= now
            && m.members.len() < m.max_contributors && has_account(m.members, acc))
            ==> m.join_check(Address::Account(acc), paid, now) == Err::<(), Error>(
            Error::AlreadyJoined,
        ),
        m.join_check(Address::Account(acc), paid, now) is Ok ==> forall|i: int, j: int|
            0 <= i < j < m.join_apply(acc, paid).members.len() ==> (#[trigger] m.join_apply(
                acc,
                paid,
            ).members[i]).0 != (#[trigger] m.join_apply(acc, paid).members[j]).0,
{
    if m.join_check(Address::Account(acc), paid, now) is Ok {
        lemma_join_preserves_inv(m, acc, paid, now);
    }
}

/// A successful admission appends exactly one member, under the stepped
/// counter as its index, strictly above every index already assigned;
/// the indices stay unique and strictly increasing in admission order.
pub proof fn lemma_join_assigns_next_index(m: StateModel, acc: u64, paid: u64, now: u64)
    requires
        m.inv(),
        m.join_check(Address::Account(acc), paid, now) is Ok,
    ensures
        ({
            let m2 = m.join_apply(acc, paid);
            &&& m2.members.len() == m.members.len() + 1
            &&& m2.user_index == m.user_index + 1
            &&& m2.members.last() == (acc, m2.user_index)
            &&& forall|i: int|
                0 <= i < m.members.len() ==> (#[trigger] m.members[i]).1 < m2.user_index
            &&& forall|i: int, j: int|
                0 <= i < j < m2.members.len() ==> (#[trigger] m2.members[i]).1 < (
                #[trigger] m2.members[j]).1
        }),
{
    lemma_join_preserves_inv(m, acc, paid, now);
}

/// In every well-formed state the ledger inclusions hold: only admitted
/// members have contributed, and only contributors have withdrawn.
pub proof fn lemma_ledger_inclusions(m: StateModel)
    requires
        m.inv(),
    ensures
        forall|a: u64| m.contributors.contains(a) ==> has_account(m.members, a),
        forall|a: u64| m.withdrawn_addresses.contains(a) ==> m.contributors.contains(a),
{
}

/// A join that pays anything other than the configured penalty amount —
/// an overpay as much as an underpay — is rejected, whatever else holds;
/// by `join_tanda`'s contract a rejected join leaves the state unchanged.
pub proof fn lemma_join_wrong_penalty_rejected(m: StateModel, caller: Address, paid: u64, now: u64)
    requires
        paid != m.penalty_amount,
    ensures
        m.join_check(caller, paid, now) is Err,
{
}

/// A contribution is accepted only when it is exactly the configured
/// contribution amount, and that amount is positive.
pub proof fn lemma_contribute_needs_exact_amount(
    m: StateModel,
    caller: Address,
    amount: u64,
    now: u64,
)
    requires
        m.contribute_check(caller, amount, now) is Ok,
    ensures
        amount == m.contribution_amount,
        amount > 0,
{
}

/// Accepted contributions accumulate exactly: when the pool holds the
/// worth of `n` accepted contributions, one more accepted contribution
/// makes it the worth of `n + 1`. By induction from the zero the club is
/// created with, the pool after `n` accepted contributions is always
/// `n` times the configured amount.
pub proof fn lemma_contribution_total_accumulates(
    m: StateModel,
    caller: Address,
    amount: u64,
    now: u64,
    n: nat,
)
    requires
        m.contribute_check(caller, amount, now) is Ok,
        m.total_contributions == n * m.contribution_amount,
        m.total_contributions + amount <= u64::MAX,
    ensures
        m.contribute_apply(addr_account(caller), amount).total_contributions == (n + 1)
            * m.contribution_amount,
{
    assert((n + 1) * m.contribution_amount == n * m.contribution_amount + m.contribution_amount)
        by (nonlinear_arith);
}

/// The pool never shrinks: an accepted deposit grows it by exactly the
/// deposited amount, and a rejected call changes nothing at all by
/// `contribute`'s contract.
pub proof fn lemma_pool_never_decreases(m: StateModel, acc: u64, amount: u64)
    requires
        m.total_contributions + amount <= u64::MAX,
    ensures
        m.contribute_apply(acc, amount).total_contributions == m.total_contributions + amount,
        m.contribute_apply(acc, amount).total_contributions >= m.total_contributions,
{
}

/// A withdrawal succeeds at most once per account: after one success,
/// any further withdrawal attempt by the same account fails, whatever
/// the time of the second call.
pub proof fn lemma_withdraw_at_most_once(m: StateModel, acc: u64, now: u64, now2: u64)
    requires
        m.withdraw_check(Address::Account(acc), now) is Ok,
    ensures
        m.withdraw_apply(acc, now).withdraw_check(Address::Account(acc), now2) is Err,
{
}

/// When the second attempt gets past the temporal gates — before the
/// club's end, one cadence interval or more after the first success —
/// the failure is the already-withdrawn error itself.
pub proof fn lemma_second_withdraw_already_withdrawn(m: StateModel, acc: u64, now: u64, now2: u64)
    requires
        m.withdraw_check(Address::Account(acc), now) is Ok,
        now2 < m.end_time,
        now + m.time_interval <= now2,
    ensures
        m.withdraw_apply(acc, now).withdraw_check(Address::Account(acc), now2) == Err::<
            (),
            Error,
        >(Error::AlreadyWithdrawn),
{
}

/// Only the creator can open the withdrawal phase: any other caller gets
/// the authorization error, and by `start_withdrawal_phase`'s contract
/// the state is unchanged.
pub proof fn lemma_start_needs_creator(m: StateModel, caller: Address, now: u64)
    requires
        caller != Address::Account(m.creator),
    ensures
        m.start_withdrawal_check(caller, now) == Err::<(), Error>(Error::NotAuthorized),
{
}

/// Opening the withdrawal phase is a one-shot latch: after one success
/// it fails for every caller ever after, and for the creator the failure
/// is the already-started error.
pub proof fn lemma_start_latches(m: StateModel, caller: Address, now: u64, caller2: Address, now2: u64)
    requires
        m.start_withdrawal_check(caller, now) is Ok,
    ensures
        m.start_withdrawal_apply().start_withdrawal_check(caller2, now2) is Err,
        caller2 == Address::Account(m.creator)
            ==> m.start_withdrawal_apply().start_withdrawal_check(caller2, now2) == Err::<
            (),
            Error,
        >(Error::WithdrawalPhaseAlreadyStarted),
{
}

/// Once the withdrawal-phase latch is set, no operation's successful
/// state ever clears it again.
pub proof fn lemma_latch_never_reverts(m: StateModel, acc: u64, paid: u64, amount: u64, now: u64)
    requires
        m.withdrawal_phase_started,
    ensures
        m.join_apply(acc, paid).withdrawal_phase_started,
        m.contribute_apply(acc, amount).withdrawal_phase_started,
        m.withdraw_apply(acc, now).withdrawal_phase_started,
        m.start_withdrawal_apply().withdrawal_phase_started,
{
}

/// The phase never moves backward: joining, contributing and withdrawing
/// leave it alone, and a permitted phase start moves it strictly forward
/// along the lifecycle.
pub proof fn lemma_phase_never_moves_backward(
    m: StateModel,
    caller: Address,
    acc: u64,
    paid: u64,
    amount: u64,
    now: u64,
)
    ensures
        m.join_apply(acc, paid).tanda_state == m.tanda_state,
        m.contribute_apply(acc, amount).tanda_state == m.tanda_state,
        m.withdraw_apply(acc, now).tanda_state == m.tanda_state,
        m.start_withdrawal_check(caller, now) is Ok ==> phase_rank(
            m.start_withdrawal_apply().tanda_state,
        ) > phase_rank(m.tanda_state),
{
    if m.start_withdrawal_check(caller, now) is Ok {
        assert(m.tanda_state == TandaState::InProgress);
    }
}

} // verus!
