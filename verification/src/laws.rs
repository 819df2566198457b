//! What holds of the breaker across operations.
use vstd::prelude::*;
use crate::model::{Call, CircuitBreakerView};
use crate::rules::{
    deadline, expired, mutations_allowed, reads_allowed, writes_allowed,
};
use crate::types::{holds_address, Address, CircuitBreakerState, Error, PauseLevel, PauseReason};

verus! {

/// The levels are nested: whatever lets writes through lets mutations
/// through, and whatever lets mutations through lets reads through.  An
/// unpaused breaker, or one paused at Advisory level, blocks nothing.
pub proof fn law_levels_nested(s: CircuitBreakerState)
    ensures
        writes_allowed(s) ==> mutations_allowed(s),
        mutations_allowed(s) ==> reads_allowed(s),
        !s.is_paused ==> writes_allowed(s) && mutations_allowed(s) && reads_allowed(s),
        s.level == PauseLevel::Advisory ==> writes_allowed(s) && mutations_allowed(s) && reads_allowed(s),
{
}

/// What each level blocks while the breaker is paused: Partial blocks
/// writes only, Full blocks writes and mutations, Emergency blocks
/// everything.
pub proof fn law_level_table(s: CircuitBreakerState)
    requires
        s.is_paused,
    ensures
        s.level == PauseLevel::Partial ==> !writes_allowed(s) && mutations_allowed(s) && reads_allowed(s),
        s.level == PauseLevel::Full ==> !writes_allowed(s) && !mutations_allowed(s) && reads_allowed(s),
        s.level == PauseLevel::Emergency ==> !writes_allowed(s) && !mutations_allowed(s) && !reads_allowed(s),
{
}

/// A deadline of `0` never passes, and a deadline set `d > 0` seconds
/// after `now` still holds up to and at `now + d` and has passed once the
/// clock exceeds it.
pub proof fn law_deadline(now: u64, duration_secs: u64, t: u64)
    requires
        duration_secs == 0 || now + duration_secs <= u64::MAX,
    ensures
        duration_secs == 0 ==> !expired(deadline(now, duration_secs), t),
        duration_secs != 0 ==> (expired(deadline(now, duration_secs), t) <==> t > now + duration_secs),
{
}

/// Only guardians pause or propose, execute and approve proposals; only
/// the administrator manages guardians and lifts pauses.
pub proof fn law_authority(
    v: CircuitBreakerView,
    caller: Address,
    other: Address,
    description: Seq<u8>,
    duration_secs: u64,
    required_approvals: u32,
    approval_id: u64,
    now: u64,
)
    ensures
        v.instant_pause_error(caller, description, duration_secs) is None ==> v.is_guardian(caller),
        v.propose_pause_error(caller, description, duration_secs, required_approvals) is None ==> v.is_guardian(caller),
        v.approve_error(caller, approval_id, now) is None ==> v.is_guardian(caller),
        v.execute_error(caller, approval_id, duration_secs, now) is None ==> v.is_guardian(caller),
        v.add_guardian_error(caller, other) is None ==> v.admin is Some && v.admin.unwrap()@ == caller@,
        v.remove_guardian_error(caller, other) is None ==> v.admin is Some && v.admin.unwrap()@ == caller@,
        v.lift_error(caller) is None ==> v.admin is Some && v.admin.unwrap()@ == caller@,
{
}

/// The breaker can be initialised only once.
pub proof fn law_initialize_once(
    v: CircuitBreakerView,
    admin: Address,
    guardians: Seq<Address>,
    admin2: Address,
    guardians2: Seq<Address>,
)
    requires
        v.initialize_error(admin, guardians) is None,
    ensures
        v.after_initialize(admin, guardians).initialize_error(admin2, guardians2)
            == Some(Error::CircuitBreakerAlreadyInitialized),
{
}

/// Adding a guardian and then removing it leaves the guardians as they were.
pub proof fn law_add_then_remove_guardian(v: CircuitBreakerView, caller: Address, guardian: Address)
    requires
        v.wf(),
        v.add_guardian_error(caller, guardian) is None,
    ensures
        v.after_add_guardian(guardian).is_guardian(guardian),
        v.after_add_guardian(guardian).remove_guardian_error(caller, guardian) is None,
        v.after_add_guardian(guardian).after_remove_guardian(guardian).guardians == v.guardians,
        !v.after_add_guardian(guardian).after_remove_guardian(guardian).is_guardian(guardian),
{
    let w = v.after_add_guardian(guardian);
    let n = v.guardians.len() as int;
    assert(w.guardians[n]@ == guardian@);
    let j = crate::model::first_index_of(w.guardians, guardian);
    assert(0 <= j < w.guardians.len() && w.guardians[j]@ == guardian@);
    if j < n {
        assert(v.guardians[j]@ == guardian@);
        assert(holds_address(v.guardians, guardian));
    }
    assert(j == n);
    assert(w.guardians.remove(j) =~= v.guardians);
}

/// A pause takes effect at once: up to and at its deadline (forever when its
/// duration is `0`) the live state is paused at the requested level and
/// points at the new record, which holds what was asked for and is not
/// lifted.
pub proof fn law_pause_takes_effect(
    v: CircuitBreakerView,
    by: Address,
    level: PauseLevel,
    reason: PauseReason,
    description: Seq<u8>,
    duration_secs: u64,
    now: u64,
    t: u64,
)
    requires
        v.wf(),
        v.pause_fits(duration_secs, now),
        duration_secs == 0 || t <= now + duration_secs,
    ensures
        ({
            let id = (v.last_record_id + 1) as u64;
            let w = v.after_pause(by, level, reason, description, duration_secs, now);
            &&& w.settled(t) == w
            &&& w.state.is_paused
            &&& w.state.level == level
            &&& w.state.current_record_id == id
            &&& w.has_record(id)
            &&& w.record(id).record_id == id
            &&& w.record(id).activated_by == by
            &&& w.record(id).level == level
            &&& w.record(id).reason == reason
            &&& w.record(id).description == description
            &&& w.record(id).activated_at == now
            &&& w.record(id).lifted_at == 0
            &&& w.record(id).lifted_by.len() == 0
            &&& w.state.paused_at == now
            &&& (duration_secs == 0 ==> w.state.expires_at == 0 && w.record(id).expires_at == 0)
            &&& (duration_secs != 0 ==> w.state.expires_at == now + duration_secs
                && w.record(id).expires_at == now + duration_secs)
            &&& forall|j: u64| 1 <= j <= v.records.len() ==> #[trigger] w.record(j) == v.record(j)
        }),
{
    let w = v.after_pause(by, level, reason, description, duration_secs, now);
    assert forall|j: u64| 1 <= j <= v.records.len() implies #[trigger] w.record(j) == v.record(j) by {
        assert(w.records[j - 1] == v.records[j - 1]);
    }
}

/// A pause with a non-zero duration lapses once the clock exceeds its
/// deadline: from then on the live state is unpaused, nothing is blocked, and the record notes the
/// time at which the lapse was observed.
pub proof fn law_pause_lapses(
    v: CircuitBreakerView,
    by: Address,
    level: PauseLevel,
    reason: PauseReason,
    description: Seq<u8>,
    duration_secs: u64,
    now: u64,
    t: u64,
)
    requires
        v.wf(),
        v.pause_fits(duration_secs, now),
        duration_secs != 0,
        t > now + duration_secs,
    ensures
        ({
            let id = (v.last_record_id + 1) as u64;
            let s = v.after_pause(by, level, reason, description, duration_secs, now).settled(t);
            &&& !s.state.is_paused
            &&& s.state.current_record_id == id
            &&& writes_allowed(s.state) && mutations_allowed(s.state) && reads_allowed(s.state)
            &&& s.record(id).lifted_at == t
            &&& s.record(id).lifted_by.len() == 0
        }),
{
}

/// Ending a lapsed pause is done once: settling twice at the same time is
/// settling once.
pub proof fn law_settle_idempotent(v: CircuitBreakerView, t: u64)
    requires
        v.wf(),
    ensures
        v.settled(t).settled(t) == v.settled(t),
{
}

/// Lifting ends the pause: the breaker is unpaused and blocks nothing at
/// any later time, and the record notes when and by whom it was lifted.
pub proof fn law_lift_ends_pause(v: CircuitBreakerView, caller: Address, now: u64, t: u64)
    requires
        v.wf(),
        v.lift_error(caller) is None,
    ensures
        ({
            let id = v.state.current_record_id;
            let w = v.after_lift(caller, now);
            &&& !w.state.is_paused
            &&& w.settled(t) == w
            &&& writes_allowed(w.state) && mutations_allowed(w.state) && reads_allowed(w.state)
            &&& w.has_record(id)
            &&& w.record(id).lifted_at == now
            &&& w.record(id).lifted_by == v.record(id).lifted_by.push(caller)
            &&& w.lift_error(caller) == Some(Error::ContractNotPaused)
            &&& w.state.current_record_id == id
            &&& w.state.paused_at == v.state.paused_at
            &&& w.state.level == PauseLevel::Advisory
            &&& w.state.expires_at == 0
            &&& w.record(id).level == v.record(id).level
            &&& w.record(id).activated_by == v.record(id).activated_by
            &&& w.record(id).activated_at == v.record(id).activated_at
            &&& w.record(id).expires_at == v.record(id).expires_at
            &&& w.records.len() == v.records.len()
            &&& w.guardians == v.guardians && w.admin == v.admin && w.approvals == v.approvals
        }),
{
}

/// A pause lifted by the administrator carries exactly that lift: its
/// record lists the administrator alone as the one who lifted it.
pub proof fn law_pause_then_lift(
    v: CircuitBreakerView,
    by: Address,
    level: PauseLevel,
    reason: PauseReason,
    description: Seq<u8>,
    duration_secs: u64,
    now: u64,
    admin: Address,
    later: u64,
)
    requires
        v.wf(),
        v.pause_fits(duration_secs, now),
        v.admin is Some,
        v.admin.unwrap()@ == admin@,
    ensures
        ({
            let id = (v.last_record_id + 1) as u64;
            let w = v.after_pause(by, level, reason, description, duration_secs, now);
            &&& w.lift_error(admin) is None
            &&& w.after_lift(admin, later).record(id).lifted_by == seq![admin]
            &&& w.after_lift(admin, later).record(id).lifted_at == later
            &&& !w.after_lift(admin, later).state.is_paused
        }),
{
    let id = (v.last_record_id + 1) as u64;
    let w = v.after_pause(by, level, reason, description, duration_secs, now);
    assert(w.record(id).lifted_by.push(admin) =~= seq![admin]);
}

/// A new proposal holds the proposer's vote and nothing else; when one
/// vote is enough, any guardian can execute it at once.
pub proof fn law_proposer_vote_counts(
    v: CircuitBreakerView,
    proposer: Address,
    level: PauseLevel,
    reason: PauseReason,
    description: Seq<u8>,
    pause_duration_secs: u64,
    required_approvals: u32,
    approval_window_secs: u64,
    now: u64,
    executor: Address,
    duration_secs: u64,
)
    requires
        v.wf(),
        v.propose_pause_error(proposer, description, pause_duration_secs, required_approvals) is None,
        v.proposal_fits(approval_window_secs, now),
    ensures
        ({
            let id = (v.last_approval_id + 1) as u64;
            let w = v.after_propose_pause(
                proposer,
                level,
                reason,
                description,
                required_approvals,
                approval_window_secs,
                now,
            );
            &&& w.has_approval(id)
            &&& w.approval(id).approvals == seq![proposer]
            &&& w.approval(id).required_approvals == required_approvals
            &&& !w.approval(id).executed
            &&& (required_approvals == 1 && v.is_guardian(executor) && crate::rules::duration_ok(duration_secs))
                ==> w.execute_error(executor, id, duration_secs, now) is None
        }),
{
}

/// No guardian votes twice for a proposal.
pub proof fn law_no_double_vote(v: CircuitBreakerView, approver: Address, approval_id: u64, now: u64)
    requires
        v.wf(),
        v.approve_error(approver, approval_id, now) is None,
    ensures
        v.after_approve(approver, approval_id).approve_error(approver, approval_id, now)
            == Some(Error::ApprovalAlreadyVoted),
        v.after_approve(approver, approval_id).approval(approval_id).approvals.len()
            == v.approval(approval_id).approvals.len() + 1,
{
    let w = v.after_approve(approver, approval_id);
    let s = w.approval(approval_id).approvals;
    assert(s[s.len() - 1]@ == approver@);
}

/// A proposal is executed at most once: afterwards no guardian can execute
/// it or vote for it again.
pub proof fn law_execute_once(
    v: CircuitBreakerView,
    executor: Address,
    approval_id: u64,
    duration_secs: u64,
    now: u64,
    other: Address,
    other_duration: u64,
    t: u64,
)
    requires
        v.wf(),
        v.execute_error(executor, approval_id, duration_secs, now) is None,
        v.pause_fits(duration_secs, now),
    ensures
        ({
            let w = v.after_execute(executor, approval_id, duration_secs, now);
            &&& w.approval(approval_id).executed
            &&& (w.is_guardian(other) && crate::rules::duration_ok(other_duration))
                ==> w.execute_error(other, approval_id, other_duration, t)
                    == Some(Error::ApprovalAlreadyExecuted)
            &&& w.is_guardian(other) ==> w.approve_error(other, approval_id, t)
                == Some(Error::ApprovalAlreadyExecuted)
        }),
{
}

/// A proposal is executed only with at least `required_approvals` votes,
/// all from different guardians.
pub proof fn law_execution_threshold(
    v: CircuitBreakerView,
    executor: Address,
    approval_id: u64,
    duration_secs: u64,
    now: u64,
)
    requires
        v.wf(),
        v.execute_error(executor, approval_id, duration_secs, now) is None,
    ensures
        v.approval(approval_id).approvals.len() >= v.approval(approval_id).required_approvals,
        crate::types::addresses_distinct(v.approval(approval_id).approvals),
{
    assert(v.approval(approval_id).well_formed());
}

/// A proposal with a voting window closes once the clock exceeds its end:
/// from then on
/// no guardian can vote for it or execute it.
pub proof fn law_proposal_window_closes(
    v: CircuitBreakerView,
    proposer: Address,
    level: PauseLevel,
    reason: PauseReason,
    description: Seq<u8>,
    pause_duration_secs: u64,
    required_approvals: u32,
    approval_window_secs: u64,
    now: u64,
    voter: Address,
    duration_secs: u64,
    t: u64,
)
    requires
        v.wf(),
        v.propose_pause_error(proposer, description, pause_duration_secs, required_approvals) is None,
        v.proposal_fits(approval_window_secs, now),
        approval_window_secs != 0,
        t > now + approval_window_secs,
    ensures
        ({
            let id = (v.last_approval_id + 1) as u64;
            let w = v.after_propose_pause(
                proposer,
                level,
                reason,
                description,
                required_approvals,
                approval_window_secs,
                now,
            );
            &&& w.is_guardian(voter) ==> w.approve_error(voter, id, t) == Some(Error::ApprovalExpired)
            &&& (w.is_guardian(voter) && crate::rules::duration_ok(duration_secs))
                ==> w.execute_error(voter, id, duration_secs, t) == Some(Error::ApprovalExpired)
        }),
{
}

/// Every change of the breaker is announced: each operation that succeeds
/// queues one announcement (two for executing a proposal: the pause and
/// the execution), and settling the live state changes the breaker exactly
/// when it announces a lapse.
pub proof fn law_changes_are_announced(
    v: CircuitBreakerView,
    admin: Address,
    guardians: Seq<Address>,
    caller: Address,
    level: PauseLevel,
    reason: PauseReason,
    description: Seq<u8>,
    duration_secs: u64,
    required_approvals: u32,
    approval_id: u64,
    now: u64,
)
    ensures
        v.after_initialize(admin, guardians).events == v.events.push(
            crate::types::CircuitBreakerEvent::Initialized { admin },
        ),
        v.after_add_guardian(caller).events.len() == v.events.len() + 1,
        v.after_remove_guardian(caller).events.len() == v.events.len() + 1,
        v.after_pause(caller, level, reason, description, duration_secs, now).events.len()
            == v.events.len() + 1,
        v.after_propose_pause(caller, level, reason, description, required_approvals, duration_secs, now).events.len()
            == v.events.len() + 1,
        v.after_approve(caller, approval_id).events.len() == v.events.len() + 1,
        v.after_execute(caller, approval_id, duration_secs, now).events.len() == v.events.len() + 2,
        v.after_lift(caller, now).events.len() == v.events.len() + 1,
        v.settled(now) == v <==> v.settled(now).events.len() == v.events.len(),
{
}

/// Pause record ids are issued one after another, starting at 1: only a
/// new pause issues one, and it is one more than the last.
pub proof fn law_record_ids_sequential(
    v: CircuitBreakerView,
    caller: Address,
    level: PauseLevel,
    reason: PauseReason,
    description: Seq<u8>,
    duration_secs: u64,
    required_approvals: u32,
    approval_id: u64,
    now: u64,
)
    requires
        v.wf(),
        v.last_record_id < u64::MAX,
    ensures
        v.last_record_id == v.records.len(),
        v.after_pause(caller, level, reason, description, duration_secs, now).last_record_id
            == v.last_record_id + 1,
        v.after_execute(caller, approval_id, duration_secs, now).last_record_id
            == v.last_record_id + 1,
        v.after_lift(caller, now).last_record_id == v.last_record_id,
        v.settled(now).last_record_id == v.last_record_id,
        v.after_propose_pause(caller, level, reason, description, required_approvals, duration_secs, now).last_record_id
            == v.last_record_id,
        v.after_approve(caller, approval_id).last_record_id == v.last_record_id,
        v.after_add_guardian(caller).last_record_id == v.last_record_id,
        v.after_remove_guardian(caller).last_record_id == v.last_record_id,
{
}

// ── sequences of calls ──────────────────────────────────────────────────

/// Every sequence of calls keeps the invariant: guardians distinct and at
/// most [`MAX_GUARDIANS`](crate::rules::MAX_GUARDIANS), record and proposal
/// ids `1..n`, every proposal well formed, and a live pause pointing at its
/// stored, unlifted record.
pub proof fn law_run_keeps_wf(v: CircuitBreakerView, calls: Seq<Call>)
    requires
        v.wf(),
    ensures
        v.run(calls).wf(),
    decreases calls.len(),
{
    if calls.len() > 0 {
        law_run_keeps_wf(v, calls.drop_last());
        v.run(calls.drop_last()).lemma_apply_wf(calls.last());
    }
}

/// One call issues a pause record id exactly when it activates a pause.
proof fn lemma_apply_record_ids(v: CircuitBreakerView, c: Call)
    ensures
        v.apply(c).last_record_id == v.last_record_id + if v.pauses(c) { 1int } else { 0int },
{
}

/// Pause record ids are issued in order: after any calls, the last id is
/// the number of pauses activated so far, added to the last id before.
pub proof fn law_record_count(v: CircuitBreakerView, calls: Seq<Call>)
    ensures
        v.run(calls).last_record_id == v.last_record_id + v.pause_count(calls),
    decreases calls.len(),
{
    if calls.len() > 0 {
        law_record_count(v, calls.drop_last());
        lemma_apply_record_ids(v.run(calls.drop_last()), calls.last());
    }
}

/// From a fresh breaker, after calls that activated `k` pauses, the
/// records `1..=k` are stored, record `j` under id `j`, and the next pause
/// that is activated gets id `k + 1`.
pub proof fn law_record_ids_in_order(calls: Seq<Call>, next: Call)
    ensures
        ({
            let w = CircuitBreakerView::fresh().run(calls);
            let k = CircuitBreakerView::fresh().pause_count(calls);
            &&& w.last_record_id == k
            &&& w.records.len() == k
            &&& forall|j: u64| 1 <= j <= k ==> w.has_record(j) && #[trigger] w.record(j).record_id == j
            &&& w.pauses(next) ==> w.apply(next).last_record_id == k + 1
                && w.apply(next).record((k + 1) as u64).record_id == k + 1
                && w.apply(next).state.current_record_id == k + 1
        }),
{
    let f = CircuitBreakerView::fresh();
    assert(f.wf());
    law_run_keeps_wf(f, calls);
    law_record_count(f, calls);
    let w = f.run(calls);
    if w.pauses(next) {
        w.lemma_apply_wf(next);
        match next {
            Call::Execute { executor, approval_id, pause_duration_secs, now } => {
                assert(w.apply(next) == w.after_execute(executor, approval_id, pause_duration_secs, now));
            },
            _ => {},
        }
    }
}

/// One call marks the proposal `approval_id` executed exactly when it
/// executes it, and only a proposal not yet executed can be executed.
proof fn lemma_apply_executed(v: CircuitBreakerView, c: Call, approval_id: u64)
    requires
        v.wf(),
    ensures
        v.apply(c).is_executed(approval_id) == (v.is_executed(approval_id) || v.executes(c, approval_id)),
        v.executes(c, approval_id) ==> !v.is_executed(approval_id),
{
    let w = v.apply(c);
    match c {
        Call::Approve { approver, approval_id: id, now } => {
            if v.approve_error(approver, id, now) is None && v.has_approval(approval_id) {
                if id != approval_id {
                    assert(w.approval(approval_id) == v.approval(approval_id));
                }
            }
        },
        Call::Execute { executor, approval_id: id, pause_duration_secs, now } => {
            if v.execute_error(executor, id, pause_duration_secs, now) is None
                && v.pause_fits(pause_duration_secs, now) && v.has_approval(approval_id) {
                if id != approval_id {
                    assert(w.approval(approval_id) == v.approval(approval_id));
                }
            }
        },
        Call::ProposePause { .. } => {
            if v.has_approval(approval_id) {
                assert(w.approval(approval_id) == v.approval(approval_id));
            }
        },
        _ => {},
    }
}

/// A proposal is executed at most once over any sequence of calls: the
/// number of calls that execute it, plus one if it was executed before,
/// is one if it is executed afterwards and zero otherwise.  An executed
/// proposal stays executed, with the votes it needed.
pub proof fn law_execute_at_most_once(v: CircuitBreakerView, calls: Seq<Call>, approval_id: u64)
    requires
        v.wf(),
    ensures
        (if v.is_executed(approval_id) { 1int } else { 0int }) + v.execution_count(calls, approval_id)
            == if v.run(calls).is_executed(approval_id) { 1int } else { 0int },
        v.execution_count(calls, approval_id) <= 1,
        v.is_executed(approval_id) ==> v.run(calls).is_executed(approval_id),
        v.run(calls).is_executed(approval_id) ==> v.run(calls).approval(approval_id).approvals.len()
            >= v.run(calls).approval(approval_id).required_approvals,
    decreases calls.len(),
{
    law_run_keeps_wf(v, calls);
    if calls.len() > 0 {
        law_execute_at_most_once(v, calls.drop_last(), approval_id);
        law_run_keeps_wf(v, calls.drop_last());
        lemma_apply_executed(v.run(calls.drop_last()), calls.last(), approval_id);
    }
    let w = v.run(calls);
    if w.is_executed(approval_id) {
        assert(w.approval(approval_id).well_formed());
    }
}

/// Every stored proposal, after any calls from a fresh breaker, is under
/// its own id, counts the proposer's vote first, has no guardian twice,
/// needs at least one vote, and, once executed, had the votes it needed.
pub proof fn law_stored_proposals(calls: Seq<Call>, approval_id: u64)
    ensures
        ({
            let w = CircuitBreakerView::fresh().run(calls);
            w.has_approval(approval_id) ==> {
                let a = w.approval(approval_id);
                &&& a.approval_id == approval_id
                &&& a.approvals.len() >= 1
                &&& a.approvals[0]@ == a.proposer@
                &&& crate::types::addresses_distinct(a.approvals)
                &&& a.required_approvals >= 1
                &&& a.executed ==> a.approvals.len() >= a.required_approvals
            }
        }),
{
    let f = CircuitBreakerView::fresh();
    law_run_keeps_wf(f, calls);
    let w = f.run(calls);
    if w.has_approval(approval_id) {
        assert(w.approvals[approval_id - 1].well_formed());
    }
}

/// A vote appends the voter to the proposal and changes nothing else in it
/// or in any other proposal.
pub proof fn law_approve_appends_one_vote(v: CircuitBreakerView, approver: Address, approval_id: u64, now: u64, other: u64)
    requires
        v.wf(),
        v.approve_error(approver, approval_id, now) is None,
    ensures
        ({
            let w = v.after_approve(approver, approval_id);
            let a = v.approval(approval_id);
            &&& w.approval(approval_id) == (crate::types::PauseApprovalView { approvals: a.approvals.push(approver), ..a })
            &&& w.approvals.len() == v.approvals.len()
            &&& other != approval_id && v.has_approval(other) ==> w.approval(other) == v.approval(other)
        }),
{
}

/// After any calls from a fresh breaker, a live pause points at a stored
/// record that is not lifted and that has the pause's level, start and
/// deadline; when not paused, the level is Advisory with no deadline.
pub proof fn law_live_pause_has_record(calls: Seq<Call>)
    ensures
        ({
            let w = CircuitBreakerView::fresh().run(calls);
            let s = w.state;
            &&& s.current_record_id <= w.last_record_id
            &&& !s.is_paused ==> s.level == PauseLevel::Advisory && s.expires_at == 0
            &&& s.is_paused ==> {
                &&& w.has_record(s.current_record_id)
                &&& w.record(s.current_record_id).record_id == s.current_record_id
                &&& w.record(s.current_record_id).level == s.level
                &&& w.record(s.current_record_id).activated_at == s.paused_at
                &&& w.record(s.current_record_id).expires_at == s.expires_at
                &&& w.record(s.current_record_id).lifted_at == 0
            }
        }),
{
    let f = CircuitBreakerView::fresh();
    law_run_keeps_wf(f, calls);
}

/// Whether a call manages guardians (initialisation included).
pub open spec fn manages_guardians(c: Call) -> bool {
    c is Initialize || c is AddGuardian || c is RemoveGuardian
}

/// Only initialisation and guardian management change the guardians, only
/// initialisation sets the administrator, and once set the administrator
/// never changes; the guardians always stay distinct and at most
/// [`MAX_GUARDIANS`](crate::rules::MAX_GUARDIANS).
pub proof fn law_guardians_and_admin(v: CircuitBreakerView, calls: Seq<Call>)
    requires
        v.wf(),
    ensures
        (forall|i: int| 0 <= i < calls.len() ==> !manages_guardians(#[trigger] calls[i]))
            ==> v.run(calls).guardians == v.guardians && v.run(calls).admin == v.admin,
        v.admin is Some ==> v.run(calls).admin == v.admin,
        v.run(calls).guardians.len() <= crate::rules::MAX_GUARDIANS,
        crate::types::addresses_distinct(v.run(calls).guardians),
    decreases calls.len(),
{
    law_run_keeps_wf(v, calls);
    if calls.len() > 0 {
        law_guardians_and_admin(v, calls.drop_last());
        let pre = calls.drop_last();
        if forall|i: int| 0 <= i < calls.len() ==> !manages_guardians(#[trigger] calls[i]) {
            assert forall|i: int| 0 <= i < pre.len() implies !manages_guardians(#[trigger] pre[i]) by {
                assert(pre[i] == calls[i]);
            }
            assert(!manages_guardians(calls[calls.len() - 1]));
        }
    }
}

// ── which calls are accepted ────────────────────────────────────────────
//
// Each law below says, in terms of the stored values and the arguments
// alone, exactly when a call is accepted.

/// An uninitialised breaker accepts any administrator (whether or not it
/// is also listed as a guardian) with at most 20 guardians, no two with the
/// same key; an initialised one refuses every initialisation.
pub proof fn law_initialize_accepts(v: CircuitBreakerView, admin: Address, guardians: Seq<Address>)
    ensures
        v.admin is None ==> (v.initialize_error(admin, guardians) is None <==> (
            guardians.len() <= 20
            && forall|i: int, j: int| 0 <= i < guardians.len() && 0 <= j < guardians.len() && i != j
                ==> #[trigger] guardians[i]@ != #[trigger] guardians[j]@)),
        v.admin is Some ==> v.initialize_error(admin, guardians) == Some(Error::CircuitBreakerAlreadyInitialized),
{
}

/// The administrator adds any address not yet a guardian while there are
/// fewer than 20 guardians; nobody else adds one.
pub proof fn law_add_guardian_accepts(v: CircuitBreakerView, caller: Address, guardian: Address)
    ensures
        v.add_guardian_error(caller, guardian) is None <==> (
            v.admin is Some && v.admin.unwrap()@ == caller@
            && !(exists|i: int| 0 <= i < v.guardians.len() && #[trigger] v.guardians[i]@ == guardian@)
            && v.guardians.len() < 20),
{
}

/// The administrator removes any current guardian; nobody else removes one.
pub proof fn law_remove_guardian_accepts(v: CircuitBreakerView, caller: Address, guardian: Address)
    ensures
        v.remove_guardian_error(caller, guardian) is None <==> (
            v.admin is Some && v.admin.unwrap()@ == caller@
            && exists|i: int| 0 <= i < v.guardians.len() && #[trigger] v.guardians[i]@ == guardian@),
{
}

/// Any guardian pauses at once with a description of at most 256 bytes and
/// a duration of 0 or at most 30 days, whatever the breaker's state: an
/// existing pause (at any level) is replaced, so a guardian can escalate.
pub proof fn law_instant_pause_accepts(
    v: CircuitBreakerView,
    caller: Address,
    description: Seq<u8>,
    duration_secs: u64,
)
    ensures
        v.instant_pause_error(caller, description, duration_secs) is None <==> (
            (exists|i: int| 0 <= i < v.guardians.len() && #[trigger] v.guardians[i]@ == caller@)
            && description.len() <= 256
            && (duration_secs == 0 || duration_secs <= 2592000)),
{
}

/// Replacing a live pause: a second pause while paused makes the new
/// record the live one, at the new level.
pub proof fn law_pause_replaces_live_pause(
    v: CircuitBreakerView,
    caller: Address,
    level: PauseLevel,
    reason: PauseReason,
    description: Seq<u8>,
    duration_secs: u64,
    now: u64,
)
    requires
        v.wf(),
        v.pause_fits(duration_secs, now),
    ensures
        v.after_pause(caller, level, reason, description, duration_secs, now).state.is_paused,
        v.after_pause(caller, level, reason, description, duration_secs, now).state.level == level,
        v.after_pause(caller, level, reason, description, duration_secs, now).state.current_record_id
            == v.records.len() + 1,
        v.after_pause(caller, level, reason, description, duration_secs, now).records.len()
            == v.records.len() + 1,
{
}

/// Any guardian proposes with a valid description and duration and a
/// threshold between 1 and the number of guardians.
pub proof fn law_propose_pause_accepts(
    v: CircuitBreakerView,
    proposer: Address,
    description: Seq<u8>,
    pause_duration_secs: u64,
    required_approvals: u32,
)
    ensures
        v.propose_pause_error(proposer, description, pause_duration_secs, required_approvals) is None <==> (
            (exists|i: int| 0 <= i < v.guardians.len() && #[trigger] v.guardians[i]@ == proposer@)
            && description.len() <= 256
            && (pause_duration_secs == 0 || pause_duration_secs <= 2592000)
            && 1 <= required_approvals <= v.guardians.len()),
{
}

/// A new proposal closes at `now + approval_window_secs`, or never when the
/// window is `0`; it holds the proposer's vote alone and is not executed.
pub proof fn law_new_proposal(
    v: CircuitBreakerView,
    proposer: Address,
    level: PauseLevel,
    reason: PauseReason,
    description: Seq<u8>,
    required_approvals: u32,
    approval_window_secs: u64,
    now: u64,
)
    requires
        v.wf(),
        v.proposal_fits(approval_window_secs, now),
    ensures
        ({
            let w = v.after_propose_pause(
                proposer,
                level,
                reason,
                description,
                required_approvals,
                approval_window_secs,
                now,
            );
            let a = w.approvals[w.approvals.len() - 1];
            &&& w.approvals.len() == v.approvals.len() + 1
            &&& a.approval_id == v.approvals.len() + 1
            &&& approval_window_secs == 0 ==> a.expires_at == 0
            &&& approval_window_secs != 0 ==> a.expires_at == now + approval_window_secs
            &&& a.approvals == seq![proposer]
            &&& a.required_approvals == required_approvals
            &&& a.proposed_level == level
            &&& a.proposed_reason == reason
            &&& a.description == description
            &&& !a.executed
        }),
{
}

/// A proposal made with no voting window never closes: at every later
/// time, any guardian who has not voted may vote, and, with enough votes,
/// any guardian may execute it.
pub proof fn law_open_ended_proposal_never_closes(
    v: CircuitBreakerView,
    proposer: Address,
    level: PauseLevel,
    reason: PauseReason,
    description: Seq<u8>,
    pause_duration_secs: u64,
    required_approvals: u32,
    now: u64,
    voter: Address,
    duration_secs: u64,
    t: u64,
)
    requires
        v.wf(),
        v.propose_pause_error(proposer, description, pause_duration_secs, required_approvals) is None,
        v.proposal_fits(0, now),
    ensures
        ({
            let id = (v.last_approval_id + 1) as u64;
            let w = v.after_propose_pause(proposer, level, reason, description, required_approvals, 0, now);
            &&& w.approval(id).expires_at == 0
            &&& ((exists|i: int| 0 <= i < w.guardians.len() && #[trigger] w.guardians[i]@ == voter@)
                && voter@ != proposer@) ==> w.approve_error(voter, id, t) is None
            &&& ((exists|i: int| 0 <= i < w.guardians.len() && #[trigger] w.guardians[i]@ == voter@)
                && required_approvals == 1
                && (duration_secs == 0 || duration_secs <= 2592000)) ==> w.execute_error(voter, id, duration_secs, t) is None
        }),
{
    let id = (v.last_approval_id + 1) as u64;
    let w = v.after_propose_pause(proposer, level, reason, description, required_approvals, 0, now);
    let a = w.approval(id);
    if voter@ != proposer@ {
        assert(!holds_address(a.approvals, voter)) by {
            if holds_address(a.approvals, voter) {
                let k = choose|k: int| 0 <= k < a.approvals.len() && #[trigger] a.approvals[k]@ == voter@;
                assert(k == 0);
            }
        }
    }
}

/// A guardian votes for any stored proposal that is not executed, whose
/// deadline is unset or not exceeded, and that the guardian has not voted
/// for.
pub proof fn law_approve_accepts(v: CircuitBreakerView, approver: Address, approval_id: u64, now: u64)
    ensures
        v.approve_error(approver, approval_id, now) is None <==> (
            (exists|i: int| 0 <= i < v.guardians.len() && #[trigger] v.guardians[i]@ == approver@)
            && 1 <= approval_id <= v.approvals.len()
            && !v.approvals[approval_id - 1].executed
            && (v.approvals[approval_id - 1].expires_at == 0 || now <= v.approvals[approval_id - 1].expires_at)
            && !(exists|k: int| 0 <= k < v.approvals[approval_id - 1].approvals.len()
                && #[trigger] v.approvals[approval_id - 1].approvals[k]@ == approver@)),
        v.approve_error(approver, approval_id, now) == Some(Error::ApprovalExpired) ==> (
            1 <= approval_id <= v.approvals.len()
            && v.approvals[approval_id - 1].expires_at != 0
            && now > v.approvals[approval_id - 1].expires_at),
{
}

/// A guardian executes, with a valid duration, any stored proposal that is
/// not executed, whose deadline is unset or not exceeded, and that has at
/// least as many votes as it requires (more votes are fine).
pub proof fn law_execute_accepts(
    v: CircuitBreakerView,
    executor: Address,
    approval_id: u64,
    pause_duration_secs: u64,
    now: u64,
)
    ensures
        v.execute_error(executor, approval_id, pause_duration_secs, now) is None <==> (
            (exists|i: int| 0 <= i < v.guardians.len() && #[trigger] v.guardians[i]@ == executor@)
            && (pause_duration_secs == 0 || pause_duration_secs <= 2592000)
            && 1 <= approval_id <= v.approvals.len()
            && !v.approvals[approval_id - 1].executed
            && (v.approvals[approval_id - 1].expires_at == 0 || now <= v.approvals[approval_id - 1].expires_at)
            && v.approvals[approval_id - 1].approvals.len() >= v.approvals[approval_id - 1].required_approvals),
        v.execute_error(executor, approval_id, pause_duration_secs, now) == Some(Error::ApprovalExpired) ==> (
            1 <= approval_id <= v.approvals.len()
            && v.approvals[approval_id - 1].expires_at != 0
            && now > v.approvals[approval_id - 1].expires_at),
        v.execute_error(executor, approval_id, pause_duration_secs, now) == Some(Error::ApprovalThresholdNotReached) ==> (
            1 <= approval_id <= v.approvals.len()
            && v.approvals[approval_id - 1].approvals.len() < v.approvals[approval_id - 1].required_approvals),
{
}

/// The administrator lifts whenever the breaker is paused; nobody else
/// lifts.
pub proof fn law_lift_accepts(v: CircuitBreakerView, caller: Address)
    ensures
        v.lift_error(caller) is None <==> (
            v.admin is Some && v.admin.unwrap()@ == caller@ && v.state.is_paused),
{
}

// ── what accepted calls do ──────────────────────────────────────────────

/// Initialising stores the administrator and the guardians as given, in
/// order, and leaves the breaker unpaused.
pub proof fn law_initialize_stores(v: CircuitBreakerView, admin: Address, guardians: Seq<Address>)
    ensures
        ({
            let w = v.after_initialize(admin, guardians);
            &&& w.admin == Some(admin)
            &&& w.guardians == guardians
            &&& !w.state.is_paused
            &&& w.state.level == PauseLevel::Advisory
            &&& w.records == v.records
            &&& w.approvals == v.approvals
        }),
{
}

/// Adding a guardian appends it and keeps every other guardian.
pub proof fn law_add_guardian_appends(v: CircuitBreakerView, guardian: Address)
    ensures
        ({
            let w = v.after_add_guardian(guardian);
            &&& w.guardians.len() == v.guardians.len() + 1
            &&& w.guardians[v.guardians.len() as int] == guardian
            &&& forall|i: int| 0 <= i < v.guardians.len() ==> #[trigger] w.guardians[i] == v.guardians[i]
            &&& w.admin == v.admin && w.state == v.state && w.records == v.records && w.approvals == v.approvals
        }),
{
}

/// Removing a guardian takes out exactly that guardian: afterwards it is no
/// guardian, every other address is a guardian exactly when it was before,
/// and there is one guardian fewer.
pub proof fn law_remove_guardian_removes(v: CircuitBreakerView, caller: Address, guardian: Address, other: Address)
    requires
        v.wf(),
        v.remove_guardian_error(caller, guardian) is None,
    ensures
        ({
            let w = v.after_remove_guardian(guardian);
            &&& w.guardians.len() == v.guardians.len() - 1
            &&& !(exists|i: int| 0 <= i < w.guardians.len() && #[trigger] w.guardians[i]@ == guardian@)
            &&& other@ != guardian@ ==> (
                (exists|i: int| 0 <= i < w.guardians.len() && #[trigger] w.guardians[i]@ == other@)
                <==> (exists|i: int| 0 <= i < v.guardians.len() && #[trigger] v.guardians[i]@ == other@))
            &&& w.admin == v.admin && w.state == v.state && w.records == v.records && w.approvals == v.approvals
        }),
{
    let g = v.guardians;
    let w = v.after_remove_guardian(guardian);
    let k = crate::model::first_index_of(g, guardian);
    let x = choose|i: int| 0 <= i < g.len() && #[trigger] g[i]@ == guardian@;
    crate::model::lemma_first_index_exists(g, guardian, x);
    let t = w.guardians;
    assert(t == g.remove(k));
    if exists|i: int| 0 <= i < t.len() && #[trigger] t[i]@ == guardian@ {
        let i = choose|i: int| 0 <= i < t.len() && #[trigger] t[i]@ == guardian@;
        let si = if i < k { i } else { i + 1 };
        assert(t[i] == g[si]);
        assert(g[k]@ == guardian@);
    }
    if other@ != guardian@ {
        if exists|i: int| 0 <= i < t.len() && #[trigger] t[i]@ == other@ {
            let i = choose|i: int| 0 <= i < t.len() && #[trigger] t[i]@ == other@;
            let si = if i < k { i } else { i + 1 };
            assert(t[i] == g[si]);
        }
        if exists|i: int| 0 <= i < g.len() && #[trigger] g[i]@ == other@ {
            let i = choose|i: int| 0 <= i < g.len() && #[trigger] g[i]@ == other@;
            assert(i != k);
            let ti = if i < k { i } else { i - 1 };
            assert(t[ti] == g[i]);
        }
    }
}

/// Executing a proposal marks it executed, changes nothing else in the
/// proposals, and activates the pause it asked for: a new live record by
/// the executor with the proposal's level, reason and description.
pub proof fn law_execute_activates_proposal(
    v: CircuitBreakerView,
    executor: Address,
    approval_id: u64,
    pause_duration_secs: u64,
    now: u64,
    other: u64,
)
    requires
        v.wf(),
        v.execute_error(executor, approval_id, pause_duration_secs, now) is None,
        v.pause_fits(pause_duration_secs, now),
    ensures
        ({
            let a = v.approvals[approval_id - 1];
            let w = v.after_execute(executor, approval_id, pause_duration_secs, now);
            let id = (v.records.len() + 1) as u64;
            &&& w.approvals[approval_id - 1] == (crate::types::PauseApprovalView { executed: true, ..a })
            &&& w.approvals.len() == v.approvals.len()
            &&& (other != approval_id && 1 <= other <= v.approvals.len()) ==> w.approvals[other - 1] == v.approvals[other - 1]
            &&& w.records.len() == v.records.len() + 1
            &&& w.state.is_paused && w.state.current_record_id == id && w.state.level == a.proposed_level
            &&& w.records[id - 1].record_id == id
            &&& w.records[id - 1].activated_by == executor
            &&& w.records[id - 1].level == a.proposed_level
            &&& w.records[id - 1].reason == a.proposed_reason
            &&& w.records[id - 1].description == a.description
            &&& w.records[id - 1].activated_at == now
            &&& (pause_duration_secs == 0 ==> w.records[id - 1].expires_at == 0)
            &&& (pause_duration_secs != 0 ==> w.records[id - 1].expires_at == now + pause_duration_secs)
            &&& w.events.len() == v.events.len() + 2
            &&& w.events[v.events.len() as int] == crate::types::CircuitBreakerEvent::Paused { record_id: id }
            &&& w.events[v.events.len() as int + 1] == (crate::types::CircuitBreakerEvent::ProposalExecuted {
                approval_id, executor, record_id: id })
        }),
{
}

/// The announcement of each accepted call names what it did.
pub proof fn law_announcements(
    v: CircuitBreakerView,
    caller: Address,
    approval_id: u64,
    level: PauseLevel,
    reason: PauseReason,
    description: Seq<u8>,
    duration_secs: u64,
    required_approvals: u32,
    now: u64,
)
    requires
        v.wf(),
        v.last_record_id < u64::MAX,
        v.last_approval_id < u64::MAX,
    ensures
        v.after_add_guardian(caller).events.last()
            == (crate::types::CircuitBreakerEvent::GuardianAdded { guardian: caller }),
        v.after_remove_guardian(caller).events.last()
            == (crate::types::CircuitBreakerEvent::GuardianRemoved { guardian: caller }),
        v.after_pause(caller, level, reason, description, duration_secs, now).events.last()
            == (crate::types::CircuitBreakerEvent::Paused { record_id: (v.records.len() + 1) as u64 }),
        v.after_propose_pause(caller, level, reason, description, required_approvals, duration_secs, now).events.last()
            == (crate::types::CircuitBreakerEvent::ProposalCreated { approval_id: (v.approvals.len() + 1) as u64 }),
        v.after_approve(caller, approval_id).events.last()
            == (crate::types::CircuitBreakerEvent::ProposalApproved { approval_id, approver: caller }),
        v.after_lift(caller, now).events.last()
            == (crate::types::CircuitBreakerEvent::Lifted { record_id: v.state.current_record_id, lifted_by: caller }),
        v.state.is_paused && v.state.expires_at != 0 && now > v.state.expires_at ==> v.settled(now).events.last()
            == (crate::types::CircuitBreakerEvent::Expired { record_id: v.state.current_record_id, at: now }),
        !(v.state.is_paused && v.state.expires_at != 0 && now > v.state.expires_at) ==> v.settled(now) == v,
{
}

// ── which error a refused call gets ─────────────────────────────────────

/// The error of a refused initialisation: already initialised, then too
/// many guardians, then a guardian listed twice.
pub proof fn law_initialize_refusals(v: CircuitBreakerView, admin: Address, guardians: Seq<Address>)
    ensures
        v.admin is None && guardians.len() > 20
            ==> v.initialize_error(admin, guardians) == Some(Error::TooManyGuardians),
        v.admin is None && guardians.len() <= 20 && (exists|i: int, j: int|
            0 <= i < guardians.len() && 0 <= j < guardians.len() && i != j
            && #[trigger] guardians[i]@ == #[trigger] guardians[j]@)
            ==> v.initialize_error(admin, guardians) == Some(Error::DuplicateGuardian),
{
}

/// The error of a refused administrator call: not initialised, then a
/// caller who is not the administrator.
pub proof fn law_admin_refusals(v: CircuitBreakerView, caller: Address, guardian: Address)
    ensures
        v.admin is None ==> v.add_guardian_error(caller, guardian) == Some(Error::CircuitBreakerNotInitialized)
            && v.remove_guardian_error(caller, guardian) == Some(Error::CircuitBreakerNotInitialized)
            && v.lift_error(caller) == Some(Error::CircuitBreakerNotInitialized),
        v.admin is Some && v.admin.unwrap()@ != caller@
            ==> v.add_guardian_error(caller, guardian) == Some(Error::Unauthorized)
            && v.remove_guardian_error(caller, guardian) == Some(Error::Unauthorized)
            && v.lift_error(caller) == Some(Error::Unauthorized),
        v.admin is Some && v.admin.unwrap()@ == caller@ ==> {
            &&& (exists|i: int| 0 <= i < v.guardians.len() && #[trigger] v.guardians[i]@ == guardian@)
                ==> v.add_guardian_error(caller, guardian) == Some(Error::DuplicateGuardian)
            &&& (!(exists|i: int| 0 <= i < v.guardians.len() && #[trigger] v.guardians[i]@ == guardian@)
                && v.guardians.len() >= 20) ==> v.add_guardian_error(caller, guardian) == Some(Error::TooManyGuardians)
            &&& !(exists|i: int| 0 <= i < v.guardians.len() && #[trigger] v.guardians[i]@ == guardian@)
                ==> v.remove_guardian_error(caller, guardian) == Some(Error::NotGuardian)
            &&& !v.state.is_paused ==> v.lift_error(caller) == Some(Error::ContractNotPaused)
        },
{
}

/// The error of a refused pause or proposal: a caller who is no guardian,
/// then a description over 256 bytes, then a duration over 30 days, then
/// (for a proposal) a threshold of 0 or above the number of guardians.
pub proof fn law_pause_refusals(
    v: CircuitBreakerView,
    caller: Address,
    description: Seq<u8>,
    duration_secs: u64,
    required_approvals: u32,
)
    ensures
        !(exists|i: int| 0 <= i < v.guardians.len() && #[trigger] v.guardians[i]@ == caller@) ==>
            v.instant_pause_error(caller, description, duration_secs) == Some(Error::NotGuardian)
            && v.propose_pause_error(caller, description, duration_secs, required_approvals) == Some(Error::NotGuardian),
        (exists|i: int| 0 <= i < v.guardians.len() && #[trigger] v.guardians[i]@ == caller@) ==> {
            &&& description.len() > 256 ==>
                v.instant_pause_error(caller, description, duration_secs) == Some(Error::PauseDescriptionTooLong)
                && v.propose_pause_error(caller, description, duration_secs, required_approvals)
                    == Some(Error::PauseDescriptionTooLong)
            &&& (description.len() <= 256 && duration_secs > 2592000) ==>
                v.instant_pause_error(caller, description, duration_secs) == Some(Error::InvalidPauseDuration)
                && v.propose_pause_error(caller, description, duration_secs, required_approvals)
                    == Some(Error::InvalidPauseDuration)
            &&& (description.len() <= 256 && duration_secs <= 2592000
                && (required_approvals == 0 || required_approvals > v.guardians.len())) ==>
                v.propose_pause_error(caller, description, duration_secs, required_approvals)
                    == Some(Error::InvalidThreshold)
        },
{
}

/// The error of a refused vote or execution: a caller who is no guardian,
/// then (for an execution) a duration over 30 days, then an unknown
/// proposal, then an executed one, then one whose deadline is exceeded,
/// then a second vote by the same guardian or (for an execution) fewer
/// votes than required.
pub proof fn law_proposal_refusals(
    v: CircuitBreakerView,
    caller: Address,
    approval_id: u64,
    duration_secs: u64,
    now: u64,
)
    ensures
        !(exists|i: int| 0 <= i < v.guardians.len() && #[trigger] v.guardians[i]@ == caller@) ==>
            v.approve_error(caller, approval_id, now) == Some(Error::NotGuardian)
            && v.execute_error(caller, approval_id, duration_secs, now) == Some(Error::NotGuardian),
        ({
            let a = v.approvals[approval_id - 1];
            let stored = 1 <= approval_id <= v.approvals.len();
            let open = a.expires_at == 0 || now <= a.expires_at;
            (exists|i: int| 0 <= i < v.guardians.len() && #[trigger] v.guardians[i]@ == caller@) ==> {
                &&& duration_secs > 2592000 ==>
                    v.execute_error(caller, approval_id, duration_secs, now) == Some(Error::InvalidPauseDuration)
                &&& !stored ==> v.approve_error(caller, approval_id, now) == Some(Error::ApprovalNotFound)
                    && (duration_secs <= 2592000 ==>
                        v.execute_error(caller, approval_id, duration_secs, now) == Some(Error::ApprovalNotFound))
                &&& stored && a.executed ==> v.approve_error(caller, approval_id, now) == Some(Error::ApprovalAlreadyExecuted)
                    && (duration_secs <= 2592000 ==>
                        v.execute_error(caller, approval_id, duration_secs, now) == Some(Error::ApprovalAlreadyExecuted))
                &&& stored && !a.executed && !open ==> v.approve_error(caller, approval_id, now) == Some(Error::ApprovalExpired)
                    && (duration_secs <= 2592000 ==>
                        v.execute_error(caller, approval_id, duration_secs, now) == Some(Error::ApprovalExpired))
                &&& (stored && !a.executed && open
                    && (exists|k: int| 0 <= k < a.approvals.len() && #[trigger] a.approvals[k]@ == caller@))
                    ==> v.approve_error(caller, approval_id, now) == Some(Error::ApprovalAlreadyVoted)
                &&& (stored && !a.executed && open && duration_secs <= 2592000
                    && a.approvals.len() < a.required_approvals)
                    ==> v.execute_error(caller, approval_id, duration_secs, now) == Some(Error::ApprovalThresholdNotReached)
            }
        }),
{
}

} // verus!
