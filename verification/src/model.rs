//! The breaker as mathematical values, and what each operation does to it.
use vstd::prelude::*;
use crate::rules::{
    deadline, deadline_fits, description_ok, duration_ok, expired, MAX_GUARDIANS,
};
use crate::types::{
    addresses_distinct, holds_address, unpaused_state, Address, CircuitBreakerEvent,
    CircuitBreakerState, Error, PauseApprovalView, PauseLevel, PauseReason, PauseRecordView,
};

verus! {

/// Everything the breaker stores, as plain values.
pub struct CircuitBreakerView {
    /// The administrator; `None` until the breaker is initialised.
    pub admin: Option<Address>,
    pub guardians: Seq<Address>,
    pub state: CircuitBreakerState,
    /// The id of the last pause record issued (`0` before the first).
    pub last_record_id: u64,
    /// The pause records; record `id` stands at index `id - 1`.
    pub records: Seq<PauseRecordView>,
    /// The id of the last proposal issued (`0` before the first).
    pub last_approval_id: u64,
    /// The proposals; proposal `id` stands at index `id - 1`.
    pub approvals: Seq<PauseApprovalView>,
    /// The announcements not yet handed to the host, oldest first.
    pub events: Seq<CircuitBreakerEvent>,
}

impl PauseApprovalView {
    /// A stored proposal: the proposer's vote comes first, no guardian votes
    /// twice, at least one vote is needed, and an executed proposal had the
    /// votes it needed.
    pub open spec fn well_formed(self) -> bool {
        &&& self.approvals.len() >= 1
        &&& self.approvals[0]@ == self.proposer@
        &&& addresses_distinct(self.approvals)
        &&& self.required_approvals >= 1
        &&& self.executed ==> self.approvals.len() >= self.required_approvals
    }
}

/// Adding an address that is not held keeps the addresses distinct.
pub proof fn lemma_distinct_push(s: Seq<Address>, a: Address)
    requires
        addresses_distinct(s),
        !holds_address(s, a),
    ensures
        addresses_distinct(s.push(a)),
{
    let t = s.push(a);
    assert forall|i: int, j: int| 0 <= i < t.len() && 0 <= j < t.len() && i != j implies #[trigger] t[i]@ != #[trigger] t[j]@ by {
        if i < s.len() && j < s.len() {
            assert(t[i] == s[i] && t[j] == s[j]);
        } else if i < s.len() {
            assert(t[i] == s[i]);
        } else {
            assert(t[j] == s[j]);
        }
    }
}

/// Removing an address keeps the others distinct.
pub proof fn lemma_distinct_remove(s: Seq<Address>, k: int)
    requires
        addresses_distinct(s),
        0 <= k < s.len(),
    ensures
        addresses_distinct(s.remove(k)),
{
    let t = s.remove(k);
    assert forall|i: int, j: int| 0 <= i < t.len() && 0 <= j < t.len() && i != j implies #[trigger] t[i]@ != #[trigger] t[j]@ by {
        let si = if i < k { i } else { i + 1 };
        let sj = if j < k { j } else { j + 1 };
        assert(t[i] == s[si] && t[j] == s[sj]);
    }
}

/// When an address is held, its first index is an index where it is held.
pub proof fn lemma_first_index_exists(s: Seq<Address>, a: Address, w: int)
    requires
        0 <= w < s.len(),
        s[w]@ == a@,
    ensures
        ({
            let k = first_index_of(s, a);
            0 <= k < s.len() && s[k]@ == a@ && forall|j: int| 0 <= j < k ==> #[trigger] s[j]@ != a@
        }),
    decreases w,
{
    if exists|j: int| 0 <= j < w && #[trigger] s[j]@ == a@ {
        let j = choose|j: int| 0 <= j < w && #[trigger] s[j]@ == a@;
        lemma_first_index_exists(s, a, j);
    } else {
        assert(0 <= w < s.len() && s[w]@ == a@ && forall|j: int| 0 <= j < w ==> #[trigger] s[j]@ != a@);
    }
}

/// One call of the breaker, with its arguments and the ledger time.
pub enum Call {
    Initialize { admin: Address, guardians: Seq<Address> },
    AddGuardian { caller: Address, guardian: Address },
    RemoveGuardian { caller: Address, guardian: Address },
    InstantPause {
        caller: Address,
        level: PauseLevel,
        reason: PauseReason,
        description: Seq<u8>,
        duration_secs: u64,
        now: u64,
    },
    ProposePause {
        proposer: Address,
        level: PauseLevel,
        reason: PauseReason,
        description: Seq<u8>,
        pause_duration_secs: u64,
        required_approvals: u32,
        approval_window_secs: u64,
        now: u64,
    },
    Approve { approver: Address, approval_id: u64, now: u64 },
    Execute { executor: Address, approval_id: u64, pause_duration_secs: u64, now: u64 },
    Lift { caller: Address, now: u64 },
    /// A status query (`get_state`, `is_paused`, `check_*`).
    Settle { now: u64 },
    /// The host collecting the announcements.
    TakeEvents,
}

/// Index of the first address in `s` with the same key as `a`.
pub open spec fn first_index_of(s: Seq<Address>, a: Address) -> int {
    choose|i: int| 0 <= i < s.len() && s[i]@ == a@ && forall|j: int| 0 <= j < i ==> #[trigger] s[j]@ != a@
}

impl CircuitBreakerView {
    /// The invariant that every operation keeps.
    pub open spec fn wf(self) -> bool {
        &&& self.guardians.len() <= MAX_GUARDIANS
        &&& addresses_distinct(self.guardians)
        &&& self.admin is None ==> self.guardians.len() == 0
        &&& self.records.len() == self.last_record_id
        &&& forall|i: int| 0 <= i < self.records.len() ==> #[trigger] self.records[i].record_id == i + 1
        &&& self.approvals.len() == self.last_approval_id
        &&& forall|i: int| 0 <= i < self.approvals.len() ==> #[trigger] self.approvals[i].approval_id == i + 1
        &&& forall|i: int| 0 <= i < self.approvals.len() ==> #[trigger] self.approvals[i].well_formed()
        &&& self.state.current_record_id <= self.last_record_id
        &&& self.state.is_paused ==> self.state.current_record_id >= 1 && self.live_record_matches()
        &&& !self.state.is_paused ==> self.state.level == PauseLevel::Advisory && self.state.expires_at == 0
    }

    /// The live pause's record describes it and is not lifted.
    pub open spec fn live_record_matches(self) -> bool {
        let r = self.record(self.state.current_record_id);
        &&& r.level == self.state.level
        &&& r.activated_at == self.state.paused_at
        &&& r.expires_at == self.state.expires_at
        &&& r.lifted_at == 0
        &&& r.lifted_by.len() == 0
    }

    /// The breaker before anything happened to it.
    pub open spec fn fresh() -> Self {
        CircuitBreakerView {
            admin: None,
            guardians: Seq::empty(),
            state: unpaused_state(0, 0),
            last_record_id: 0,
            records: Seq::empty(),
            last_approval_id: 0,
            approvals: Seq::empty(),
            events: Seq::empty(),
        }
    }

    pub open spec fn is_guardian(self, a: Address) -> bool {
        holds_address(self.guardians, a)
    }

    pub open spec fn has_record(self, id: u64) -> bool {
        1 <= id <= self.records.len()
    }

    pub open spec fn record(self, id: u64) -> PauseRecordView {
        self.records[id - 1]
    }

    pub open spec fn has_approval(self, id: u64) -> bool {
        1 <= id <= self.approvals.len()
    }

    pub open spec fn approval(self, id: u64) -> PauseApprovalView {
        self.approvals[id - 1]
    }

    /// The check that `caller` is the administrator.
    pub open spec fn admin_error(self, caller: Address) -> Option<Error> {
        match self.admin {
            None => Some(Error::CircuitBreakerNotInitialized),
            Some(a) => if a@ == caller@ {
                None
            } else {
                Some(Error::Unauthorized)
            },
        }
    }

    /// The check that `caller` is a guardian.
    pub open spec fn guardian_error(self, caller: Address) -> Option<Error> {
        if self.is_guardian(caller) {
            None
        } else {
            Some(Error::NotGuardian)
        }
    }

    // ── initialize ──────────────────────────────────────────────────────

    pub open spec fn initialize_error(self, admin: Address, guardians: Seq<Address>) -> Option<Error> {
        if self.admin is Some {
            Some(Error::CircuitBreakerAlreadyInitialized)
        } else if guardians.len() > MAX_GUARDIANS {
            Some(Error::TooManyGuardians)
        } else if !addresses_distinct(guardians) {
            Some(Error::DuplicateGuardian)
        } else {
            None
        }
    }

    pub open spec fn after_initialize(self, admin: Address, guardians: Seq<Address>) -> Self {
        CircuitBreakerView {
            admin: Some(admin),
            guardians,
            state: unpaused_state(0, 0),
            events: self.events.push(CircuitBreakerEvent::Initialized { admin }),
            ..self
        }
    }

    // ── guardian management ─────────────────────────────────────────────

    pub open spec fn add_guardian_error(self, caller: Address, guardian: Address) -> Option<Error> {
        if self.admin_error(caller) is Some {
            self.admin_error(caller)
        } else if self.is_guardian(guardian) {
            Some(Error::DuplicateGuardian)
        } else if self.guardians.len() >= MAX_GUARDIANS {
            Some(Error::TooManyGuardians)
        } else {
            None
        }
    }

    pub open spec fn after_add_guardian(self, guardian: Address) -> Self {
        CircuitBreakerView {
            guardians: self.guardians.push(guardian),
            events: self.events.push(CircuitBreakerEvent::GuardianAdded { guardian }),
            ..self
        }
    }

    pub open spec fn remove_guardian_error(self, caller: Address, guardian: Address) -> Option<Error> {
        if self.admin_error(caller) is Some {
            self.admin_error(caller)
        } else if !self.is_guardian(guardian) {
            Some(Error::NotGuardian)
        } else {
            None
        }
    }

    pub open spec fn after_remove_guardian(self, guardian: Address) -> Self {
        CircuitBreakerView {
            guardians: self.guardians.remove(first_index_of(self.guardians, guardian)),
            events: self.events.push(CircuitBreakerEvent::GuardianRemoved { guardian }),
            ..self
        }
    }

    // ── pausing ─────────────────────────────────────────────────────────

    /// Whether a new pause can be written without an integer overflow.
    pub open spec fn pause_fits(self, duration_secs: u64, now: u64) -> bool {
        self.last_record_id < u64::MAX && deadline_fits(now, duration_secs)
    }

    /// The record that a new pause writes.
    pub open spec fn new_record(
        self,
        activated_by: Address,
        level: PauseLevel,
        reason: PauseReason,
        description: Seq<u8>,
        duration_secs: u64,
        now: u64,
    ) -> PauseRecordView {
        PauseRecordView {
            record_id: (self.last_record_id + 1) as u64,
            activated_by,
            level,
            reason,
            description,
            activated_at: now,
            expires_at: deadline(now, duration_secs),
            lifted_at: 0,
            lifted_by: Seq::empty(),
        }
    }

    /// A new pause: a fresh record, the live state pointing at it, and the
    /// announcement.
    pub open spec fn after_pause(
        self,
        activated_by: Address,
        level: PauseLevel,
        reason: PauseReason,
        description: Seq<u8>,
        duration_secs: u64,
        now: u64,
    ) -> Self {
        let id = (self.last_record_id + 1) as u64;
        CircuitBreakerView {
            last_record_id: id,
            records: self.records.push(
                self.new_record(activated_by, level, reason, description, duration_secs, now),
            ),
            state: CircuitBreakerState {
                is_paused: true,
                level,
                current_record_id: id,
                paused_at: now,
                expires_at: deadline(now, duration_secs),
            },
            events: self.events.push(CircuitBreakerEvent::Paused { record_id: id }),
            ..self
        }
    }

    pub open spec fn instant_pause_error(
        self,
        caller: Address,
        description: Seq<u8>,
        duration_secs: u64,
    ) -> Option<Error> {
        if self.guardian_error(caller) is Some {
            self.guardian_error(caller)
        } else if !description_ok(description) {
            Some(Error::PauseDescriptionTooLong)
        } else if !duration_ok(duration_secs) {
            Some(Error::InvalidPauseDuration)
        } else {
            None
        }
    }

    // ── proposals ───────────────────────────────────────────────────────

    pub open spec fn propose_pause_error(
        self,
        proposer: Address,
        description: Seq<u8>,
        pause_duration_secs: u64,
        required_approvals: u32,
    ) -> Option<Error> {
        if self.guardian_error(proposer) is Some {
            self.guardian_error(proposer)
        } else if !description_ok(description) {
            Some(Error::PauseDescriptionTooLong)
        } else if !duration_ok(pause_duration_secs) {
            Some(Error::InvalidPauseDuration)
        } else if required_approvals == 0 || required_approvals > self.guardians.len() {
            Some(Error::InvalidThreshold)
        } else {
            None
        }
    }

    /// Whether a new proposal can be written without an integer overflow.
    pub open spec fn proposal_fits(self, approval_window_secs: u64, now: u64) -> bool {
        self.last_approval_id < u64::MAX && deadline_fits(now, approval_window_secs)
    }

    pub open spec fn new_approval(
        self,
        proposer: Address,
        level: PauseLevel,
        reason: PauseReason,
        description: Seq<u8>,
        required_approvals: u32,
        approval_window_secs: u64,
        now: u64,
    ) -> PauseApprovalView {
        PauseApprovalView {
            approval_id: (self.last_approval_id + 1) as u64,
            proposed_level: level,
            proposed_reason: reason,
            description,
            expires_at: deadline(now, approval_window_secs),
            proposer,
            approvals: seq![proposer],
            required_approvals,
            executed: false,
        }
    }

    pub open spec fn after_propose_pause(
        self,
        proposer: Address,
        level: PauseLevel,
        reason: PauseReason,
        description: Seq<u8>,
        required_approvals: u32,
        approval_window_secs: u64,
        now: u64,
    ) -> Self {
        let id = (self.last_approval_id + 1) as u64;
        CircuitBreakerView {
            last_approval_id: id,
            approvals: self.approvals.push(
                self.new_approval(
                    proposer,
                    level,
                    reason,
                    description,
                    required_approvals,
                    approval_window_secs,
                    now,
                ),
            ),
            events: self.events.push(CircuitBreakerEvent::ProposalCreated { approval_id: id }),
            ..self
        }
    }

    /// The checks that a proposal exists and is still open.
    pub open spec fn open_approval_error(self, approval_id: u64, now: u64) -> Option<Error> {
        if !self.has_approval(approval_id) {
            Some(Error::ApprovalNotFound)
        } else if self.approval(approval_id).executed {
            Some(Error::ApprovalAlreadyExecuted)
        } else if expired(self.approval(approval_id).expires_at, now) {
            Some(Error::ApprovalExpired)
        } else {
            None
        }
    }

    pub open spec fn approve_error(self, approver: Address, approval_id: u64, now: u64) -> Option<Error> {
        if self.guardian_error(approver) is Some {
            self.guardian_error(approver)
        } else if self.open_approval_error(approval_id, now) is Some {
            self.open_approval_error(approval_id, now)
        } else if holds_address(self.approval(approval_id).approvals, approver) {
            Some(Error::ApprovalAlreadyVoted)
        } else {
            None
        }
    }

    pub open spec fn after_approve(self, approver: Address, approval_id: u64) -> Self {
        let a = self.approval(approval_id);
        CircuitBreakerView {
            approvals: self.approvals.update(
                approval_id - 1,
                PauseApprovalView { approvals: a.approvals.push(approver), ..a },
            ),
            events: self.events.push(
                CircuitBreakerEvent::ProposalApproved { approval_id, approver },
            ),
            ..self
        }
    }

    pub open spec fn execute_error(
        self,
        executor: Address,
        approval_id: u64,
        pause_duration_secs: u64,
        now: u64,
    ) -> Option<Error> {
        if self.guardian_error(executor) is Some {
            self.guardian_error(executor)
        } else if !duration_ok(pause_duration_secs) {
            Some(Error::InvalidPauseDuration)
        } else if self.open_approval_error(approval_id, now) is Some {
            self.open_approval_error(approval_id, now)
        } else if self.approval(approval_id).approvals.len() < self.approval(approval_id).required_approvals {
            Some(Error::ApprovalThresholdNotReached)
        } else {
            None
        }
    }

    /// The breaker with the proposal `approval_id` marked executed.
    pub open spec fn marked_executed(self, approval_id: u64) -> Self {
        let a = self.approval(approval_id);
        CircuitBreakerView {
            approvals: self.approvals.update(
                approval_id - 1,
                PauseApprovalView { executed: true, ..a },
            ),
            ..self
        }
    }

    /// The proposal marked executed, the pause it asks for, and the
    /// announcement of the execution.
    pub open spec fn after_execute(
        self,
        executor: Address,
        approval_id: u64,
        pause_duration_secs: u64,
        now: u64,
    ) -> Self {
        let a = self.approval(approval_id);
        let marked = self.marked_executed(approval_id);
        let paused = marked.after_pause(
            executor,
            a.proposed_level,
            a.proposed_reason,
            a.description,
            pause_duration_secs,
            now,
        );
        CircuitBreakerView {
            events: paused.events.push(
                CircuitBreakerEvent::ProposalExecuted {
                    approval_id,
                    executor,
                    record_id: (self.last_record_id + 1) as u64,
                },
            ),
            ..paused
        }
    }

    // ── ending a pause ──────────────────────────────────────────────────

    pub open spec fn lift_error(self, caller: Address) -> Option<Error> {
        if self.admin_error(caller) is Some {
            self.admin_error(caller)
        } else if !self.state.is_paused {
            Some(Error::ContractNotPaused)
        } else {
            None
        }
    }

    pub open spec fn after_lift(self, caller: Address, now: u64) -> Self {
        let id = self.state.current_record_id;
        let r = self.record(id);
        CircuitBreakerView {
            records: if self.has_record(id) {
                self.records.update(
                    id - 1,
                    PauseRecordView { lifted_at: now, lifted_by: r.lifted_by.push(caller), ..r },
                )
            } else {
                self.records
            },
            state: unpaused_state(id, self.state.paused_at),
            events: self.events.push(CircuitBreakerEvent::Lifted { record_id: id, lifted_by: caller }),
            ..self
        }
    }

    /// Whether the live pause has run out at ledger time `now`.
    pub open spec fn pause_lapsed(self, now: u64) -> bool {
        self.state.is_paused && expired(self.state.expires_at, now)
    }

    /// The breaker once a lapsed pause has been ended (unchanged otherwise).
    pub open spec fn settled(self, now: u64) -> Self {
        if self.pause_lapsed(now) {
            let id = self.state.current_record_id;
            let r = self.record(id);
            CircuitBreakerView {
                records: if self.has_record(id) {
                    self.records.update(id - 1, PauseRecordView { lifted_at: now, ..r })
                } else {
                    self.records
                },
                state: unpaused_state(id, self.state.paused_at),
                events: self.events.push(CircuitBreakerEvent::Expired { record_id: id, at: now }),
                ..self
            }
        } else {
            self
        }
    }

    // ── calls and sequences of calls ────────────────────────────────────

    /// The breaker after one call.  A refused call, and a call that would
    /// overflow a counter or a deadline (the host then traps and reverts),
    /// leave it as it was.
    pub open spec fn apply(self, c: Call) -> Self {
        match c {
            Call::Initialize { admin, guardians } => if self.initialize_error(admin, guardians) is None {
                self.after_initialize(admin, guardians)
            } else {
                self
            },
            Call::AddGuardian { caller, guardian } => if self.add_guardian_error(caller, guardian) is None {
                self.after_add_guardian(guardian)
            } else {
                self
            },
            Call::RemoveGuardian { caller, guardian } => if self.remove_guardian_error(caller, guardian) is None {
                self.after_remove_guardian(guardian)
            } else {
                self
            },
            Call::InstantPause { caller, level, reason, description, duration_secs, now } =>
                if self.instant_pause_error(caller, description, duration_secs) is None
                    && self.pause_fits(duration_secs, now) {
                self.after_pause(caller, level, reason, description, duration_secs, now)
            } else {
                self
            },
            Call::ProposePause {
                proposer,
                level,
                reason,
                description,
                pause_duration_secs,
                required_approvals,
                approval_window_secs,
                now,
            } => if self.propose_pause_error(proposer, description, pause_duration_secs, required_approvals) is None
                && self.proposal_fits(approval_window_secs, now) {
                self.after_propose_pause(
                    proposer,
                    level,
                    reason,
                    description,
                    required_approvals,
                    approval_window_secs,
                    now,
                )
            } else {
                self
            },
            Call::Approve { approver, approval_id, now } => if self.approve_error(approver, approval_id, now) is None {
                self.after_approve(approver, approval_id)
            } else {
                self
            },
            Call::Execute { executor, approval_id, pause_duration_secs, now } =>
                if self.execute_error(executor, approval_id, pause_duration_secs, now) is None
                    && self.pause_fits(pause_duration_secs, now) {
                self.after_execute(executor, approval_id, pause_duration_secs, now)
            } else {
                self
            },
            Call::Lift { caller, now } => if self.lift_error(caller) is None {
                self.after_lift(caller, now)
            } else {
                self
            },
            Call::Settle { now } => self.settled(now),
            Call::TakeEvents => CircuitBreakerView { events: Seq::empty(), ..self },
        }
    }

    /// The breaker after a sequence of calls, first call first.
    pub open spec fn run(self, calls: Seq<Call>) -> Self
        decreases calls.len(),
    {
        if calls.len() == 0 {
            self
        } else {
            self.run(calls.drop_last()).apply(calls.last())
        }
    }

    /// Whether the call activates a pause (an instant pause or an executed
    /// proposal) rather than being refused.
    pub open spec fn pauses(self, c: Call) -> bool {
        match c {
            Call::InstantPause { caller, description, duration_secs, now, .. } =>
                self.instant_pause_error(caller, description, duration_secs) is None
                    && self.pause_fits(duration_secs, now),
            Call::Execute { executor, approval_id, pause_duration_secs, now } =>
                self.execute_error(executor, approval_id, pause_duration_secs, now) is None
                    && self.pause_fits(pause_duration_secs, now),
            _ => false,
        }
    }

    /// Whether the call executes the proposal `approval_id`.
    pub open spec fn executes(self, c: Call, approval_id: u64) -> bool {
        match c {
            Call::Execute { executor, approval_id: id, pause_duration_secs, now } =>
                id == approval_id
                    && self.execute_error(executor, id, pause_duration_secs, now) is None
                    && self.pause_fits(pause_duration_secs, now),
            _ => false,
        }
    }

    /// How many calls of the sequence activate a pause.
    pub open spec fn pause_count(self, calls: Seq<Call>) -> nat
        decreases calls.len(),
    {
        if calls.len() == 0 {
            0
        } else {
            self.pause_count(calls.drop_last()) + if self.run(calls.drop_last()).pauses(calls.last()) {
                1nat
            } else {
                0nat
            }
        }
    }

    /// How many calls of the sequence execute the proposal `approval_id`.
    pub open spec fn execution_count(self, calls: Seq<Call>, approval_id: u64) -> nat
        decreases calls.len(),
    {
        if calls.len() == 0 {
            0
        } else {
            self.execution_count(calls.drop_last(), approval_id)
                + if self.run(calls.drop_last()).executes(calls.last(), approval_id) {
                1nat
            } else {
                0nat
            }
        }
    }

    /// Whether the proposal `approval_id` is stored and executed.
    pub open spec fn is_executed(self, approval_id: u64) -> bool {
        self.has_approval(approval_id) && self.approval(approval_id).executed
    }

    // ── the invariant is kept ───────────────────────────────────────────

    pub proof fn lemma_initialize_wf(self, admin: Address, guardians: Seq<Address>)
        requires
            self.wf(),
            self.initialize_error(admin, guardians) is None,
        ensures
            self.after_initialize(admin, guardians).wf(),
    {
    }

    pub proof fn lemma_add_guardian_wf(self, caller: Address, guardian: Address)
        requires
            self.wf(),
            self.add_guardian_error(caller, guardian) is None,
        ensures
            self.after_add_guardian(guardian).wf(),
    {
        lemma_distinct_push(self.guardians, guardian);
    }

    pub proof fn lemma_remove_guardian_wf(self, caller: Address, guardian: Address)
        requires
            self.wf(),
            self.remove_guardian_error(caller, guardian) is None,
        ensures
            self.after_remove_guardian(guardian).wf(),
    {
        let g = self.guardians;
        let k = first_index_of(g, guardian);
        let w = choose|i: int| 0 <= i < g.len() && #[trigger] g[i]@ == guardian@;
        lemma_first_index_exists(g, guardian, w);
        lemma_distinct_remove(g, k);
    }

    pub proof fn lemma_pause_wf(
        self,
        activated_by: Address,
        level: PauseLevel,
        reason: PauseReason,
        description: Seq<u8>,
        duration_secs: u64,
        now: u64,
    )
        requires
            self.wf(),
            self.pause_fits(duration_secs, now),
        ensures
            self.after_pause(activated_by, level, reason, description, duration_secs, now).wf(),
    {
        let w = self.after_pause(activated_by, level, reason, description, duration_secs, now);
        assert forall|i: int| 0 <= i < w.records.len() implies #[trigger] w.records[i].record_id == i + 1 by {
            if i < self.records.len() {
                assert(w.records[i] == self.records[i]);
            }
        }
    }

    pub proof fn lemma_propose_wf(
        self,
        proposer: Address,
        level: PauseLevel,
        reason: PauseReason,
        description: Seq<u8>,
        pause_duration_secs: u64,
        required_approvals: u32,
        approval_window_secs: u64,
        now: u64,
    )
        requires
            self.wf(),
            self.propose_pause_error(proposer, description, pause_duration_secs, required_approvals) is None,
            self.proposal_fits(approval_window_secs, now),
        ensures
            self.after_propose_pause(
                proposer,
                level,
                reason,
                description,
                required_approvals,
                approval_window_secs,
                now,
            ).wf(),
    {
        let w = self.after_propose_pause(
            proposer,
            level,
            reason,
            description,
            required_approvals,
            approval_window_secs,
            now,
        );
        let a = self.new_approval(
            proposer,
            level,
            reason,
            description,
            required_approvals,
            approval_window_secs,
            now,
        );
        assert(addresses_distinct(a.approvals));
        assert(a.well_formed());
        assert forall|i: int| 0 <= i < w.approvals.len() implies #[trigger] w.approvals[i].approval_id == i + 1
            && w.approvals[i].well_formed() by {
            if i < self.approvals.len() {
                assert(w.approvals[i] == self.approvals[i]);
            }
        }
    }

    pub proof fn lemma_approve_wf(self, approver: Address, approval_id: u64, now: u64)
        requires
            self.wf(),
            self.approve_error(approver, approval_id, now) is None,
        ensures
            self.after_approve(approver, approval_id).wf(),
    {
        let w = self.after_approve(approver, approval_id);
        let a = self.approval(approval_id);
        assert(a.well_formed());
        lemma_distinct_push(a.approvals, approver);
        let b = w.approval(approval_id);
        assert(b.approvals[0] == a.approvals[0]);
        assert(b.well_formed());
        assert forall|i: int| 0 <= i < w.approvals.len() implies #[trigger] w.approvals[i].approval_id == i + 1
            && w.approvals[i].well_formed() by {
            if i != approval_id - 1 {
                assert(w.approvals[i] == self.approvals[i]);
            }
        }
    }

    /// Marking a proposal executed keeps the invariant when it has the votes
    /// it needs.
    pub proof fn lemma_mark_executed_wf(self, approval_id: u64)
        requires
            self.wf(),
            self.has_approval(approval_id),
            self.approval(approval_id).approvals.len() >= self.approval(approval_id).required_approvals,
        ensures
            self.marked_executed(approval_id).wf(),
    {
        let a = self.approval(approval_id);
        let marked = self.marked_executed(approval_id);
        assert(a.well_formed());
        assert forall|i: int| 0 <= i < marked.approvals.len() implies #[trigger] marked.approvals[i].approval_id == i + 1
            && marked.approvals[i].well_formed() by {
            if i != approval_id - 1 {
                assert(marked.approvals[i] == self.approvals[i]);
            }
        }
    }

    pub proof fn lemma_execute_wf(self, executor: Address, approval_id: u64, pause_duration_secs: u64, now: u64)
        requires
            self.wf(),
            self.execute_error(executor, approval_id, pause_duration_secs, now) is None,
            self.pause_fits(pause_duration_secs, now),
        ensures
            self.after_execute(executor, approval_id, pause_duration_secs, now).wf(),
    {
        let a = self.approval(approval_id);
        let marked = self.marked_executed(approval_id);
        self.lemma_mark_executed_wf(approval_id);
        marked.lemma_pause_wf(
            executor,
            a.proposed_level,
            a.proposed_reason,
            a.description,
            pause_duration_secs,
            now,
        );
    }

    /// Updating the live record, keeping its id, keeps every record's id.
    pub proof fn lemma_update_live_record(self, r: PauseRecordView)
        requires
            self.wf(),
            self.has_record(self.state.current_record_id),
            r.record_id == self.state.current_record_id,
        ensures
            ({
                let recs = self.records.update(self.state.current_record_id - 1, r);
                forall|i: int| 0 <= i < recs.len() ==> #[trigger] recs[i].record_id == i + 1
            }),
    {
        let recs = self.records.update(self.state.current_record_id - 1, r);
        assert forall|i: int| 0 <= i < recs.len() implies #[trigger] recs[i].record_id == i + 1 by {
            if i != self.state.current_record_id - 1 {
                assert(recs[i] == self.records[i]);
            }
        }
    }

    pub proof fn lemma_lift_wf(self, caller: Address, now: u64)
        requires
            self.wf(),
            self.lift_error(caller) is None,
        ensures
            self.after_lift(caller, now).wf(),
    {
        let id = self.state.current_record_id;
        let r = self.record(id);
        self.lemma_update_live_record(
            PauseRecordView { lifted_at: now, lifted_by: r.lifted_by.push(caller), ..r },
        );
    }

    pub proof fn lemma_settled_wf(self, now: u64)
        requires
            self.wf(),
        ensures
            self.settled(now).wf(),
    {
        if self.pause_lapsed(now) {
            let r = self.record(self.state.current_record_id);
            self.lemma_update_live_record(PauseRecordView { lifted_at: now, ..r });
        }
    }

    /// Every call keeps the invariant.
    pub proof fn lemma_apply_wf(self, c: Call)
        requires
            self.wf(),
        ensures
            self.apply(c).wf(),
    {
        match c {
            Call::Initialize { admin, guardians } => if self.initialize_error(admin, guardians) is None {
                self.lemma_initialize_wf(admin, guardians);
            },
            Call::AddGuardian { caller, guardian } => if self.add_guardian_error(caller, guardian) is None {
                self.lemma_add_guardian_wf(caller, guardian);
            },
            Call::RemoveGuardian { caller, guardian } => if self.remove_guardian_error(caller, guardian) is None {
                self.lemma_remove_guardian_wf(caller, guardian);
            },
            Call::InstantPause { caller, level, reason, description, duration_secs, now } =>
                if self.instant_pause_error(caller, description, duration_secs) is None
                    && self.pause_fits(duration_secs, now) {
                self.lemma_pause_wf(caller, level, reason, description, duration_secs, now);
            },
            Call::ProposePause {
                proposer,
                level,
                reason,
                description,
                pause_duration_secs,
                required_approvals,
                approval_window_secs,
                now,
            } => if self.propose_pause_error(proposer, description, pause_duration_secs, required_approvals) is None
                && self.proposal_fits(approval_window_secs, now) {
                self.lemma_propose_wf(
                    proposer,
                    level,
                    reason,
                    description,
                    pause_duration_secs,
                    required_approvals,
                    approval_window_secs,
                    now,
                );
            },
            Call::Approve { approver, approval_id, now } => if self.approve_error(approver, approval_id, now) is None {
                self.lemma_approve_wf(approver, approval_id, now);
            },
            Call::Execute { executor, approval_id, pause_duration_secs, now } =>
                if self.execute_error(executor, approval_id, pause_duration_secs, now) is None
                    && self.pause_fits(pause_duration_secs, now) {
                self.lemma_execute_wf(executor, approval_id, pause_duration_secs, now);
            },
            Call::Lift { caller, now } => if self.lift_error(caller) is None {
                self.lemma_lift_wf(caller, now);
            },
            Call::Settle { now } => {
                self.lemma_settled_wf(now);
            },
            Call::TakeEvents => {},
        }
    }
}

} // verus!
