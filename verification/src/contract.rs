//! The breaker itself: its stored state and the operations on it.
use vstd::prelude::*;
use crate::model::{first_index_of, Call, CircuitBreakerView};
use crate::rules::{
    compute_deadline, is_expired, mutations_allowed_in, reads_allowed_in, validate_description,
    validate_duration, writes_allowed_in, MAX_GUARDIANS,
};
use crate::types::{
    all_distinct, addresses_distinct, contains_address, copy_addresses, copy_bytes, find_address,
    initial_state, Address, CircuitBreakerEvent, CircuitBreakerState, Error,
    PauseApproval, PauseLevel, PauseReason, PauseRecord,
};

verus! {

/// Whether a stored proposal has the shape every proposal keeps.
fn approval_well_formed(a: &PauseApproval) -> (r: bool)
    ensures
        r == a@.well_formed(),
{
    a.approvals.len() >= 1 && a.approvals[0] == a.proposer && all_distinct(&a.approvals)
        && a.required_approvals >= 1
        && (!a.executed || a.approvals.len() >= a.required_approvals as usize)
}

/// Everything the breaker stores, as the host keeps it between calls.
pub struct StoredBreaker {
    pub admin: Option<Address>,
    pub guardians: Vec<Address>,
    pub state: CircuitBreakerState,
    pub last_record_id: u64,
    pub records: Vec<PauseRecord>,
    pub last_approval_id: u64,
    pub approvals: Vec<PauseApproval>,
}

/// The breaker that stored values describe, with no announcement queued.
pub open spec fn stored_view(p: StoredBreaker) -> CircuitBreakerView {
    CircuitBreakerView {
        admin: p.admin,
        guardians: p.guardians@,
        state: p.state,
        last_record_id: p.last_record_id,
        records: p.records@.map_values(|r: PauseRecord| r@),
        last_approval_id: p.last_approval_id,
        approvals: p.approvals@.map_values(|a: PauseApproval| a@),
        events: Seq::empty(),
    }
}

/// The circuit breaker: guardians who may pause, an administrator who
/// manages them and lifts pauses, the live pause state, the history of
/// pauses, and the multi-guardian proposals.
///
/// Every operation takes the current ledger time where the rules need it;
/// callers are assumed to have been authenticated by the host.  The
/// announcements an operation makes are queued and handed out by
/// [`CircuitBreakerContract::take_events`].
pub struct CircuitBreakerContract {
    admin: Option<Address>,
    guardians: Vec<Address>,
    state: CircuitBreakerState,
    last_record_id: u64,
    records: Vec<PauseRecord>,
    last_approval_id: u64,
    approvals: Vec<PauseApproval>,
    events: Vec<CircuitBreakerEvent>,
}

impl View for CircuitBreakerContract {
    type V = CircuitBreakerView;

    closed spec fn view(&self) -> CircuitBreakerView {
        CircuitBreakerView {
            admin: self.admin,
            guardians: self.guardians@,
            state: self.state,
            last_record_id: self.last_record_id,
            records: self.records@.map_values(|r: PauseRecord| r@),
            last_approval_id: self.last_approval_id,
            approvals: self.approvals@.map_values(|a: PauseApproval| a@),
            events: self.events@,
        }
    }
}

impl CircuitBreakerContract {
    /// A breaker that has not been initialised: no administrator, no
    /// guardians, not paused, no history.
    pub fn new() -> (r: Self)
        ensures
            r@ == CircuitBreakerView::fresh(),
            r@.wf(),
            r@.admin is None,
            r@.guardians.len() == 0,
            r@.state == crate::types::unpaused_state(0, 0),
            r@.last_record_id == 0,
            r@.last_approval_id == 0,
            r@.events.len() == 0,
    {
        let r = CircuitBreakerContract {
            admin: None,
            guardians: Vec::new(),
            state: initial_state(),
            last_record_id: 0,
            records: Vec::new(),
            last_approval_id: 0,
            approvals: Vec::new(),
            events: Vec::new(),
        };
        assert(r@.records =~= Seq::empty());
        assert(r@.approvals =~= Seq::empty());
        r
    }

    /// Hands out the queued announcements, oldest first, and clears the queue.
    pub fn take_events(&mut self) -> (r: Vec<CircuitBreakerEvent>)
        ensures
            r@ == old(self)@.events,
            final(self)@ == old(self)@.apply(Call::TakeEvents),
    {
        let mut out = Vec::new();
        std::mem::swap(&mut out, &mut self.events);
        out
    }

    /// The id of the last pause record issued (`0` before the first).
    pub fn last_record_id(&self) -> (r: u64)
        ensures
            r == self@.last_record_id,
    {
        self.last_record_id
    }

    /// The id of the last proposal issued (`0` before the first).
    pub fn last_approval_id(&self) -> (r: u64)
        ensures
            r == self@.last_approval_id,
    {
        self.last_approval_id
    }

    // ── storage helpers ─────────────────────────────────────────────────

    fn require_admin(&self, caller: &Address) -> (r: Result<(), Error>)
        ensures
            match r {
                Ok(()) => self@.admin_error(*caller) is None,
                Err(e) => self@.admin_error(*caller) == Some(e),
            },
    {
        match &self.admin {
            None => Err(Error::CircuitBreakerNotInitialized),
            Some(admin) => {
                if *admin != *caller {
                    return Err(Error::Unauthorized);
                }
                Ok(())
            },
        }
    }

    fn require_guardian(&self, caller: &Address) -> (r: Result<(), Error>)
        ensures
            match r {
                Ok(()) => self@.guardian_error(*caller) is None,
                Err(e) => self@.guardian_error(*caller) == Some(e),
            },
    {
        if !contains_address(&self.guardians, caller) {
            return Err(Error::NotGuardian);
        }
        Ok(())
    }

    // ── initialisation ──────────────────────────────────────────────────

    /// Initialise the breaker with its administrator and initial guardians
    /// (at most [`MAX_GUARDIANS`], no two the same).  Can only succeed once.
    pub fn initialize(&mut self, admin: Address, guardians: Vec<Address>) -> (r: Result<(), Error>)
        requires
            old(self)@.wf(),
        ensures
            final(self)@.wf(),
            final(self)@ == old(self)@.apply(Call::Initialize { admin, guardians: guardians@ }),
            match r {
                Ok(()) => old(self)@.initialize_error(admin, guardians@) is None
                    && final(self)@ == old(self)@.after_initialize(admin, guardians@),
                Err(e) => old(self)@.initialize_error(admin, guardians@) == Some(e)
                    && final(self)@ == old(self)@,
            },
    {
        if self.admin.is_some() {
            return Err(Error::CircuitBreakerAlreadyInitialized);
        }
        if guardians.len() > MAX_GUARDIANS as usize {
            return Err(Error::TooManyGuardians);
        }
        let mut seen: Vec<Address> = Vec::new();
        let n = guardians.len();
        for i in 0..n
            invariant
                n == guardians.len(),
                n <= MAX_GUARDIANS,
                self@ == old(self)@,
                old(self)@.wf(),
                old(self)@.admin is None,
                seen@ == guardians@.subrange(0, i as int),
                addresses_distinct(seen@),
        {
            if contains_address(&seen, &guardians[i]) {
                proof {
                    let k = choose|k: int| 0 <= k < seen@.len() && #[trigger] seen@[k]@ == guardians@[i as int]@;
                    assert(guardians@[k]@ == guardians@[i as int]@);
                }
                return Err(Error::DuplicateGuardian);
            }
            seen.push(guardians[i].clone());
            assert(seen@ =~= guardians@.subrange(0, i + 1));
        }
        assert(seen@ =~= guardians@);
        let ev = CircuitBreakerEvent::Initialized { admin: admin.clone() };
        self.admin = Some(admin);
        self.guardians = guardians;
        self.state = initial_state();
        self.events.push(ev);
        Ok(())
    }

    // ── guardian management ─────────────────────────────────────────────

    /// Add a new guardian.  Administrator only.
    pub fn add_guardian(&mut self, caller: Address, guardian: Address) -> (r: Result<(), Error>)
        requires
            old(self)@.wf(),
        ensures
            final(self)@.wf(),
            final(self)@ == old(self)@.apply(Call::AddGuardian { caller, guardian }),
            match r {
                Ok(()) => old(self)@.add_guardian_error(caller, guardian) is None
                    && final(self)@ == old(self)@.after_add_guardian(guardian),
                Err(e) => old(self)@.add_guardian_error(caller, guardian) == Some(e)
                    && final(self)@ == old(self)@,
            },
    {
        self.require_admin(&caller)?;
        if contains_address(&self.guardians, &guardian) {
            return Err(Error::DuplicateGuardian);
        }
        if self.guardians.len() >= MAX_GUARDIANS as usize {
            return Err(Error::TooManyGuardians);
        }
        let ev = CircuitBreakerEvent::GuardianAdded { guardian: guardian.clone() };
        self.guardians.push(guardian);
        self.events.push(ev);
        Ok(())
    }

    /// Remove an existing guardian.  Administrator only.
    pub fn remove_guardian(&mut self, caller: Address, guardian: Address) -> (r: Result<(), Error>)
        requires
            old(self)@.wf(),
        ensures
            final(self)@.wf(),
            final(self)@ == old(self)@.apply(Call::RemoveGuardian { caller, guardian }),
            match r {
                Ok(()) => old(self)@.remove_guardian_error(caller, guardian) is None
                    && final(self)@ == old(self)@.after_remove_guardian(guardian),
                Err(e) => old(self)@.remove_guardian_error(caller, guardian) == Some(e)
                    && final(self)@ == old(self)@,
            },
    {
        self.require_admin(&caller)?;
        let i = match find_address(&self.guardians, &guardian) {
            Some(i) => i,
            None => return Err(Error::NotGuardian),
        };
        proof {
            let g = self.guardians@;
            let j = first_index_of(g, guardian);
            assert(0 <= j < g.len() && g[j]@ == guardian@ && forall|k: int| 0 <= k < j ==> #[trigger] g[k]@ != guardian@);
            assert(j == i);
        }
        let ev = CircuitBreakerEvent::GuardianRemoved { guardian: guardian.clone() };
        self.guardians.remove(i);
        self.events.push(ev);
        Ok(())
    }

    /// The current guardians, in the order they were added.
    pub fn get_guardians(&self) -> (r: Vec<Address>)
        ensures
            r@ == self@.guardians,
    {
        copy_addresses(&self.guardians)
    }

    /// The administrator.
    pub fn get_admin(&self) -> (r: Result<Address, Error>)
        ensures
            match r {
                Ok(a) => self@.admin == Some(a),
                Err(e) => self@.admin is None && e == Error::CircuitBreakerNotInitialized,
            },
    {
        match &self.admin {
            Some(a) => Ok(a.clone()),
            None => Err(Error::CircuitBreakerNotInitialized),
        }
    }

    // ── pausing ─────────────────────────────────────────────────────────

    /// Issue the next pause record id.
    fn next_record_id(&mut self) -> (r: u64)
        requires
            old(self).last_record_id < u64::MAX,
        ensures
            r == old(self).last_record_id + 1,
            final(self).last_record_id == r,
            final(self).admin == old(self).admin,
            final(self).guardians == old(self).guardians,
            final(self).state == old(self).state,
            final(self).records == old(self).records,
            final(self).last_approval_id == old(self).last_approval_id,
            final(self).approvals == old(self).approvals,
            final(self).events == old(self).events,
    {
        self.last_record_id = self.last_record_id + 1;
        self.last_record_id
    }

    /// Write a new pause record, the live state pointing at it, and the
    /// announcement.
    fn activate_pause(
        &mut self,
        activated_by: Address,
        level: PauseLevel,
        reason: PauseReason,
        description: Vec<u8>,
        duration_secs: u64,
        now: u64,
    ) -> (r: u64)
        requires
            old(self)@.wf(),
            old(self)@.pause_fits(duration_secs, now),
        ensures
            final(self)@.wf(),
            r == old(self)@.last_record_id + 1,
            final(self)@ == old(self)@.after_pause(
                activated_by,
                level,
                reason,
                description@,
                duration_secs,
                now,
            ),
    {
        let ghost old_view = self@;
        let expires_at = compute_deadline(now, duration_secs);
        let record_id = self.next_record_id();
        let record = PauseRecord {
            record_id,
            activated_by,
            level,
            reason,
            description,
            activated_at: now,
            expires_at,
            lifted_at: 0,
            lifted_by: Vec::new(),
        };
        let ghost rv = record@;
        self.records.push(record);
        self.state = CircuitBreakerState {
            is_paused: true,
            level,
            current_record_id: record_id,
            paused_at: now,
            expires_at,
        };
        self.events.push(CircuitBreakerEvent::Paused { record_id });
        proof {
            assert(rv.lifted_by =~= Seq::<Address>::empty());
            assert(self@.records =~= old_view.records.push(rv));
        }
        record_id
    }

    /// Whether a new pause fits: its record id and deadline do not
    /// overflow.
    fn pause_fits(&self, duration_secs: u64, now: u64) -> (r: bool)
        ensures
            r == self@.pause_fits(duration_secs, now),
    {
        self.last_record_id < u64::MAX && (duration_secs == 0 || now <= u64::MAX - duration_secs)
    }

    /// The checks of an instant pause, in order.
    fn instant_pause_check(&self, caller: &Address, description: &Vec<u8>, duration_secs: u64) -> (r: Result<(), Error>)
        ensures
            match r {
                Ok(()) => self@.instant_pause_error(*caller, description@, duration_secs) is None,
                Err(e) => self@.instant_pause_error(*caller, description@, duration_secs) == Some(e),
            },
    {
        self.require_guardian(caller)?;
        validate_description(description)?;
        validate_duration(duration_secs)?;
        Ok(())
    }

    /// Whether [`CircuitBreakerContract::instant_pause`] would pass its
    /// checks but overflow the record id or the deadline.  On such a call
    /// the host traps (and so reverts) instead of calling the breaker.
    pub fn instant_pause_overflows(
        &self,
        caller: &Address,
        description: &Vec<u8>,
        duration_secs: u64,
        now: u64,
    ) -> (r: bool)
        ensures
            r == (self@.instant_pause_error(*caller, description@, duration_secs) is None
                && !self@.pause_fits(duration_secs, now)),
    {
        self.instant_pause_check(caller, description, duration_secs).is_ok()
            && !self.pause_fits(duration_secs, now)
    }

    /// Immediately activate a pause.  Any single guardian may do so; meant
    /// for active incidents where speed matters more than consensus.
    ///
    /// `duration_secs` is the time until the pause lapses; `0` for never.
    /// Returns the id of the new pause record.
    pub fn instant_pause(
        &mut self,
        caller: Address,
        level: PauseLevel,
        reason: PauseReason,
        description: Vec<u8>,
        duration_secs: u64,
        now: u64,
    ) -> (r: Result<u64, Error>)
        requires
            old(self)@.wf(),
            old(self)@.instant_pause_error(caller, description@, duration_secs) is None
                ==> old(self)@.pause_fits(duration_secs, now),
        ensures
            final(self)@.wf(),
            final(self)@ == old(self)@.apply(Call::InstantPause { caller, level, reason, description: description@, duration_secs, now }),
            match r {
                Ok(id) => old(self)@.instant_pause_error(caller, description@, duration_secs) is None
                    && id == old(self)@.last_record_id + 1
                    && final(self)@ == old(self)@.after_pause(
                        caller,
                        level,
                        reason,
                        description@,
                        duration_secs,
                        now,
                    ),
                Err(e) => old(self)@.instant_pause_error(caller, description@, duration_secs) == Some(e)
                    && final(self)@ == old(self)@,
            },
    {
        self.instant_pause_check(&caller, &description, duration_secs)?;
        Ok(self.activate_pause(caller, level, reason, description, duration_secs, now))
    }

    // ── proposals ───────────────────────────────────────────────────────

    /// Issue the next proposal id.
    fn next_approval_id(&mut self) -> (r: u64)
        requires
            old(self).last_approval_id < u64::MAX,
        ensures
            r == old(self).last_approval_id + 1,
            final(self).last_approval_id == r,
            final(self).admin == old(self).admin,
            final(self).guardians == old(self).guardians,
            final(self).state == old(self).state,
            final(self).last_record_id == old(self).last_record_id,
            final(self).records == old(self).records,
            final(self).approvals == old(self).approvals,
            final(self).events == old(self).events,
    {
        self.last_approval_id = self.last_approval_id + 1;
        self.last_approval_id
    }

    /// The stored proposal with this id, if any.
    fn get_approval(&self, approval_id: u64) -> (r: Option<PauseApproval>)
        ensures
            match r {
                Some(a) => self@.has_approval(approval_id) && a@ == self@.approval(approval_id),
                None => !self@.has_approval(approval_id),
            },
    {
        if approval_id >= 1 && approval_id <= self.approvals.len() as u64 {
            let a = self.approvals[(approval_id - 1) as usize].clone();
            Some(a)
        } else {
            None
        }
    }

    /// Overwrite the stored proposal that has the id of `approval`.
    fn put_approval(&mut self, approval: PauseApproval)
        requires
            old(self)@.has_approval(approval.approval_id),
        ensures
            final(self)@ == (CircuitBreakerView {
                approvals: old(self)@.approvals.update(approval.approval_id - 1, approval@),
                ..old(self)@
            }),
    {
        let ghost old_view = self@;
        let ghost av = approval@;
        let n = self.approvals.len();
        assert(old_view.approvals.len() == n);
        let idx = (approval.approval_id - 1) as usize;
        assert(idx as int == approval.approval_id - 1);
        self.approvals.set(idx, approval);
        assert(self@.approvals =~= old_view.approvals.update(idx as int, av));
    }

    /// The checks of a proposal, in order.
    fn propose_pause_check(
        &self,
        proposer: &Address,
        description: &Vec<u8>,
        pause_duration_secs: u64,
        required_approvals: u32,
    ) -> (r: Result<(), Error>)
        ensures
            match r {
                Ok(()) => self@.propose_pause_error(*proposer, description@, pause_duration_secs, required_approvals) is None,
                Err(e) => self@.propose_pause_error(*proposer, description@, pause_duration_secs, required_approvals) == Some(e),
            },
    {
        self.require_guardian(proposer)?;
        validate_description(description)?;
        validate_duration(pause_duration_secs)?;
        if required_approvals == 0 || required_approvals as usize > self.guardians.len() {
            return Err(Error::InvalidThreshold);
        }
        Ok(())
    }

    /// Whether [`CircuitBreakerContract::propose_pause`] would pass its
    /// checks but overflow the proposal id or the voting deadline.  On such
    /// a call the host traps (and so reverts) instead of calling the breaker.
    pub fn propose_pause_overflows(
        &self,
        proposer: &Address,
        description: &Vec<u8>,
        pause_duration_secs: u64,
        required_approvals: u32,
        approval_window_secs: u64,
        now: u64,
    ) -> (r: bool)
        ensures
            r == (self@.propose_pause_error(*proposer, description@, pause_duration_secs, required_approvals) is None
                && !self@.proposal_fits(approval_window_secs, now)),
    {
        self.propose_pause_check(proposer, description, pause_duration_secs, required_approvals).is_ok()
            && !(self.last_approval_id < u64::MAX
                && (approval_window_secs == 0 || now <= u64::MAX - approval_window_secs))
    }

    /// Propose a pause that needs `required_approvals` guardian votes.  The
    /// proposer's vote counts at once.  The proposal stays open for
    /// `approval_window_secs` seconds (`0`: until executed).  Returns the
    /// id of the new proposal.
    ///
    /// `pause_duration_secs` is checked as a pause duration; the pause that
    /// execution activates takes its duration from the executor.
    pub fn propose_pause(
        &mut self,
        proposer: Address,
        level: PauseLevel,
        reason: PauseReason,
        description: Vec<u8>,
        pause_duration_secs: u64,
        required_approvals: u32,
        approval_window_secs: u64,
        now: u64,
    ) -> (r: Result<u64, Error>)
        requires
            old(self)@.wf(),
            old(self)@.propose_pause_error(proposer, description@, pause_duration_secs, required_approvals) is None
                ==> old(self)@.proposal_fits(approval_window_secs, now),
        ensures
            final(self)@.wf(),
            final(self)@ == old(self)@.apply(Call::ProposePause {
                    proposer,
                    level,
                    reason,
                    description: description@,
                    pause_duration_secs,
                    required_approvals,
                    approval_window_secs,
                    now,
                }),
            match r {
                Ok(id) => old(self)@.propose_pause_error(proposer, description@, pause_duration_secs, required_approvals) is None
                    && id == old(self)@.last_approval_id + 1
                    && final(self)@ == old(self)@.after_propose_pause(
                        proposer,
                        level,
                        reason,
                        description@,
                        required_approvals,
                        approval_window_secs,
                        now,
                    ),
                Err(e) => old(self)@.propose_pause_error(proposer, description@, pause_duration_secs, required_approvals) == Some(e)
                    && final(self)@ == old(self)@,
            },
    {
        self.propose_pause_check(&proposer, &description, pause_duration_secs, required_approvals)?;
        let ghost old_view = self@;
        let expires_at = compute_deadline(now, approval_window_secs);
        let approval_id = self.next_approval_id();
        let mut votes: Vec<Address> = Vec::new();
        votes.push(proposer.clone());
        let approval = PauseApproval {
            approval_id,
            proposed_level: level,
            proposed_reason: reason,
            description,
            expires_at,
            proposer,
            approvals: votes,
            required_approvals,
            executed: false,
        };
        let ghost av = approval@;
        self.approvals.push(approval);
        self.events.push(CircuitBreakerEvent::ProposalCreated { approval_id });
        proof {
            assert(av.approvals =~= seq![av.proposer]);
            assert(self@.approvals =~= old_view.approvals.push(av));
        }
        Ok(approval_id)
    }

    /// Vote for an open proposal.  Each guardian votes at most once.
    pub fn approve_pause_proposal(&mut self, approver: Address, approval_id: u64, now: u64) -> (r: Result<(), Error>)
        requires
            old(self)@.wf(),
        ensures
            final(self)@.wf(),
            final(self)@ == old(self)@.apply(Call::Approve { approver, approval_id, now }),
            match r {
                Ok(()) => old(self)@.approve_error(approver, approval_id, now) is None
                    && final(self)@ == old(self)@.after_approve(approver, approval_id),
                Err(e) => old(self)@.approve_error(approver, approval_id, now) == Some(e)
                    && final(self)@ == old(self)@,
            },
    {
        self.require_guardian(&approver)?;
        let mut approval = match self.get_approval(approval_id) {
            Some(a) => a,
            None => return Err(Error::ApprovalNotFound),
        };
        if approval.executed {
            return Err(Error::ApprovalAlreadyExecuted);
        }
        if is_expired(approval.expires_at, now) {
            return Err(Error::ApprovalExpired);
        }
        if contains_address(&approval.approvals, &approver) {
            return Err(Error::ApprovalAlreadyVoted);
        }
        let ghost old_view = self@;
        let ev = CircuitBreakerEvent::ProposalApproved { approval_id, approver: approver.clone() };
        approval.approvals.push(approver);
        self.put_approval(approval);
        self.events.push(ev);
        proof {
            old_view.lemma_approve_wf(approver, approval_id, now);
        }
        Ok(())
    }

    /// The checks of an execution, in order; the proposal when they pass.
    fn execute_check(
        &self,
        executor: &Address,
        approval_id: u64,
        pause_duration_secs: u64,
        now: u64,
    ) -> (r: Result<PauseApproval, Error>)
        ensures
            match r {
                Ok(a) => self@.execute_error(*executor, approval_id, pause_duration_secs, now) is None
                    && a@ == self@.approval(approval_id),
                Err(e) => self@.execute_error(*executor, approval_id, pause_duration_secs, now) == Some(e),
            },
    {
        self.require_guardian(executor)?;
        validate_duration(pause_duration_secs)?;
        let approval = match self.get_approval(approval_id) {
            Some(a) => a,
            None => return Err(Error::ApprovalNotFound),
        };
        if approval.executed {
            return Err(Error::ApprovalAlreadyExecuted);
        }
        if is_expired(approval.expires_at, now) {
            return Err(Error::ApprovalExpired);
        }
        if approval.approvals.len() < approval.required_approvals as usize {
            return Err(Error::ApprovalThresholdNotReached);
        }
        Ok(approval)
    }

    /// Whether [`CircuitBreakerContract::execute_pause_proposal`] would pass
    /// its checks but overflow the record id or the deadline.  On such a
    /// call the host traps (and so reverts) instead of calling the breaker.
    pub fn execute_pause_proposal_overflows(
        &self,
        executor: &Address,
        approval_id: u64,
        pause_duration_secs: u64,
        now: u64,
    ) -> (r: bool)
        ensures
            r == (self@.execute_error(*executor, approval_id, pause_duration_secs, now) is None
                && !self@.pause_fits(pause_duration_secs, now)),
    {
        self.execute_check(executor, approval_id, pause_duration_secs, now).is_ok()
            && !self.pause_fits(pause_duration_secs, now)
    }

    /// Execute a proposal once enough guardians voted for it: mark it
    /// executed and activate the pause it asks for, lasting
    /// `pause_duration_secs` (`0`: no expiry).  Any guardian may execute.
    /// Returns the id of the new pause record.
    pub fn execute_pause_proposal(
        &mut self,
        executor: Address,
        approval_id: u64,
        pause_duration_secs: u64,
        now: u64,
    ) -> (r: Result<u64, Error>)
        requires
            old(self)@.wf(),
            old(self)@.execute_error(executor, approval_id, pause_duration_secs, now) is None
                ==> old(self)@.pause_fits(pause_duration_secs, now),
        ensures
            final(self)@.wf(),
            final(self)@ == old(self)@.apply(Call::Execute { executor, approval_id, pause_duration_secs, now }),
            match r {
                Ok(id) => old(self)@.execute_error(executor, approval_id, pause_duration_secs, now) is None
                    && id == old(self)@.last_record_id + 1
                    && final(self)@ == old(self)@.after_execute(executor, approval_id, pause_duration_secs, now),
                Err(e) => old(self)@.execute_error(executor, approval_id, pause_duration_secs, now) == Some(e)
                    && final(self)@ == old(self)@,
            },
    {
        let mut approval = self.execute_check(&executor, approval_id, pause_duration_secs, now)?;
        let ghost old_view = self@;
        approval.executed = true;
        let level = approval.proposed_level;
        let reason = approval.proposed_reason;
        let description = copy_bytes(&approval.description);
        self.put_approval(approval);
        proof {
            old_view.lemma_mark_executed_wf(approval_id);
            assert(self@ == old_view.marked_executed(approval_id));
        }
        let record_id = self.activate_pause(
            executor.clone(),
            level,
            reason,
            description,
            pause_duration_secs,
            now,
        );
        self.events.push(CircuitBreakerEvent::ProposalExecuted { approval_id, executor, record_id });
        Ok(record_id)
    }

    // ── ending a pause ──────────────────────────────────────────────────

    /// The stored pause record with this id, if any.
    fn get_record(&self, record_id: u64) -> (r: Option<PauseRecord>)
        ensures
            match r {
                Some(rec) => self@.has_record(record_id) && rec@ == self@.record(record_id),
                None => !self@.has_record(record_id),
            },
    {
        if record_id >= 1 && record_id <= self.records.len() as u64 {
            let rec = self.records[(record_id - 1) as usize].clone();
            Some(rec)
        } else {
            None
        }
    }

    /// Overwrite the stored pause record that has the id of `record`.
    fn put_record(&mut self, record: PauseRecord)
        requires
            old(self)@.has_record(record.record_id),
        ensures
            final(self)@ == (CircuitBreakerView {
                records: old(self)@.records.update(record.record_id - 1, record@),
                ..old(self)@
            }),
    {
        let ghost old_view = self@;
        let ghost rv = record@;
        let n = self.records.len();
        assert(old_view.records.len() == n);
        let idx = (record.record_id - 1) as usize;
        assert(idx as int == record.record_id - 1);
        self.records.set(idx, record);
        assert(self@.records =~= old_view.records.update(idx as int, rv));
    }

    /// Lift the live pause.  Administrator only.  The pause's record notes
    /// when and by whom it was lifted.  Returns the id of that record.
    pub fn lift_pause(&mut self, caller: Address, now: u64) -> (r: Result<u64, Error>)
        requires
            old(self)@.wf(),
        ensures
            final(self)@.wf(),
            final(self)@ == old(self)@.apply(Call::Lift { caller, now }),
            match r {
                Ok(id) => old(self)@.lift_error(caller) is None
                    && id == old(self)@.state.current_record_id
                    && final(self)@ == old(self)@.after_lift(caller, now),
                Err(e) => old(self)@.lift_error(caller) == Some(e)
                    && final(self)@ == old(self)@,
            },
    {
        self.require_admin(&caller)?;
        if !self.state.is_paused {
            return Err(Error::ContractNotPaused);
        }
        let ghost old_view = self@;
        let record_id = self.state.current_record_id;
        if let Some(mut record) = self.get_record(record_id) {
            record.lifted_at = now;
            record.lifted_by.push(caller.clone());
            self.put_record(record);
        }
        self.state.is_paused = false;
        self.state.level = PauseLevel::Advisory;
        self.state.expires_at = 0;
        proof {
            old_view.lemma_lift_wf(caller, now);
        }
        self.events.push(CircuitBreakerEvent::Lifted { record_id, lifted_by: caller });
        Ok(record_id)
    }

    /// End the live pause if it has lapsed at ledger time `now`: its record
    /// notes when, and the breaker is no longer paused.
    fn settle(&mut self, now: u64)
        requires
            old(self)@.wf(),
        ensures
            final(self)@.wf(),
            final(self)@ == old(self)@.settled(now),
    {
        if self.state.is_paused && is_expired(self.state.expires_at, now) {
            let ghost old_view = self@;
            let record_id = self.state.current_record_id;
            if let Some(mut record) = self.get_record(record_id) {
                record.lifted_at = now;
                self.put_record(record);
            }
            self.events.push(CircuitBreakerEvent::Expired { record_id, at: now });
            self.state.is_paused = false;
            self.state.level = PauseLevel::Advisory;
            self.state.expires_at = 0;
            proof {
                old_view.lemma_settled_wf(now);
            }
        }
    }

    // ── status queries ──────────────────────────────────────────────────

    /// The live state at ledger time `now`.  A pause that has lapsed is
    /// ended first, so the state returned is never a lapsed pause.
    pub fn get_state(&mut self, now: u64) -> (r: CircuitBreakerState)
        requires
            old(self)@.wf(),
        ensures
            final(self)@.wf(),
            final(self)@ == old(self)@.apply(Call::Settle { now }),
            final(self)@ == old(self)@.settled(now),
            r == final(self)@.state,
    {
        self.settle(now);
        self.state
    }

    /// Whether the breaker is paused at ledger time `now` (at any level,
    /// Advisory included).
    pub fn is_paused(&mut self, now: u64) -> (r: bool)
        requires
            old(self)@.wf(),
        ensures
            final(self)@.wf(),
            final(self)@ == old(self)@.apply(Call::Settle { now }),
            final(self)@ == old(self)@.settled(now),
            r == final(self)@.state.is_paused,
    {
        let state = self.get_state(now);
        state.is_paused
    }

    /// Whether writes may go ahead at ledger time `now`: not paused, or
    /// paused at Advisory level.
    pub fn check_writes_allowed(&mut self, now: u64) -> (r: bool)
        requires
            old(self)@.wf(),
        ensures
            final(self)@.wf(),
            final(self)@ == old(self)@.apply(Call::Settle { now }),
            final(self)@ == old(self)@.settled(now),
            r == crate::rules::writes_allowed(final(self)@.state),
    {
        let state = self.get_state(now);
        writes_allowed_in(&state)
    }

    /// Whether mutations may go ahead at ledger time `now`: not paused, or
    /// paused at Advisory or Partial level.
    pub fn check_mutations_allowed(&mut self, now: u64) -> (r: bool)
        requires
            old(self)@.wf(),
        ensures
            final(self)@.wf(),
            final(self)@ == old(self)@.apply(Call::Settle { now }),
            final(self)@ == old(self)@.settled(now),
            r == crate::rules::mutations_allowed(final(self)@.state),
    {
        let state = self.get_state(now);
        mutations_allowed_in(&state)
    }

    /// Whether reads may go ahead at ledger time `now`: anything but an
    /// Emergency pause.
    pub fn check_reads_allowed(&mut self, now: u64) -> (r: bool)
        requires
            old(self)@.wf(),
        ensures
            final(self)@.wf(),
            final(self)@ == old(self)@.apply(Call::Settle { now }),
            final(self)@ == old(self)@.settled(now),
            r == crate::rules::reads_allowed(final(self)@.state),
    {
        let state = self.get_state(now);
        reads_allowed_in(&state)
    }

    /// The pause record with this id.
    pub fn get_pause_record(&self, record_id: u64) -> (r: Result<PauseRecord, Error>)
        ensures
            match r {
                Ok(rec) => self@.has_record(record_id) && rec@ == self@.record(record_id),
                Err(e) => !self@.has_record(record_id) && e == Error::PauseRecordNotFound,
            },
    {
        match self.get_record(record_id) {
            Some(rec) => Ok(rec),
            None => Err(Error::PauseRecordNotFound),
        }
    }

    /// The proposal with this id.
    pub fn get_pause_approval(&self, approval_id: u64) -> (r: Result<PauseApproval, Error>)
        ensures
            match r {
                Ok(a) => self@.has_approval(approval_id) && a@ == self@.approval(approval_id),
                Err(e) => !self@.has_approval(approval_id) && e == Error::ApprovalNotFound,
            },
    {
        match self.get_approval(approval_id) {
            Some(a) => Ok(a),
            None => Err(Error::ApprovalNotFound),
        }
    }

    // ── storage ─────────────────────────────────────────────────────────

    /// Rebuild a breaker from stored values.  `None` when the values break
    /// the breaker's invariant (they never do when they were stored by
    /// [`CircuitBreakerContract::into_stored`]).
    pub fn restore(stored: StoredBreaker) -> (r: Option<Self>)
        ensures
            match r {
                Some(c) => c@ == stored_view(stored) && c@.wf(),
                None => !stored_view(stored).wf(),
            },
    {
        let ghost v = stored_view(stored);
        if stored.guardians.len() > MAX_GUARDIANS as usize || !all_distinct(&stored.guardians) {
            return None;
        }
        if stored.admin.is_none() && stored.guardians.len() != 0 {
            return None;
        }
        if stored.records.len() as u64 != stored.last_record_id
            || stored.approvals.len() as u64 != stored.last_approval_id {
            return None;
        }
        let nr = stored.records.len();
        for i in 0..nr
            invariant
                nr == stored.records.len(),
                v == stored_view(stored),
                forall|k: int| 0 <= k < i ==> #[trigger] v.records[k].record_id == k + 1,
        {
            let expected: u64 = (i as u64) + 1;
            if stored.records[i].record_id != expected {
                assert(v.records[i as int] == stored.records@[i as int]@);
                assert(v.records[i as int].record_id != i + 1);
                return None;
            }
        }
        let na = stored.approvals.len();
        for i in 0..na
            invariant
                na == stored.approvals.len(),
                v == stored_view(stored),
                forall|k: int| 0 <= k < i ==> #[trigger] v.approvals[k].approval_id == k + 1,
                forall|k: int| 0 <= k < i ==> #[trigger] v.approvals[k].well_formed(),
        {
            let expected: u64 = (i as u64) + 1;
            if stored.approvals[i].approval_id != expected
                || !approval_well_formed(&stored.approvals[i]) {
                assert(v.approvals[i as int] == stored.approvals@[i as int]@);
                assert(v.approvals[i as int].approval_id != i + 1
                    || !v.approvals[i as int].well_formed());
                return None;
            }
        }
        let s = stored.state;
        if s.current_record_id > stored.last_record_id {
            return None;
        }
        if s.is_paused {
            if s.current_record_id == 0 {
                return None;
            }
            let r = &stored.records[(s.current_record_id - 1) as usize];
            assert(v.record(s.current_record_id) == r@);
            if r.level != s.level || r.activated_at != s.paused_at || r.expires_at != s.expires_at
                || r.lifted_at != 0 || r.lifted_by.len() != 0 {
                return None;
            }
        }
        if !s.is_paused {
            match s.level {
                PauseLevel::Advisory => {},
                _ => return None,
            }
            if s.expires_at != 0 {
                return None;
            }
        }
        let c = CircuitBreakerContract {
            admin: stored.admin,
            guardians: stored.guardians,
            state: stored.state,
            last_record_id: stored.last_record_id,
            records: stored.records,
            last_approval_id: stored.last_approval_id,
            approvals: stored.approvals,
            events: Vec::new(),
        };
        assert(c@.events =~= Seq::empty());
        Some(c)
    }

    /// The values to store for this breaker; queued announcements are
    /// dropped (hand them out with [`CircuitBreakerContract::take_events`]
    /// first).
    pub fn into_stored(self) -> (r: StoredBreaker)
        ensures
            stored_view(r) == (CircuitBreakerView { events: Seq::empty(), ..self@ }),
    {
        StoredBreaker {
            admin: self.admin,
            guardians: self.guardians,
            state: self.state,
            last_record_id: self.last_record_id,
            records: self.records,
            last_approval_id: self.last_approval_id,
            approvals: self.approvals,
        }
    }
}

} // verus!
