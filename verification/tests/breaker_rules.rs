use circuit_breaker::{
    is_expired, validate_description, validate_duration, Address, CircuitBreakerContract,
    CircuitBreakerEvent, Error, PauseLevel, PauseReason, StoredBreaker, MAX_GUARDIANS,
    MAX_PAUSE_DURATION_SECS,
};

fn key(tag: &str) -> Address {
    Address::new(format!("C{:0>55}", tag))
}

fn bytes(s: &str) -> Vec<u8> {
    s.as_bytes().to_vec()
}

fn setup(n: usize) -> (CircuitBreakerContract, Address, Vec<Address>) {
    let mut c = CircuitBreakerContract::new();
    let admin = key("ADMIN");
    let gs: Vec<Address> = (0..n).map(|i| key(&format!("GUARD{}", i))).collect();
    c.initialize(admin.clone(), gs.clone()).unwrap();
    c.take_events();
    (c, admin, gs)
}

// ─── validation rules ─────────────────────────────────────────────────────

#[test]
fn duration_bounds() {
    assert_eq!(MAX_PAUSE_DURATION_SECS, 30 * 24 * 60 * 60);
    assert_eq!(validate_duration(0), Ok(()));
    assert_eq!(validate_duration(MAX_PAUSE_DURATION_SECS), Ok(()));
    assert_eq!(validate_duration(MAX_PAUSE_DURATION_SECS + 1), Err(Error::InvalidPauseDuration));
    assert_eq!(validate_duration(u64::MAX), Err(Error::InvalidPauseDuration));
}

#[test]
fn description_bounds() {
    assert_eq!(validate_description(&vec![b'x'; 256]), Ok(()));
    assert_eq!(validate_description(&vec![b'x'; 257]), Err(Error::PauseDescriptionTooLong));
    assert_eq!(validate_description(&Vec::new()), Ok(()));
}

#[test]
fn expiry_boundaries() {
    assert!(!is_expired(0, 0));
    assert!(!is_expired(0, u64::MAX));
    assert!(!is_expired(100, 99));
    // At the deadline itself the deadline still holds.
    assert!(!is_expired(100, 100));
    assert!(is_expired(100, 101));
}

// ─── errors, one input each ───────────────────────────────────────────────

#[test]
fn uninitialised_breaker_refuses_admin_calls() {
    let mut c = CircuitBreakerContract::new();
    let a = key("A");
    assert_eq!(c.get_admin().err(), Some(Error::CircuitBreakerNotInitialized));
    assert_eq!(c.add_guardian(a.clone(), key("B")), Err(Error::CircuitBreakerNotInitialized));
    assert_eq!(c.remove_guardian(a.clone(), key("B")), Err(Error::CircuitBreakerNotInitialized));
    assert_eq!(c.lift_pause(a.clone(), 0), Err(Error::CircuitBreakerNotInitialized));
    assert_eq!(
        c.instant_pause(a, PauseLevel::Full, PauseReason::ContractBug, bytes("x"), 0, 0),
        Err(Error::NotGuardian)
    );
    assert!(c.get_guardians().is_empty());
    assert!(!c.is_paused(0));
}

#[test]
fn unauthorized_callers() {
    let (mut c, _, gs) = setup(3);
    let stranger = key("STRANGER");
    assert_eq!(c.add_guardian(stranger.clone(), key("NEW")), Err(Error::Unauthorized));
    assert_eq!(c.remove_guardian(gs[0].clone(), gs[1].clone()), Err(Error::Unauthorized));
    c.instant_pause(gs[0].clone(), PauseLevel::Full, PauseReason::ContractBug, bytes("x"), 0, 0)
        .unwrap();
    assert_eq!(c.lift_pause(gs[0].clone(), 0), Err(Error::Unauthorized));
    assert_eq!(c.lift_pause(stranger, 0), Err(Error::Unauthorized));
}

#[test]
fn add_guardian_beyond_capacity() {
    let (mut c, admin, _) = setup(MAX_GUARDIANS as usize);
    assert_eq!(c.add_guardian(admin.clone(), key("ONE_MORE")), Err(Error::TooManyGuardians));
    // A duplicate is reported before the capacity.
    let (mut c2, admin2, gs2) = setup(MAX_GUARDIANS as usize);
    assert_eq!(c2.add_guardian(admin2, gs2[3].clone()), Err(Error::DuplicateGuardian));
    assert_eq!(c.get_guardians().len(), 20);
}

#[test]
fn initialize_with_exactly_max_guardians() {
    let (c, _, gs) = setup(MAX_GUARDIANS as usize);
    assert_eq!(c.get_guardians(), gs);
}

#[test]
fn error_precedence_in_instant_pause() {
    let (mut c, _, gs) = setup(2);
    // Guardian check comes before description and duration checks.
    assert_eq!(
        c.instant_pause(key("X"), PauseLevel::Full, PauseReason::ContractBug, vec![0; 300], u64::MAX, 0),
        Err(Error::NotGuardian)
    );
    // Description before duration.
    assert_eq!(
        c.instant_pause(gs[0].clone(), PauseLevel::Full, PauseReason::ContractBug, vec![0; 300], u64::MAX, 0),
        Err(Error::PauseDescriptionTooLong)
    );
    assert_eq!(
        c.instant_pause(gs[0].clone(), PauseLevel::Full, PauseReason::ContractBug, vec![0; 256], u64::MAX, 0),
        Err(Error::InvalidPauseDuration)
    );
}

#[test]
fn proposal_errors() {
    let (mut c, _, gs) = setup(3);
    assert_eq!(c.get_pause_approval(1).err(), Some(Error::ApprovalNotFound));
    assert_eq!(c.approve_pause_proposal(gs[1].clone(), 7, 0), Err(Error::ApprovalNotFound));
    assert_eq!(c.execute_pause_proposal(gs[1].clone(), 7, 0, 0), Err(Error::ApprovalNotFound));
    assert_eq!(
        c.execute_pause_proposal(gs[1].clone(), 7, MAX_PAUSE_DURATION_SECS + 1, 0),
        Err(Error::InvalidPauseDuration)
    );
    assert_eq!(
        c.propose_pause(gs[0].clone(), PauseLevel::Full, PauseReason::ContractBug, bytes("x"), MAX_PAUSE_DURATION_SECS + 1, 1, 0, 0),
        Err(Error::InvalidPauseDuration)
    );
    assert_eq!(
        c.propose_pause(gs[0].clone(), PauseLevel::Full, PauseReason::ContractBug, vec![1; 257], 0, 1, 0, 0),
        Err(Error::PauseDescriptionTooLong)
    );
    // Non-guardians cannot vote or execute.
    let id = c
        .propose_pause(gs[0].clone(), PauseLevel::Full, PauseReason::ContractBug, bytes("x"), 0, 2, 0, 0)
        .unwrap();
    assert_eq!(c.approve_pause_proposal(key("X"), id, 0), Err(Error::NotGuardian));
    assert_eq!(c.execute_pause_proposal(key("X"), id, 0, 0), Err(Error::NotGuardian));
    // The proposer has already voted.
    assert_eq!(c.approve_pause_proposal(gs[0].clone(), id, 0), Err(Error::ApprovalAlreadyVoted));
}

// ─── laws on concrete values ──────────────────────────────────────────────

#[test]
fn refused_call_changes_nothing() {
    let (mut c, admin, gs) = setup(3);
    c.instant_pause(gs[0].clone(), PauseLevel::Partial, PauseReason::Maintenance, bytes("m"), 50, 10)
        .unwrap();
    c.take_events();
    assert!(c.add_guardian(key("X"), key("Y")).is_err());
    assert!(c.remove_guardian(admin.clone(), key("Y")).is_err());
    assert!(c.instant_pause(key("X"), PauseLevel::Full, PauseReason::ContractBug, bytes("x"), 0, 10).is_err());
    assert!(c.propose_pause(gs[0].clone(), PauseLevel::Full, PauseReason::ContractBug, bytes("x"), 0, 9, 0, 10).is_err());
    assert!(c.take_events().is_empty());
    assert_eq!(c.get_guardians(), gs);
    let s = c.into_stored();
    assert_eq!(s.records.len(), 1);
    assert_eq!(s.approvals.len(), 0);
    assert!(s.state.is_paused);
    assert_eq!(s.state.level, PauseLevel::Partial);
    assert_eq!(s.state.expires_at, 60);
}

#[test]
fn pause_record_holds_request() {
    let (mut c, _, gs) = setup(2);
    let id = c
        .instant_pause(gs[1].clone(), PauseLevel::Emergency, PauseReason::OracleFailure, bytes("oracle"), 600, 1000)
        .unwrap();
    let r = c.get_pause_record(id).unwrap();
    assert_eq!(r.record_id, 1);
    assert_eq!(r.activated_by, gs[1]);
    assert_eq!(r.level, PauseLevel::Emergency);
    assert_eq!(r.reason, PauseReason::OracleFailure);
    assert_eq!(r.description, bytes("oracle"));
    assert_eq!(r.activated_at, 1000);
    assert_eq!(r.expires_at, 1600);
    assert_eq!(r.lifted_at, 0);
    assert!(r.lifted_by.is_empty());
    let s = c.get_state(1000);
    assert_eq!(s.paused_at, 1000);
    assert_eq!(s.expires_at, 1600);
}

#[test]
fn pause_lapses_once_deadline_exceeded() {
    let (mut c, _, gs) = setup(1);
    let id = c
        .instant_pause(gs[0].clone(), PauseLevel::Full, PauseReason::Maintenance, bytes("m"), 100, 500)
        .unwrap();
    c.take_events();
    assert!(c.is_paused(599));
    assert!(c.is_paused(600));
    assert!(!c.check_mutations_allowed(600));
    assert!(c.take_events().is_empty());
    assert!(c.check_mutations_allowed(601));
    assert!(!c.is_paused(601));
    let ev = c.take_events();
    assert_eq!(ev.len(), 1);
    assert!(matches!(ev[0], CircuitBreakerEvent::Expired { record_id: 1, at: 601 }));
    let r = c.get_pause_record(id).unwrap();
    assert_eq!(r.lifted_at, 601);
    assert!(r.lifted_by.is_empty());
    // Settling again changes nothing and announces nothing.
    let s1 = c.get_state(700);
    assert!(!s1.is_paused);
    assert_eq!(s1.current_record_id, 1);
    assert!(c.take_events().is_empty());
    assert_eq!(c.get_pause_record(id).unwrap().lifted_at, 601);
}

#[test]
fn lifting_twice_is_refused() {
    let (mut c, admin, gs) = setup(1);
    c.instant_pause(gs[0].clone(), PauseLevel::Full, PauseReason::Maintenance, bytes("m"), 0, 5)
        .unwrap();
    assert_eq!(c.lift_pause(admin.clone(), 9), Ok(1));
    assert_eq!(c.lift_pause(admin.clone(), 9), Err(Error::ContractNotPaused));
    let r = c.get_pause_record(1).unwrap();
    assert_eq!(r.lifted_at, 9);
    assert_eq!(r.lifted_by, vec![admin]);
    let s = c.get_state(9);
    assert_eq!(s.level, PauseLevel::Advisory);
    assert_eq!(s.expires_at, 0);
    assert_eq!(s.paused_at, 5);
}

#[test]
fn lapsed_but_unobserved_pause_can_still_be_lifted() {
    let (mut c, admin, gs) = setup(1);
    c.instant_pause(gs[0].clone(), PauseLevel::Full, PauseReason::Maintenance, bytes("m"), 10, 0)
        .unwrap();
    // Nobody asked for the state after the deadline: the pause is still stored.
    assert_eq!(c.lift_pause(admin, 50), Ok(1));
    assert_eq!(c.get_pause_record(1).unwrap().lifted_at, 50);
}

#[test]
fn add_then_remove_restores_guardians() {
    let (mut c, admin, gs) = setup(3);
    c.add_guardian(admin.clone(), key("NEW")).unwrap();
    assert_eq!(c.get_guardians().len(), 4);
    c.remove_guardian(admin.clone(), key("NEW")).unwrap();
    assert_eq!(c.get_guardians(), gs);
    // Removing from the middle keeps the order of the others.
    c.remove_guardian(admin, gs[1].clone()).unwrap();
    assert_eq!(c.get_guardians(), vec![gs[0].clone(), gs[2].clone()]);
}

#[test]
fn proposer_vote_alone_can_suffice() {
    let (mut c, _, gs) = setup(3);
    let id = c
        .propose_pause(gs[2].clone(), PauseLevel::Emergency, PauseReason::SecurityBreach, bytes("s"), 0, 1, 30, 100)
        .unwrap();
    let a = c.get_pause_approval(id).unwrap();
    assert_eq!(a.approvals, vec![gs[2].clone()]);
    assert_eq!(a.expires_at, 130);
    assert!(!a.executed);
    let rid = c.execute_pause_proposal(gs[0].clone(), id, 40, 100).unwrap();
    let r = c.get_pause_record(rid).unwrap();
    assert_eq!(r.activated_by, gs[0]);
    assert_eq!(r.level, PauseLevel::Emergency);
    assert_eq!(r.reason, PauseReason::SecurityBreach);
    assert_eq!(r.description, bytes("s"));
    assert_eq!(r.expires_at, 140);
    assert!(c.get_pause_approval(id).unwrap().executed);
    // Executed proposals take no more votes.
    assert_eq!(c.approve_pause_proposal(gs[1].clone(), id, 100), Err(Error::ApprovalAlreadyExecuted));
}

#[test]
fn proposal_window_closes_for_execution() {
    let (mut c, _, gs) = setup(2);
    let id = c
        .propose_pause(gs[0].clone(), PauseLevel::Full, PauseReason::ContractBug, bytes("x"), 0, 1, 60, 0)
        .unwrap();
    assert_eq!(c.execute_pause_proposal(gs[1].clone(), id, 0, 61), Err(Error::ApprovalExpired));
    // At the end of the window the proposal is still open.
    assert_eq!(c.execute_pause_proposal(gs[1].clone(), id, 0, 60), Ok(1));
}

#[test]
fn removed_guardian_votes_still_count() {
    let (mut c, admin, gs) = setup(3);
    let id = c
        .propose_pause(gs[0].clone(), PauseLevel::Partial, PauseReason::Maintenance, bytes("x"), 0, 2, 0, 0)
        .unwrap();
    c.approve_pause_proposal(gs[1].clone(), id, 0).unwrap();
    c.remove_guardian(admin, gs[1].clone()).unwrap();
    assert_eq!(c.execute_pause_proposal(gs[2].clone(), id, 0, 0), Ok(1));
}

#[test]
fn events_follow_operations() {
    let mut c = CircuitBreakerContract::new();
    let admin = key("ADMIN");
    let g = key("G");
    c.initialize(admin.clone(), vec![g.clone()]).unwrap();
    c.add_guardian(admin.clone(), key("H")).unwrap();
    c.remove_guardian(admin.clone(), key("H")).unwrap();
    let id = c
        .propose_pause(g.clone(), PauseLevel::Full, PauseReason::ContractBug, bytes("x"), 0, 1, 0, 0)
        .unwrap();
    c.execute_pause_proposal(g.clone(), id, 0, 0).unwrap();
    c.lift_pause(admin.clone(), 3).unwrap();
    let ev = c.take_events();
    assert_eq!(ev.len(), 7);
    assert!(matches!(&ev[0], CircuitBreakerEvent::Initialized { admin: a } if *a == admin));
    assert!(matches!(&ev[1], CircuitBreakerEvent::GuardianAdded { guardian: h } if *h == key("H")));
    assert!(matches!(&ev[2], CircuitBreakerEvent::GuardianRemoved { guardian: h } if *h == key("H")));
    assert!(matches!(&ev[3], CircuitBreakerEvent::ProposalCreated { approval_id: 1 }));
    assert!(matches!(&ev[4], CircuitBreakerEvent::Paused { record_id: 1 }));
    assert!(matches!(&ev[5], CircuitBreakerEvent::ProposalExecuted { approval_id: 1, executor: e, record_id: 1 } if *e == g));
    assert!(matches!(&ev[6], CircuitBreakerEvent::Lifted { record_id: 1, lifted_by: l } if *l == admin));
    assert!(c.take_events().is_empty());
}

#[test]
fn stored_round_trip() {
    let (mut c, admin, gs) = setup(2);
    c.instant_pause(gs[0].clone(), PauseLevel::Full, PauseReason::Maintenance, bytes("m"), 0, 1)
        .unwrap();
    c.propose_pause(gs[0].clone(), PauseLevel::Partial, PauseReason::Maintenance, bytes("p"), 0, 2, 0, 1)
        .unwrap();
    let stored = c.into_stored();
    let mut back = CircuitBreakerContract::restore(stored).unwrap();
    assert_eq!(back.get_admin(), Ok(admin.clone()));
    assert_eq!(back.get_guardians(), gs);
    assert!(back.is_paused(1));
    assert_eq!(back.get_pause_approval(1).unwrap().required_approvals, 2);
    assert_eq!(back.lift_pause(admin, 2), Ok(1));
}

#[test]
fn restore_rejects_broken_state() {
    let (c, _, gs) = setup(2);
    let mut s = c.into_stored();
    s.guardians.push(gs[0].clone());
    assert!(CircuitBreakerContract::restore(s).is_none());

    let (c, _, _) = setup(2);
    let mut s = c.into_stored();
    s.last_record_id = 3;
    assert!(CircuitBreakerContract::restore(s).is_none());

    let (c, _, _) = setup(2);
    let mut s: StoredBreaker = c.into_stored();
    s.state.is_paused = true;
    assert!(CircuitBreakerContract::restore(s).is_none());
}

#[test]
fn overflow_is_reported_only_when_checks_pass() {
    let (mut c, _, gs) = setup(2);
    let near_end = u64::MAX - 10;
    // A refused call is refused, not trapped.
    assert!(!c.instant_pause_overflows(&gs[0], &bytes("x"), u64::MAX, near_end));
    assert!(!c.instant_pause_overflows(&key("X"), &bytes("x"), 100, near_end));
    // An accepted call whose deadline would overflow traps.
    assert!(c.instant_pause_overflows(&gs[0], &bytes("x"), 100, near_end));
    assert!(!c.instant_pause_overflows(&gs[0], &bytes("x"), 10, near_end));
    assert!(!c.instant_pause_overflows(&gs[0], &bytes("x"), 0, u64::MAX));
    assert!(c.propose_pause_overflows(&gs[0], &bytes("x"), 0, 1, 100, near_end));
    assert!(!c.propose_pause_overflows(&gs[0], &bytes("x"), 0, 3, 100, near_end));
    let id = c
        .propose_pause(gs[0].clone(), PauseLevel::Full, PauseReason::ContractBug, bytes("x"), 0, 1, 0, 0)
        .unwrap();
    assert!(c.execute_pause_proposal_overflows(&gs[1], id, 100, near_end));
    assert!(!c.execute_pause_proposal_overflows(&gs[1], id, u64::MAX, near_end));
    assert!(!c.execute_pause_proposal_overflows(&gs[1], id + 1, 100, near_end));
    assert_eq!(c.last_record_id(), 0);
    assert_eq!(c.last_approval_id(), 1);
}

#[test]
fn executed_proposal_keeps_votes_and_stays_executed() {
    let (mut c, admin, gs) = setup(3);
    let id = c
        .propose_pause(gs[0].clone(), PauseLevel::Full, PauseReason::ContractBug, bytes("x"), 0, 2, 0, 0)
        .unwrap();
    c.approve_pause_proposal(gs[1].clone(), id, 0).unwrap();
    c.execute_pause_proposal(gs[2].clone(), id, 0, 0).unwrap();
    c.lift_pause(admin.clone(), 1).unwrap();
    c.remove_guardian(admin, gs[1].clone()).unwrap();
    let a = c.get_pause_approval(id).unwrap();
    assert!(a.executed);
    assert_eq!(a.approvals, vec![gs[0].clone(), gs[1].clone()]);
    assert_eq!(c.execute_pause_proposal(gs[0].clone(), id, 0, 2), Err(Error::ApprovalAlreadyExecuted));
}
