use circuit_breaker::{
    Address, CircuitBreakerContract, Error, PauseLevel, PauseReason,
};

// ─── Helpers ─────────────────────────────────────────────────────────────

fn addr(tag: &str) -> Address {
    Address::new(format!("G{:0>55}", tag))
}

fn desc(s: &str) -> Vec<u8> {
    s.as_bytes().to_vec()
}

fn deploy() -> (CircuitBreakerContract, Address, Vec<Address>) {
    let mut c = CircuitBreakerContract::new();
    let admin = addr("ADMIN");
    let guardians = vec![addr("G0"), addr("G1"), addr("G2")];
    c.initialize(admin.clone(), guardians.clone()).unwrap();
    (c, admin, guardians)
}

fn guardian(guardians: &Vec<Address>, i: usize) -> Address {
    guardians[i].clone()
}

// ─── Initialisation ───────────────────────────────────────────────────────

#[test]
fn test_initialize_sets_admin_and_guardians() {
    let (mut c, admin, guardians) = deploy();
    assert_eq!(c.get_admin(), Ok(admin));
    assert_eq!(c.get_guardians(), guardians);
    assert!(!c.is_paused(0));
}

#[test]
fn test_initialize_twice_fails() {
    let (mut c, admin, guardians) = deploy();
    let res = c.initialize(admin, guardians);
    assert_eq!(res, Err(Error::CircuitBreakerAlreadyInitialized));
}

#[test]
fn test_initialize_duplicate_guardian_fails() {
    let mut c = CircuitBreakerContract::new();
    let admin = addr("ADMIN");
    let g = addr("G");
    let guardians = vec![g.clone(), g.clone()];
    let res = c.initialize(admin, guardians);
    assert_eq!(res, Err(Error::DuplicateGuardian));
}

#[test]
fn test_initialize_too_many_guardians_fails() {
    let mut c = CircuitBreakerContract::new();
    let admin = addr("ADMIN");
    let mut guardians = Vec::new();
    for i in 0..21 {
        guardians.push(addr(&format!("G{}", i)));
    }
    let res = c.initialize(admin, guardians);
    assert_eq!(res, Err(Error::TooManyGuardians));
}

// ─── Guardian management ──────────────────────────────────────────────────

#[test]
fn test_add_and_remove_guardian() {
    let (mut c, admin, _) = deploy();
    let new_g = addr("NEW");
    c.add_guardian(admin.clone(), new_g.clone()).unwrap();
    assert!(c.get_guardians().contains(&new_g));

    c.remove_guardian(admin.clone(), new_g.clone()).unwrap();
    assert!(!c.get_guardians().contains(&new_g));
}

#[test]
fn test_add_duplicate_guardian_fails() {
    let (mut c, admin, guardians) = deploy();
    let g = guardian(&guardians, 0);
    let res = c.add_guardian(admin, g);
    assert_eq!(res, Err(Error::DuplicateGuardian));
}

#[test]
fn test_remove_nonexistent_guardian_fails() {
    let (mut c, admin, _) = deploy();
    let unknown = addr("UNKNOWN");
    let res = c.remove_guardian(admin, unknown);
    assert_eq!(res, Err(Error::NotGuardian));
}

#[test]
fn test_non_admin_cannot_add_guardian() {
    let (mut c, _, guardians) = deploy();
    let attacker = addr("ATTACKER");
    let new_g = addr("NEW");
    let res = c.add_guardian(attacker, new_g.clone());
    assert!(res.is_err());

    // Existing guardian also cannot add
    let res = c.add_guardian(guardian(&guardians, 0), new_g);
    assert!(res.is_err());
}

// ─── Instant pause ────────────────────────────────────────────────────────

#[test]
fn test_instant_pause_by_guardian() {
    let (mut c, _, guardians) = deploy();
    let g = guardian(&guardians, 0);
    let record_id = c
        .instant_pause(
            g,
            PauseLevel::Full,
            PauseReason::SecurityBreach,
            desc("Active exploit detected"),
            3600,
            0,
        )
        .unwrap();

    assert_eq!(record_id, 1);
    assert!(c.is_paused(0));

    let state = c.get_state(0);
    assert!(state.is_paused);
    assert_eq!(state.level, PauseLevel::Full);
    assert_eq!(state.current_record_id, 1);
}

#[test]
fn test_non_guardian_cannot_instant_pause() {
    let (mut c, _, _) = deploy();
    let attacker = addr("ATTACKER");
    let res = c.instant_pause(
        attacker,
        PauseLevel::Full,
        PauseReason::SecurityBreach,
        desc("test"),
        0,
        0,
    );
    assert_eq!(res, Err(Error::NotGuardian));
}

#[test]
fn test_instant_pause_description_too_long_fails() {
    let (mut c, _, guardians) = deploy();
    let long_desc = vec![b'A'; 259];
    let g = guardian(&guardians, 0);
    let res = c.instant_pause(
        g,
        PauseLevel::Partial,
        PauseReason::Maintenance,
        long_desc,
        0,
        0,
    );
    assert_eq!(res, Err(Error::PauseDescriptionTooLong));
}

#[test]
fn test_instant_pause_invalid_duration_fails() {
    let (mut c, _, guardians) = deploy();
    let g = guardian(&guardians, 0);
    // 31 days in seconds — exceeds MAX_PAUSE_DURATION_SECS
    let too_long: u64 = 31 * 24 * 60 * 60;
    let res = c.instant_pause(
        g,
        PauseLevel::Partial,
        PauseReason::Maintenance,
        desc("test"),
        too_long,
        0,
    );
    assert_eq!(res, Err(Error::InvalidPauseDuration));
}

// ─── Pause levels ─────────────────────────────────────────────────────────

#[test]
fn test_partial_pause_blocks_writes_not_mutations() {
    let (mut c, _, guardians) = deploy();
    c.instant_pause(
        guardian(&guardians, 0),
        PauseLevel::Partial,
        PauseReason::OracleFailure,
        desc("Oracle down"),
        0,
        0,
    )
    .unwrap();

    assert!(!c.check_writes_allowed(0));
    assert!(c.check_mutations_allowed(0));
    assert!(c.check_reads_allowed(0));
}

#[test]
fn test_full_pause_blocks_writes_and_mutations() {
    let (mut c, _, guardians) = deploy();
    c.instant_pause(
        guardian(&guardians, 0),
        PauseLevel::Full,
        PauseReason::ContractBug,
        desc("Critical bug"),
        0,
        0,
    )
    .unwrap();

    assert!(!c.check_writes_allowed(0));
    assert!(!c.check_mutations_allowed(0));
    assert!(c.check_reads_allowed(0));
}

#[test]
fn test_emergency_pause_blocks_everything() {
    let (mut c, _, guardians) = deploy();
    c.instant_pause(
        guardian(&guardians, 0),
        PauseLevel::Emergency,
        PauseReason::SecurityBreach,
        desc("Active exploit"),
        0,
        0,
    )
    .unwrap();

    assert!(!c.check_writes_allowed(0));
    assert!(!c.check_mutations_allowed(0));
    assert!(!c.check_reads_allowed(0));
}

#[test]
fn test_advisory_pause_blocks_nothing() {
    let (mut c, _, guardians) = deploy();
    c.instant_pause(
        guardian(&guardians, 0),
        PauseLevel::Advisory,
        PauseReason::Maintenance,
        desc("Scheduled maintenance"),
        0,
        0,
    )
    .unwrap();

    // Advisory is paused=true but all checks pass
    assert!(c.is_paused(0));
    assert!(c.check_writes_allowed(0));
    assert!(c.check_mutations_allowed(0));
    assert!(c.check_reads_allowed(0));
}

// ─── Lift pause ───────────────────────────────────────────────────────────

#[test]
fn test_admin_can_lift_pause() {
    let (mut c, admin, guardians) = deploy();
    c.instant_pause(
        guardian(&guardians, 0),
        PauseLevel::Full,
        PauseReason::SecurityBreach,
        desc("test"),
        0,
        0,
    )
    .unwrap();
    assert!(c.is_paused(0));

    c.lift_pause(admin, 0).unwrap();
    assert!(!c.is_paused(0));
    assert!(c.check_writes_allowed(0));
    assert!(c.check_mutations_allowed(0));
}

#[test]
fn test_lift_when_not_paused_fails() {
    let (mut c, admin, _) = deploy();
    let res = c.lift_pause(admin, 0);
    assert_eq!(res, Err(Error::ContractNotPaused));
}

#[test]
fn test_non_admin_cannot_lift_pause() {
    let (mut c, _, guardians) = deploy();
    let g = guardian(&guardians, 0);
    c.instant_pause(
        g,
        PauseLevel::Full,
        PauseReason::SecurityBreach,
        desc("test"),
        0,
        0,
    )
    .unwrap();

    let attacker = addr("ATTACKER");
    let res = c.lift_pause(attacker, 0);
    assert!(res.is_err());
}

// ─── Pause record ─────────────────────────────────────────────────────────

#[test]
fn test_pause_record_stored_correctly() {
    let (mut c, _, guardians) = deploy();
    let g = guardian(&guardians, 0);
    let record_id = c
        .instant_pause(
            g.clone(),
            PauseLevel::Full,
            PauseReason::RegulatoryAction,
            desc("Regulator request"),
            7200,
            0,
        )
        .unwrap();

    let record = c.get_pause_record(record_id).unwrap();
    assert_eq!(record.record_id, record_id);
    assert_eq!(record.activated_by, g);
    assert_eq!(record.level, PauseLevel::Full);
    assert_eq!(record.reason, PauseReason::RegulatoryAction);
    assert_eq!(record.lifted_at, 0); // not yet lifted
}

#[test]
fn test_pause_record_updated_on_lift() {
    // A non-zero starting timestamp so lifted_at is distinguishable from 0
    let now: u64 = 1_000_000;
    let (mut c, admin, guardians) = deploy();

    let record_id = c
        .instant_pause(
            guardian(&guardians, 0),
            PauseLevel::Full,
            PauseReason::SecurityBreach,
            desc("test"),
            0,
            now,
        )
        .unwrap();

    c.lift_pause(admin.clone(), now).unwrap();

    let record = c.get_pause_record(record_id).unwrap();
    assert!(record.lifted_at > 0);
    assert_eq!(record.lifted_by.len(), 1);
    assert_eq!(record.lifted_by[0], admin);
}

#[test]
fn test_get_nonexistent_record_fails() {
    let (c, _, _) = deploy();
    let res = c.get_pause_record(999);
    assert_eq!(res.err(), Some(Error::PauseRecordNotFound));
}

// ─── Time-limited pauses ──────────────────────────────────────────────────

#[test]
fn test_pause_auto_expires() {
    let (mut c, _, guardians) = deploy();
    let now: u64 = 0;

    // Pause for 100 seconds
    c.instant_pause(
        guardian(&guardians, 0),
        PauseLevel::Full,
        PauseReason::Maintenance,
        desc("Short maintenance"),
        100,
        now,
    )
    .unwrap();
    assert!(c.is_paused(now));

    // Advance ledger time past expiry
    let now = now + 101;

    // get_state should auto-expire
    let state = c.get_state(now);
    assert!(!state.is_paused);
    assert!(!c.is_paused(now));
    assert!(c.check_writes_allowed(now));
}

#[test]
fn test_pause_with_zero_duration_does_not_expire() {
    let (mut c, _, guardians) = deploy();
    let now: u64 = 0;

    c.instant_pause(
        guardian(&guardians, 0),
        PauseLevel::Full,
        PauseReason::SecurityBreach,
        desc("Indefinite"),
        0, // no expiry
        now,
    )
    .unwrap();

    // Advance time significantly
    let now = now + 999_999;

    assert!(c.is_paused(now));
}

// ─── Multi-authority pause ────────────────────────────────────────────────

#[test]
fn test_propose_approve_execute_pause() {
    let (mut c, _, guardians) = deploy();
    let g0 = guardian(&guardians, 0);
    let g1 = guardian(&guardians, 1);
    let g2 = guardian(&guardians, 2);

    // Propose requiring 2 approvals
    let approval_id = c
        .propose_pause(
            g0,
            PauseLevel::Partial,
            PauseReason::MarketVolatility,
            desc("Market crash"),
            3600,
            2,
            0,
            0,
        )
        .unwrap();

    // g0 already voted; g1 approves
    c.approve_pause_proposal(g1, approval_id, 0).unwrap();

    // Threshold reached — execute
    let record_id = c.execute_pause_proposal(g2, approval_id, 3600, 0).unwrap();

    assert!(c.is_paused(0));
    let state = c.get_state(0);
    assert_eq!(state.level, PauseLevel::Partial);
    assert_eq!(state.current_record_id, record_id);
}

#[test]
fn test_execute_proposal_below_threshold_fails() {
    let (mut c, _, guardians) = deploy();
    let g0 = guardian(&guardians, 0);

    // Propose requiring 3 approvals — only proposer has voted
    let approval_id = c
        .propose_pause(
            g0.clone(),
            PauseLevel::Full,
            PauseReason::ContractBug,
            desc("Bug found"),
            0,
            3,
            0,
            0,
        )
        .unwrap();

    let res = c.execute_pause_proposal(g0, approval_id, 0, 0);
    assert_eq!(res, Err(Error::ApprovalThresholdNotReached));
}

#[test]
fn test_double_vote_fails() {
    let (mut c, _, guardians) = deploy();
    let g0 = guardian(&guardians, 0);
    let g1 = guardian(&guardians, 1);

    let approval_id = c
        .propose_pause(
            g0,
            PauseLevel::Partial,
            PauseReason::Maintenance,
            desc("test"),
            0,
            2,
            0,
            0,
        )
        .unwrap();

    c.approve_pause_proposal(g1.clone(), approval_id, 0).unwrap();

    // g1 tries to vote again
    let res = c.approve_pause_proposal(g1, approval_id, 0);
    assert_eq!(res, Err(Error::ApprovalAlreadyVoted));
}

#[test]
fn test_execute_already_executed_proposal_fails() {
    let (mut c, _, guardians) = deploy();
    let g0 = guardian(&guardians, 0);
    let g1 = guardian(&guardians, 1);

    let approval_id = c
        .propose_pause(
            g0.clone(),
            PauseLevel::Partial,
            PauseReason::Maintenance,
            desc("test"),
            0,
            2,
            0,
            0,
        )
        .unwrap();
    c.approve_pause_proposal(g1, approval_id, 0).unwrap();
    c.execute_pause_proposal(g0.clone(), approval_id, 0, 0).unwrap();

    // Try to execute again
    let res = c.execute_pause_proposal(g0, approval_id, 0, 0);
    assert_eq!(res, Err(Error::ApprovalAlreadyExecuted));
}

#[test]
fn test_proposal_expires() {
    let (mut c, _, guardians) = deploy();
    let g0 = guardian(&guardians, 0);
    let g1 = guardian(&guardians, 1);
    let now: u64 = 0;

    // Proposal window of 60 seconds
    let approval_id = c
        .propose_pause(
            g0,
            PauseLevel::Partial,
            PauseReason::Maintenance,
            desc("test"),
            0,
            2,
            60,
            now,
        )
        .unwrap();

    // Advance past window
    let now = now + 61;

    let res = c.approve_pause_proposal(g1, approval_id, now);
    assert_eq!(res, Err(Error::ApprovalExpired));
}

#[test]
fn test_non_guardian_cannot_propose() {
    let (mut c, _, _) = deploy();
    let attacker = addr("ATTACKER");
    let res = c.propose_pause(
        attacker,
        PauseLevel::Partial,
        PauseReason::Maintenance,
        desc("test"),
        0,
        1,
        0,
        0,
    );
    assert_eq!(res, Err(Error::NotGuardian));
}

#[test]
fn test_invalid_threshold_in_proposal_fails() {
    let (mut c, _, guardians) = deploy();
    let g0 = guardian(&guardians, 0);

    // Threshold 0
    let res = c.propose_pause(
        g0.clone(),
        PauseLevel::Partial,
        PauseReason::Maintenance,
        desc("test"),
        0,
        0,
        0,
        0,
    );
    assert_eq!(res, Err(Error::InvalidThreshold));

    // Threshold > number of guardians (3)
    let res = c.propose_pause(
        g0,
        PauseLevel::Partial,
        PauseReason::Maintenance,
        desc("test"),
        0,
        4,
        0,
        0,
    );
    assert_eq!(res, Err(Error::InvalidThreshold));
}

// ─── Pause record retrieval ───────────────────────────────────────────────

#[test]
fn test_multiple_pause_records_sequential_ids() {
    let (mut c, admin, guardians) = deploy();
    let g = guardian(&guardians, 0);

    let id1 = c
        .instant_pause(
            g.clone(),
            PauseLevel::Partial,
            PauseReason::Maintenance,
            desc("First"),
            0,
            0,
        )
        .unwrap();
    c.lift_pause(admin.clone(), 0).unwrap();

    let id2 = c
        .instant_pause(
            g,
            PauseLevel::Full,
            PauseReason::SecurityBreach,
            desc("Second"),
            0,
            0,
        )
        .unwrap();
    c.lift_pause(admin, 0).unwrap();

    assert_eq!(id1, 1);
    assert_eq!(id2, 2);

    let r1 = c.get_pause_record(id1).unwrap();
    let r2 = c.get_pause_record(id2).unwrap();
    assert_eq!(r1.level, PauseLevel::Partial);
    assert_eq!(r2.level, PauseLevel::Full);
}

// ─── Supply chain scenario tests ─────────────────────────────────────────

#[test]
fn test_security_breach_scenario() {
    let (mut c, admin, guardians) = deploy();

    // Security team detects exploit — instant Emergency pause
    let g = guardian(&guardians, 0);
    c.instant_pause(
        g,
        PauseLevel::Emergency,
        PauseReason::SecurityBreach,
        desc("Active exploit on register_product"),
        0,
        0,
    )
    .unwrap();

    // All operations blocked
    assert!(!c.check_writes_allowed(0));
    assert!(!c.check_mutations_allowed(0));
    assert!(!c.check_reads_allowed(0));

    // After investigation, admin lifts
    c.lift_pause(admin, 0).unwrap();
    assert!(!c.is_paused(0));
    assert!(c.check_reads_allowed(0));
}

#[test]
fn test_oracle_failure_scenario() {
    let (mut c, admin, guardians) = deploy();

    // Oracle fails — Partial pause (reads still work)
    let g = guardian(&guardians, 1);
    c.instant_pause(
        g,
        PauseLevel::Partial,
        PauseReason::OracleFailure,
        desc("Temperature oracle unreachable"),
        1800, // 30 min auto-expiry
        0,
    )
    .unwrap();

    assert!(!c.check_writes_allowed(0));
    assert!(c.check_reads_allowed(0));

    // Oracle recovers — admin lifts early
    c.lift_pause(admin, 0).unwrap();
    assert!(c.check_writes_allowed(0));
}

#[test]
fn test_regulatory_action_multi_authority_scenario() {
    let (mut c, _, guardians) = deploy();
    let g0 = guardian(&guardians, 0);
    let g1 = guardian(&guardians, 1);
    let g2 = guardian(&guardians, 2);

    // Regulatory pause requires 2-of-3 guardian consensus
    let approval_id = c
        .propose_pause(
            g0,
            PauseLevel::Full,
            PauseReason::RegulatoryAction,
            desc("Regulator freeze order"),
            0,
            2,
            86400, // 24h approval window
            0,
        )
        .unwrap();

    // Second guardian approves
    c.approve_pause_proposal(g1, approval_id, 0).unwrap();

    // Third guardian executes
    c.execute_pause_proposal(g2, approval_id, 0, 0).unwrap();

    assert!(c.is_paused(0));
    let state = c.get_state(0);
    assert_eq!(state.level, PauseLevel::Full);
    assert_eq!(state.expires_at, 0); // indefinite
}

#[test]
fn test_maintenance_window_auto_expires() {
    let (mut c, _, guardians) = deploy();
    let now: u64 = 0;

    // Scheduled maintenance — 2 hour window
    c.instant_pause(
        guardian(&guardians, 0),
        PauseLevel::Full,
        PauseReason::Maintenance,
        desc("Scheduled DB migration"),
        7200,
        now,
    )
    .unwrap();

    assert!(c.is_paused(now));

    // Maintenance completes — advance past window
    let now = now + 7201;

    assert!(!c.is_paused(now));
    assert!(c.check_writes_allowed(now));
    assert!(c.check_mutations_allowed(now));
}
