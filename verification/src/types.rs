use vstd::prelude::*;

verus! {

/// The identity of an account or contract, held as its textual key
/// (the strkey form, e.g. `G...` or `C...`).  Two addresses are the same
/// exactly when their keys are the same text.
#[derive(Debug)]
pub struct Address {
    pub strkey: String,
}

impl View for Address {
    type V = Seq<char>;

    open spec fn view(&self) -> Seq<char> {
        self.strkey@
    }
}

impl Address {
    /// Makes an address from its textual key.
    pub fn new(strkey: String) -> (r: Address)
        ensures
            r.strkey == strkey,
    {
        Address { strkey }
    }
}

impl Clone for Address {
    fn clone(&self) -> (r: Self)
        ensures
            r == *self,
    {
        Address { strkey: self.strkey.clone() }
    }
}

impl PartialEq for Address {
    fn eq(&self, other: &Self) -> (r: bool) {
        self.strkey == other.strkey
    }
}

impl vstd::std_specs::cmp::PartialEqSpecImpl for Address {
    open spec fn obeys_eq_spec() -> bool {
        true
    }

    open spec fn eq_spec(&self, other: &Address) -> bool {
        self@ == other@
    }
}

/// Whether `s` holds an address with the same key as `a`.
pub open spec fn holds_address(s: Seq<Address>, a: Address) -> bool {
    exists|i: int| 0 <= i < s.len() && #[trigger] s[i]@ == a@
}

/// Whether no two addresses in `s` have the same key.
pub open spec fn addresses_distinct(s: Seq<Address>) -> bool {
    forall|i: int, j: int| 0 <= i < s.len() && 0 <= j < s.len() && i != j ==> #[trigger] s[i]@ != #[trigger] s[j]@
}

/// Index of the first address in `s` with the same key as `a`.
pub fn find_address(s: &Vec<Address>, a: &Address) -> (r: Option<usize>)
    ensures
        match r {
            Some(i) => i < s.len() && s@[i as int]@ == a@ && forall|j: int| 0 <= j < i ==> s@[j]@ != a@,
            None => !holds_address(s@, *a),
        },
{
    let n = s.len();
    for i in 0..n
        invariant
            n == s.len(),
            forall|j: int| 0 <= j < i ==> s@[j]@ != a@,
    {
        if s[i] == *a {
            return Some(i);
        }
    }
    None
}

/// Whether no two addresses in `s` have the same key.
pub fn all_distinct(s: &Vec<Address>) -> (r: bool)
    ensures
        r == addresses_distinct(s@),
{
    let n = s.len();
    for i in 0..n
        invariant
            n == s.len(),
            forall|a: int, b: int| 0 <= a < i && 0 <= b < i && a != b ==> #[trigger] s@[a]@ != #[trigger] s@[b]@,
    {
        for j in 0..i
            invariant
                n == s.len(),
                i < n,
                forall|a: int, b: int| 0 <= a < i && 0 <= b < i && a != b ==> #[trigger] s@[a]@ != #[trigger] s@[b]@,
                forall|b: int| 0 <= b < j ==> #[trigger] s@[b]@ != s@[i as int]@,
        {
            if s[j] == s[i] {
                return false;
            }
        }
    }
    true
}

/// Whether `s` holds an address with the same key as `a`.
pub fn contains_address(s: &Vec<Address>, a: &Address) -> (r: bool)
    ensures
        r == holds_address(s@, *a),
{
    find_address(s, a).is_some()
}

/// How much of the guarded system a pause blocks.
#[derive(Clone, Copy, Debug, PartialEq, Eq, Structural)]
pub enum PauseLevel {
    /// Informational only: nothing is blocked.
    Advisory,
    /// Writes (tracking events, product registration) are blocked.
    Partial,
    /// All state-mutating operations are blocked.
    Full,
    /// Everything is blocked, reads included (status queries excepted).
    Emergency,
}

/// Why a pause was activated.
#[derive(Clone, Copy, Debug, PartialEq, Eq, Structural)]
pub enum PauseReason {
    SecurityBreach,
    OracleFailure,
    ContractBug,
    RegulatoryAction,
    Maintenance,
    MarketVolatility,
}

/// Errors returned by the circuit breaker.
#[derive(Clone, Copy, Debug, PartialEq, Eq, Structural)]
pub enum Error {
    Unauthorized,
    CircuitBreakerNotInitialized,
    CircuitBreakerAlreadyInitialized,
    TooManyGuardians,
    DuplicateGuardian,
    NotGuardian,
    PauseDescriptionTooLong,
    InvalidPauseDuration,
    InvalidThreshold,
    ContractNotPaused,
    PauseRecordNotFound,
    ApprovalNotFound,
    ApprovalAlreadyExecuted,
    ApprovalExpired,
    ApprovalAlreadyVoted,
    ApprovalThresholdNotReached,
}

} // verus!

verus! {

/// The live state of the breaker.
#[derive(Clone, Copy, Debug, PartialEq, Eq, Structural)]
pub struct CircuitBreakerState {
    pub is_paused: bool,
    pub level: PauseLevel,
    pub current_record_id: u64,
    pub paused_at: u64,
    pub expires_at: u64,
}

/// The state of a breaker that has never been paused, or whose pause ended.
pub open spec fn unpaused_state(current_record_id: u64, paused_at: u64) -> CircuitBreakerState {
    CircuitBreakerState {
        is_paused: false,
        level: PauseLevel::Advisory,
        current_record_id,
        paused_at,
        expires_at: 0,
    }
}

/// The state before any pause: unpaused, advisory, no record.
pub fn initial_state() -> (r: CircuitBreakerState)
    ensures
        r == unpaused_state(0, 0),
{
    CircuitBreakerState {
        is_paused: false,
        level: PauseLevel::Advisory,
        current_record_id: 0,
        paused_at: 0,
        expires_at: 0,
    }
}

/// Copies a byte string.
pub fn copy_bytes(b: &Vec<u8>) -> (r: Vec<u8>)
    ensures
        r@ == b@,
{
    let r = b.clone();
    assert(r@ =~= b@);
    r
}

/// Copies a list of addresses.
pub fn copy_addresses(a: &Vec<Address>) -> (r: Vec<Address>)
    ensures
        r@ == a@,
{
    let r = a.clone();
    assert(r@ =~= a@);
    r
}

/// The history entry of one pause.
#[derive(Debug)]
pub struct PauseRecord {
    pub record_id: u64,
    pub activated_by: Address,
    pub level: PauseLevel,
    pub reason: PauseReason,
    pub description: Vec<u8>,
    pub activated_at: u64,
    /// Ledger time at which the pause lapses; `0` for never.
    pub expires_at: u64,
    /// Ledger time at which the pause was lifted or lapsed; `0` while active.
    pub lifted_at: u64,
    /// Who lifted the pause (empty when it lapsed or is still active).
    pub lifted_by: Vec<Address>,
}

/// A [`PauseRecord`] as plain mathematical values.
pub struct PauseRecordView {
    pub record_id: u64,
    pub activated_by: Address,
    pub level: PauseLevel,
    pub reason: PauseReason,
    pub description: Seq<u8>,
    pub activated_at: u64,
    pub expires_at: u64,
    pub lifted_at: u64,
    pub lifted_by: Seq<Address>,
}

impl View for PauseRecord {
    type V = PauseRecordView;

    open spec fn view(&self) -> PauseRecordView {
        PauseRecordView {
            record_id: self.record_id,
            activated_by: self.activated_by,
            level: self.level,
            reason: self.reason,
            description: self.description@,
            activated_at: self.activated_at,
            expires_at: self.expires_at,
            lifted_at: self.lifted_at,
            lifted_by: self.lifted_by@,
        }
    }
}

impl Clone for PauseRecord {
    fn clone(&self) -> (r: Self)
        ensures
            r@ == self@,
    {
        PauseRecord {
            record_id: self.record_id,
            activated_by: self.activated_by.clone(),
            level: self.level,
            reason: self.reason,
            description: copy_bytes(&self.description),
            activated_at: self.activated_at,
            expires_at: self.expires_at,
            lifted_at: self.lifted_at,
            lifted_by: copy_addresses(&self.lifted_by),
        }
    }
}

/// A multi-guardian pause proposal and its votes.
#[derive(Debug)]
pub struct PauseApproval {
    pub approval_id: u64,
    pub proposed_level: PauseLevel,
    pub proposed_reason: PauseReason,
    pub description: Vec<u8>,
    /// Ledger time at which voting closes; `0` for never.
    pub expires_at: u64,
    pub proposer: Address,
    /// The guardians who voted for the proposal, the proposer first.
    pub approvals: Vec<Address>,
    pub required_approvals: u32,
    pub executed: bool,
}

/// A [`PauseApproval`] as plain mathematical values.
pub struct PauseApprovalView {
    pub approval_id: u64,
    pub proposed_level: PauseLevel,
    pub proposed_reason: PauseReason,
    pub description: Seq<u8>,
    pub expires_at: u64,
    pub proposer: Address,
    pub approvals: Seq<Address>,
    pub required_approvals: u32,
    pub executed: bool,
}

impl View for PauseApproval {
    type V = PauseApprovalView;

    open spec fn view(&self) -> PauseApprovalView {
        PauseApprovalView {
            approval_id: self.approval_id,
            proposed_level: self.proposed_level,
            proposed_reason: self.proposed_reason,
            description: self.description@,
            expires_at: self.expires_at,
            proposer: self.proposer,
            approvals: self.approvals@,
            required_approvals: self.required_approvals,
            executed: self.executed,
        }
    }
}

impl Clone for PauseApproval {
    fn clone(&self) -> (r: Self)
        ensures
            r@ == self@,
    {
        PauseApproval {
            approval_id: self.approval_id,
            proposed_level: self.proposed_level,
            proposed_reason: self.proposed_reason,
            description: copy_bytes(&self.description),
            expires_at: self.expires_at,
            proposer: self.proposer.clone(),
            approvals: copy_addresses(&self.approvals),
            required_approvals: self.required_approvals,
            executed: self.executed,
        }
    }
}

/// What the breaker announces after an operation.  The host publishes each
/// one; the payload of `Paused` and `ProposalCreated` is the record or
/// proposal with that id.
#[derive(Debug)]
pub enum CircuitBreakerEvent {
    Initialized { admin: Address },
    GuardianAdded { guardian: Address },
    GuardianRemoved { guardian: Address },
    Paused { record_id: u64 },
    Lifted { record_id: u64, lifted_by: Address },
    Expired { record_id: u64, at: u64 },
    ProposalCreated { approval_id: u64 },
    ProposalApproved { approval_id: u64, approver: Address },
    ProposalExecuted { approval_id: u64, executor: Address, record_id: u64 },
}

} // verus!
