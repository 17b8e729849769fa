use vstd::prelude::*;

use crate::circuit::{is_layout_of, LinearCircuit, R1csLayout};
use crate::entropy::obtain_seed;
use crate::rng::SeededRng;
use crate::scalar::Scalar;

verus! {

/// The failures of the proof workflow, each fatal to the run it happens in.
#[derive(Clone, Copy, Debug, PartialEq, Eq, Structural)]
pub enum PipelineError {
    EntropyUnavailable,
    AssignmentMissing,
    SetupFailed,
    IndexingFailed,
    ProvingFailed,
    VerificationFailed,
}

/// The four phases of the proof system, in the order they run.
#[derive(Clone, Copy, Debug, PartialEq, Eq, Structural)]
pub enum Phase {
    Setup,
    Index,
    Prove,
    Verify,
}

/// Where a run of the workflow stands.
#[derive(Clone, Copy, Debug, PartialEq, Eq, Structural)]
pub enum PipelineState {
    NotStarted,
    SetupDone,
    IndexDone,
    Proved,
    /// Verification ran; the flag says whether the proof was accepted.
    Verified(bool),
    Failed(PipelineError),
}

/// What running the current phase came to.
#[derive(Clone, Copy, Debug, PartialEq, Eq, Structural)]
pub enum PhaseOutcome {
    /// Setup, indexing or proving produced its artifact.
    Completed,
    /// Verification ran and gave this verdict.
    Verdict(bool),
    /// No hardware seed could be drawn for the phase.
    EntropyUnavailable,
    /// The circuit handed to proving lacked a value.
    AssignmentMissing,
    /// The proving backend reported a fault.
    BackendFailed,
}

/// The upper bounds that the universal setup is made for.
#[derive(Clone, Copy, Debug, PartialEq, Eq, Structural)]
pub struct SetupBounds {
    pub num_constraints: usize,
    pub num_variables: usize,
    pub num_non_zero: usize,
}

/// The phase that runs next from this state, if any.
pub open spec fn spec_next_phase(s: PipelineState) -> Option<Phase> {
    match s {
        PipelineState::NotStarted => Some(Phase::Setup),
        PipelineState::SetupDone => Some(Phase::Index),
        PipelineState::IndexDone => Some(Phase::Prove),
        PipelineState::Proved => Some(Phase::Verify),
        _ => None,
    }
}

/// The error that a backend fault in this phase is reported as.
pub open spec fn spec_phase_error(p: Phase) -> PipelineError {
    match p {
        Phase::Setup => PipelineError::SetupFailed,
        Phase::Index => PipelineError::IndexingFailed,
        Phase::Prove => PipelineError::ProvingFailed,
        Phase::Verify => PipelineError::VerificationFailed,
    }
}

/// Whether the outcome is one that the phase can come to.
pub open spec fn fits_phase(p: Phase, o: PhaseOutcome) -> bool {
    match o {
        PhaseOutcome::Completed => p != Phase::Verify,
        PhaseOutcome::Verdict(_) => p == Phase::Verify,
        PhaseOutcome::EntropyUnavailable => p != Phase::Index,
        PhaseOutcome::AssignmentMissing => p == Phase::Prove,
        PhaseOutcome::BackendFailed => true,
    }
}

/// The state after the next phase of `s` came to `o`.
pub open spec fn spec_advance(s: PipelineState, o: PhaseOutcome) -> PipelineState {
    match spec_next_phase(s) {
        None => s,
        Some(p) => if !fits_phase(p, o) {
            s
        } else {
            match o {
                PhaseOutcome::Completed => match p {
                    Phase::Setup => PipelineState::SetupDone,
                    Phase::Index => PipelineState::IndexDone,
                    _ => PipelineState::Proved,
                },
                PhaseOutcome::Verdict(ok) => PipelineState::Verified(ok),
                PhaseOutcome::EntropyUnavailable => PipelineState::Failed(PipelineError::EntropyUnavailable),
                PhaseOutcome::AssignmentMissing => PipelineState::Failed(PipelineError::AssignmentMissing),
                PhaseOutcome::BackendFailed => PipelineState::Failed(spec_phase_error(p)),
            }
        },
    }
}

impl Phase {
    /// Whether the phase is handed a generator seeded with fresh hardware
    /// entropy: every phase but indexing, which is deterministic.
    pub fn needs_fresh_seed(&self) -> (r: bool)
        ensures
            r == (*self != Phase::Index),
    {
        !matches!(self, Phase::Index)
    }

    /// The error that a backend fault in this phase is reported as.
    pub fn failure(&self) -> (r: PipelineError)
        ensures
            r == spec_phase_error(*self),
    {
        match self {
            Phase::Setup => PipelineError::SetupFailed,
            Phase::Index => PipelineError::IndexingFailed,
            Phase::Prove => PipelineError::ProvingFailed,
            Phase::Verify => PipelineError::VerificationFailed,
        }
    }
}

impl PipelineState {
    /// The state before any phase has run.
    pub fn new() -> (r: PipelineState)
        ensures
            r == PipelineState::NotStarted,
    {
        PipelineState::NotStarted
    }

    /// The phase to run next; none once the run has verified or failed.
    pub fn next_phase(&self) -> (r: Option<Phase>)
        ensures
            r == spec_next_phase(*self),
    {
        match self {
            PipelineState::NotStarted => Some(Phase::Setup),
            PipelineState::SetupDone => Some(Phase::Index),
            PipelineState::IndexDone => Some(Phase::Prove),
            PipelineState::Proved => Some(Phase::Verify),
            _ => None,
        }
    }

    /// The state after the next phase came to `outcome`. Phases run strictly in
    /// order and none is retried: a failure ends the run with the error of the
    /// phase, and a verdict, `false` included, ends it as verified. An outcome
    /// that the next phase cannot come to, or any outcome once the run has
    /// ended, leaves the state as it is.
    pub fn advance(self, outcome: PhaseOutcome) -> (r: PipelineState)
        ensures
            r == spec_advance(self, outcome),
    {
        let phase = match self.next_phase() {
            Some(p) => p,
            None => return self,
        };
        match (phase, outcome) {
            (Phase::Setup, PhaseOutcome::Completed) => PipelineState::SetupDone,
            (Phase::Index, PhaseOutcome::Completed) => PipelineState::IndexDone,
            (Phase::Prove, PhaseOutcome::Completed) => PipelineState::Proved,
            (Phase::Verify, PhaseOutcome::Verdict(ok)) => PipelineState::Verified(ok),
            (Phase::Index, PhaseOutcome::EntropyUnavailable) => self,
            (_, PhaseOutcome::EntropyUnavailable) => PipelineState::Failed(PipelineError::EntropyUnavailable),
            (Phase::Prove, PhaseOutcome::AssignmentMissing) => PipelineState::Failed(PipelineError::AssignmentMissing),
            (_, PhaseOutcome::BackendFailed) => PipelineState::Failed(phase.failure()),
            _ => self,
        }
    }
}

impl SetupBounds {
    /// Bounds that fit a layout exactly: its constraint count, its allocation
    /// count, and three non-zero entries per constraint.
    pub fn for_layout(layout: &R1csLayout) -> (r: SetupBounds)
        requires
            3 * layout.constraints@.len() <= usize::MAX,
        ensures
            r.num_constraints == layout.constraints@.len(),
            r.num_variables == layout.allocations@.len(),
            r.num_non_zero == 3 * layout.constraints@.len(),
    {
        let n = layout.constraints.len();
        SetupBounds { num_constraints: n, num_variables: layout.allocations.len(), num_non_zero: 3 * n }
    }
}

/// The generator that a phase runs with: indexing takes none; every other
/// phase takes a new one, seeded with entropy drawn from the hardware for it
/// alone, or fails with `EntropyUnavailable`.
pub fn phase_rng(phase: Phase) -> (r: Result<Option<SeededRng>, PipelineError>)
    ensures
        phase == Phase::Index ==> r == Ok::<Option<SeededRng>, PipelineError>(None),
        phase != Phase::Index ==> match r {
            Ok(Some(g)) => g.word_pos() == 0,
            Ok(None) => false,
            Err(e) => e == PipelineError::EntropyUnavailable,
        },
{
    if !phase.needs_fresh_seed() {
        return Ok(None);
    }
    match obtain_seed() {
        Ok(seed) => Ok(Some(SeededRng::from_seed(seed))),
        Err(e) => Err(e),
    }
}

/// The layout that indexing runs on: that of the placeholder circuit, which
/// carries no values.
pub fn indexing_layout(a: Scalar, b: Scalar) -> (r: R1csLayout)
    ensures
        is_layout_of(LinearCircuit { x: None, y: None, a, b }, r),
{
    LinearCircuit::placeholder(a, b).generate_constraints()
}

/// The layout that proving runs on, or `AssignmentMissing` when the circuit
/// lacks `x` or `y`: proving never goes ahead on a missing value.
pub fn proving_layout(c: &LinearCircuit) -> (r: Result<R1csLayout, PipelineError>)
    ensures
        r is Err <==> (c.x is None || c.y is None),
        r is Err ==> r->Err_0 == PipelineError::AssignmentMissing,
        r is Ok ==> is_layout_of(*c, r->Ok_0),
{
    match c.assignment() {
        Ok(_) => Ok(c.generate_constraints()),
        Err(_) => Err(PipelineError::AssignmentMissing),
    }
}

/// A run that reaches a verdict has gone through setup, indexing and proving,
/// in this order, each completed exactly once.
pub proof fn lemma_verdict_needs_all_phases(s0: PipelineState, o1: PhaseOutcome, o2: PhaseOutcome, o3: PhaseOutcome, o4: PhaseOutcome, ok: bool)
    requires
        s0 == PipelineState::NotStarted,
        spec_advance(spec_advance(spec_advance(spec_advance(s0, o1), o2), o3), o4) == PipelineState::Verified(ok),
    ensures
        o1 == PhaseOutcome::Completed,
        o2 == PhaseOutcome::Completed,
        o3 == PhaseOutcome::Completed,
        o4 == PhaseOutcome::Verdict(ok),
{
}

} // verus!
