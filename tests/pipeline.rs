use linear_marlin::pipeline::{Phase, PhaseOutcome, PipelineError, PipelineState};

#[test]
fn phases_run_in_order() {
    let mut s = PipelineState::new();
    assert_eq!(s.next_phase(), Some(Phase::Setup));
    s = s.advance(PhaseOutcome::Completed);
    assert_eq!(s, PipelineState::SetupDone);
    assert_eq!(s.next_phase(), Some(Phase::Index));
    s = s.advance(PhaseOutcome::Completed);
    assert_eq!(s, PipelineState::IndexDone);
    s = s.advance(PhaseOutcome::Completed);
    assert_eq!(s, PipelineState::Proved);
    assert_eq!(s.advance(PhaseOutcome::Completed), PipelineState::Proved);
    s = s.advance(PhaseOutcome::Verdict(false));
    assert_eq!(s, PipelineState::Verified(false));
    assert_eq!(s.next_phase(), None);
    assert_eq!(s.advance(PhaseOutcome::Verdict(true)), PipelineState::Verified(false));
}

#[test]
fn failures_carry_their_phase() {
    let s = PipelineState::new();
    assert_eq!(s.advance(PhaseOutcome::BackendFailed), PipelineState::Failed(PipelineError::SetupFailed));
    assert_eq!(
        PipelineState::SetupDone.advance(PhaseOutcome::BackendFailed),
        PipelineState::Failed(PipelineError::IndexingFailed)
    );
    assert_eq!(
        PipelineState::IndexDone.advance(PhaseOutcome::BackendFailed),
        PipelineState::Failed(PipelineError::ProvingFailed)
    );
    assert_eq!(
        PipelineState::Proved.advance(PhaseOutcome::BackendFailed),
        PipelineState::Failed(PipelineError::VerificationFailed)
    );
    assert_eq!(
        PipelineState::IndexDone.advance(PhaseOutcome::AssignmentMissing),
        PipelineState::Failed(PipelineError::AssignmentMissing)
    );
    assert_eq!(
        s.advance(PhaseOutcome::EntropyUnavailable),
        PipelineState::Failed(PipelineError::EntropyUnavailable)
    );
    assert_eq!(PipelineState::SetupDone.advance(PhaseOutcome::EntropyUnavailable), PipelineState::SetupDone);
    let failed = PipelineState::Failed(PipelineError::SetupFailed);
    assert_eq!(failed.advance(PhaseOutcome::Completed), failed);
}

#[test]
fn only_indexing_skips_fresh_seed() {
    assert!(Phase::Setup.needs_fresh_seed());
    assert!(!Phase::Index.needs_fresh_seed());
    assert!(Phase::Prove.needs_fresh_seed());
    assert!(Phase::Verify.needs_fresh_seed());
    assert_eq!(Phase::Verify.failure(), PipelineError::VerificationFailed);
}
