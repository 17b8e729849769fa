use vstd::prelude::*;

use rdrand::{ErrorCode, RdRand};

use crate::pipeline::PipelineError;

verus! {

#[verifier::external_type_specification]
#[verifier::external_body]
pub struct ExRdRand(RdRand);

#[verifier::external_type_specification]
#[verifier::external_body]
pub struct ExErrorCode(ErrorCode);

/// Relies on `rdrand::RdRand::new`: a handle on the CPU's RDRAND instruction,
/// or an error when the instruction is not supported.
#[verifier::external_body]
fn rdrand_handle() -> (r: Result<RdRand, ErrorCode>) {
    RdRand::new()
}

/// Relies on `rdrand::RdRand::try_fill_bytes`: fills `dest` from the hardware
/// generator, or reports a hardware failure. Nothing is known of the bytes.
#[verifier::external_body]
fn rdrand_fill(gen: &mut RdRand, dest: &mut [u8; 32]) -> (r: Result<(), ErrorCode>) {
    gen.try_fill_bytes(dest)
}

/// Draws a 32-byte seed from the CPU's hardware random-number instruction.
/// There is no fallback to any operating-system source and no retry: when the
/// instruction is missing or reports a fault, the result is
/// `EntropyUnavailable`.
pub fn obtain_seed() -> (r: Result<[u8; 32], PipelineError>)
    ensures
        r is Err ==> r->Err_0 == PipelineError::EntropyUnavailable,
{
    let mut gen = match rdrand_handle() {
        Ok(g) => g,
        Err(_) => return Err(PipelineError::EntropyUnavailable),
    };
    let mut seed: [u8; 32] = [0u8; 32];
    match rdrand_fill(&mut gen, &mut seed) {
        Ok(()) => Ok(seed),
        Err(_) => Err(PipelineError::EntropyUnavailable),
    }
}

} // verus!
