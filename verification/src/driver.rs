//! The execution driver's decisions: what becomes of a run once the
//! virtual machine has stopped.
//!
//! Running the translated program is the caller's part.  The caller hands
//! back how the run ended and, where it halted, the final memory; what is
//! captured and when is decided here.

use vstd::prelude::*;
use crate::error::PipelineError;
use crate::region::SignatureRegion;

verus! {

/// How the virtual machine left a run.
pub enum ExecutionOutcome<'a> {
    /// The program ran to its end; the final memory, byte `i` at address `i`.
    Halted(&'a [u8]),
    /// The virtual machine reported a fault it could not recover from.
    Faulted,
}

/// The bytes of the signature region and the file they are meant for.
#[derive(Clone, Debug, PartialEq, Eq)]
pub struct SignatureDump {
    /// Where the bytes go.
    pub path: String,
    /// The bytes of the region in the final memory, with no header.
    pub bytes: Vec<u8>,
}

/// The final memory holds the whole region.
pub open spec fn holds_region(memory: Seq<u8>, region: SignatureRegion) -> bool {
    region.spec_end() <= memory.len()
}

/// The bytes of the region in the final memory.
pub open spec fn region_bytes(memory: Seq<u8>, region: SignatureRegion) -> Seq<u8> {
    memory.subrange(region.spec_begin() as int, region.spec_end() as int)
}

/// Copies the bytes of the region out of the final memory.
///
/// Fails with `ExecutionFault` when the memory ends before the region does.
pub fn capture(memory: &[u8], region: &SignatureRegion) -> (res: Result<Vec<u8>, PipelineError>)
    ensures
        match res {
            Ok(bytes) => holds_region(memory@, *region) && bytes@ == region_bytes(memory@, *region),
            Err(e) => e == PipelineError::ExecutionFault && !holds_region(memory@, *region),
        },
{
    let begin: usize = region.begin() as usize;
    let end: usize = region.end() as usize;
    if end > memory.len() {
        return Err(PipelineError::ExecutionFault);
    }
    let mut bytes: Vec<u8> = Vec::new();
    let mut at: usize = begin;
    while at < end
        invariant
            begin <= at <= end <= memory@.len(),
            bytes@ == memory@.subrange(begin as int, at as int),
        decreases end - at,
    {
        bytes.push(memory[at]);
        at = at + 1;
    }
    Ok(bytes)
}

/// Concludes a run.
///
/// A faulted run fails with `ExecutionFault` and captures nothing.  A run
/// that halted captures the region if both the region and the output path
/// are there, and nothing otherwise, which is no error.
pub fn finish_run(
    outcome: ExecutionOutcome<'_>,
    region: Option<SignatureRegion>,
    output: Option<String>,
) -> (res: Result<Option<SignatureDump>, PipelineError>)
    ensures
        outcome is Faulted ==> res == Err::<Option<SignatureDump>, PipelineError>(
            PipelineError::ExecutionFault,
        ),
        outcome is Halted && (region is None || output is None) ==> res == Ok::<
            Option<SignatureDump>,
            PipelineError,
        >(None),
        outcome is Halted && region is Some && output is Some ==> match res {
            Ok(Some(dump)) => {
                &&& holds_region(outcome->Halted_0@, region->Some_0)
                &&& dump.path@ == output->Some_0@
                &&& dump.bytes@ == region_bytes(outcome->Halted_0@, region->Some_0)
            },
            Ok(None) => false,
            Err(e) => e == PipelineError::ExecutionFault && !holds_region(
                outcome->Halted_0@,
                region->Some_0,
            ),
        },
{
    match outcome {
        ExecutionOutcome::Faulted => Err(PipelineError::ExecutionFault),
        ExecutionOutcome::Halted(memory) => {
            match (region, output) {
                (Some(region), Some(path)) => {
                    match capture(memory, &region) {
                        Ok(bytes) => Ok(Some(SignatureDump { path, bytes })),
                        Err(e) => Err(e),
                    }
                },
                _ => Ok(None),
            }
        },
    }
}

} // verus!
