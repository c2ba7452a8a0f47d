//! The failures of the pipeline.

use vstd::prelude::*;

verus! {

/// Why a stage of the pipeline gave up.  No stage retries: every failure
/// means that the input is malformed or unsupported.
#[derive(Clone, Copy, Debug, PartialEq, Eq, Structural)]
pub enum PipelineError {
    /// The binary is structurally corrupt and cannot be decoded.
    MalformedElf,
    /// `begin_signature` or `end_signature` is not in the symbol table.
    MissingSignatureSymbols,
    /// Both symbols were found, but `begin_signature` does not lie below
    /// `end_signature`.
    InvertedSignatureRange,
    /// An instruction word cannot be translated under the configuration.
    UnsupportedInstruction,
    /// The virtual machine reported a fault, or the final memory does not
    /// hold the signature region.
    ExecutionFault,
    /// A file could not be read or written.
    IoFailure,
}

impl PipelineError {
    /// A line that says what went wrong, for the report of an invocation.
    pub open spec fn spec_describe(&self) -> Seq<char> {
        match self {
            PipelineError::MalformedElf => "malformed ELF binary"@,
            PipelineError::MissingSignatureSymbols => "begin_signature or end_signature is missing"@,
            PipelineError::InvertedSignatureRange => "begin_signature does not lie below end_signature"@,
            PipelineError::UnsupportedInstruction => "unsupported instruction"@,
            PipelineError::ExecutionFault => "execution fault"@,
            PipelineError::IoFailure => "file could not be read or written"@,
        }
    }

    /// A line that says what went wrong, for the report of an invocation.
    pub fn describe(&self) -> (text: &'static str)
        ensures
            text@ == self.spec_describe(),
    {
        match self {
            PipelineError::MalformedElf => "malformed ELF binary",
            PipelineError::MissingSignatureSymbols => "begin_signature or end_signature is missing",
            PipelineError::InvertedSignatureRange => "begin_signature does not lie below end_signature",
            PipelineError::UnsupportedInstruction => "unsupported instruction",
            PipelineError::ExecutionFault => "execution fault",
            PipelineError::IoFailure => "file could not be read or written",
        }
    }
}

} // verus!
