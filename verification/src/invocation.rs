//! The two invocation modes: decode and run, and transpile only.
//!
//! Each mode is a sequence of stages in which every failure ends the
//! invocation.  What the stages compute is decided here; the caller reads
//! the binary, runs the program and writes the files.

use vstd::prelude::*;
use vstd::string::StringExecFns;
use crate::error::PipelineError;
use crate::image::{decode, decoding};
use crate::region::SignatureRegion;
use crate::rules::RuntimeConfig;
use crate::symbols::{resolve, resolved};
use crate::transpile::{transpilation, transpile, ExecutableView, TranspiledExecutable};

verus! {

/// The address parameter under which the run mode decodes.
pub const RUN_BASE: u32 = 0x8000_0000;

/// The address parameter under which the transpile mode decodes.
pub const TRANSPILE_BASE: u32 = 0x2000_0000;

/// What the transpile mode appends to the binary's path to name its output.
pub const VMEXE_SUFFIX: &'static str = ".vmexe";

/// The exit code of an invocation with the wrong number of arguments.
pub const USAGE_EXIT_CODE: i32 = 1;

/// The configuration of both modes: all three instruction families.
pub open spec fn standard_config() -> RuntimeConfig {
    RuntimeConfig { base_integer: true, multiply_divide: true, io: true }
}

/// What the run mode was asked to do.
#[derive(Clone, Debug, PartialEq, Eq)]
pub struct RunRequest {
    /// The path of the binary.
    pub elf_path: String,
    /// Where the signature goes, if it is to be captured.
    pub signature_path: Option<String>,
}

/// What the transpile mode was asked to do.
#[derive(Clone, Debug, PartialEq, Eq)]
pub struct TranspileRequest {
    /// The path of the binary.
    pub elf_path: String,
    /// The path of the executable to write.
    pub vmexe_path: String,
}

/// What the run mode has ready once a binary has passed every stage before
/// execution.
#[derive(Clone, Debug, PartialEq, Eq)]
pub struct RunPlan {
    /// The signature region of the binary.
    pub region: SignatureRegion,
    /// The translated program.
    pub executable: TranspiledExecutable,
}

/// Reads the arguments of the run mode: the program's name, the path of
/// the binary and, optionally, the path of the signature output.  Nothing
/// comes back when the path of the binary is missing.
pub fn parse_run_args(args: &Vec<String>) -> (request: Option<RunRequest>)
    ensures
        request is Some <==> args@.len() >= 2,
        request matches Some(r) ==> {
            &&& r.elf_path@ == args@[1]@
            &&& r.signature_path is Some <==> args@.len() >= 3
            &&& r.signature_path matches Some(path) ==> path@ == args@[2]@
        },
{
    if args.len() < 2 {
        return None;
    }
    let signature_path = if args.len() >= 3 {
        Some(args[2].clone())
    } else {
        None
    };
    Some(RunRequest { elf_path: args[1].clone(), signature_path })
}

/// The path of the executable that the transpile mode writes for a binary.
pub fn vmexe_path(elf_path: &str) -> (path: String)
    ensures
        path@ == elf_path@ + VMEXE_SUFFIX@,
{
    String::from_str(elf_path).concat(VMEXE_SUFFIX)
}

/// Reads the arguments of the transpile mode: the program's name and the
/// path of the binary, no more and no less.
pub fn parse_transpile_args(args: &Vec<String>) -> (request: Option<TranspileRequest>)
    ensures
        request is Some <==> args@.len() == 2,
        request matches Some(r) ==> {
            &&& r.elf_path@ == args@[1]@
            &&& r.vmexe_path@ == args@[1]@ + VMEXE_SUFFIX@
        },
{
    if args.len() != 2 {
        return None;
    }
    Some(
        TranspileRequest {
            elf_path: args[1].clone(),
            vmexe_path: vmexe_path(args[1].as_str()),
        },
    )
}

/// What decoding and translation yield on a binary: the executable, or the
/// failure of the first stage that fails.
pub open spec fn executable_of(raw: Seq<u8>, base: u32, config: RuntimeConfig) -> Result<
    ExecutableView,
    PipelineError,
> {
    match decoding(raw, base) {
        None => Err(PipelineError::MalformedElf),
        Some(image) => match transpilation(image, config) {
            None => Err(PipelineError::UnsupportedInstruction),
            Some(exe) => Ok(exe),
        },
    }
}

/// Decodes a binary and translates the image.  Under an aligned address
/// parameter, the executable lies below it.
pub fn decode_and_transpile(raw: &[u8], base: u32, config: RuntimeConfig) -> (res: Result<
    TranspiledExecutable,
    PipelineError,
>)
    ensures
        match res {
            Ok(exe) => {
                &&& executable_of(raw@, base, config) == Ok::<ExecutableView, PipelineError>(exe@)
                &&& base % 4 == 0 ==> exe@.below(base)
            },
            Err(e) => executable_of(raw@, base, config) == Err::<ExecutableView, PipelineError>(e),
        },
{
    match decode(raw, base) {
        Ok(image) => {
            let res = transpile(&image, config);
            res
        },
        Err(e) => Err(e),
    }
}

/// What the run mode yields on a binary before execution: the bounds of the
/// signature region and the translated program.  Resolution comes first, so
/// that a binary without a region fails before anything else is done.
pub open spec fn run_preparation(raw: Seq<u8>) -> Result<((u32, u32), ExecutableView), PipelineError> {
    match resolved(raw) {
        Err(e) => Err(e),
        Ok(bounds) => match executable_of(raw, RUN_BASE, standard_config()) {
            Err(e) => Err(e),
            Ok(exe) => Ok((bounds, exe)),
        },
    }
}

/// The stages of the run mode that come before execution: resolve the
/// signature region, decode under [`RUN_BASE`], translate under all three
/// rule sets.
pub fn prepare_run(raw: &[u8]) -> (res: Result<RunPlan, PipelineError>)
    ensures
        match res {
            Ok(plan) => {
                &&& run_preparation(raw@) == Ok::<((u32, u32), ExecutableView), PipelineError>(
                    ((plan.region.spec_begin(), plan.region.spec_end()), plan.executable@),
                )
                &&& plan.executable@.below(RUN_BASE)
            },
            Err(e) => run_preparation(raw@) == Err::<((u32, u32), ExecutableView), PipelineError>(e),
        },
{
    let region = match resolve(raw) {
        Ok(region) => region,
        Err(e) => { return Err(e); },
    };
    match decode_and_transpile(raw, RUN_BASE, RuntimeConfig::rv32im_io()) {
        Ok(executable) => Ok(RunPlan { region, executable }),
        Err(e) => Err(e),
    }
}

/// The stages of the transpile mode: decode under [`TRANSPILE_BASE`],
/// translate under all three rule sets.
pub fn prepare_transpile(raw: &[u8]) -> (res: Result<TranspiledExecutable, PipelineError>)
    ensures
        match res {
            Ok(exe) => {
                &&& executable_of(raw@, TRANSPILE_BASE, standard_config()) == Ok::<
                    ExecutableView,
                    PipelineError,
                >(exe@)
                &&& exe@.below(TRANSPILE_BASE)
            },
            Err(e) => executable_of(raw@, TRANSPILE_BASE, standard_config()) == Err::<
                ExecutableView,
                PipelineError,
            >(e),
        },
{
    decode_and_transpile(raw, TRANSPILE_BASE, RuntimeConfig::rv32im_io())
}

} // verus!
