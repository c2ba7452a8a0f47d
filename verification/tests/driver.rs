use elf_signature::driver::{capture, finish_run, ExecutionOutcome, SignatureDump};
use elf_signature::error::PipelineError;
use elf_signature::region::SignatureRegion;

fn memory() -> Vec<u8> {
    (0..=255u8).collect()
}

#[test]
fn capture_copies_the_region_verbatim() {
    let region = SignatureRegion::new(0x10, 0x50).unwrap();
    let bytes = capture(&memory(), &region).unwrap();
    assert_eq!(bytes.len(), 64);
    assert_eq!(bytes, (0x10..0x50u8).collect::<Vec<u8>>());
}

#[test]
fn capture_reaches_the_last_byte_of_memory() {
    let region = SignatureRegion::new(255, 256).unwrap();
    assert_eq!(capture(&memory(), &region), Ok(vec![255]));
}

#[test]
fn capture_beyond_memory_is_a_fault() {
    let region = SignatureRegion::new(255, 257).unwrap();
    assert_eq!(capture(&memory(), &region), Err(PipelineError::ExecutionFault));
    let region = SignatureRegion::new(0x1000, 0x1040).unwrap();
    assert_eq!(capture(&memory(), &region), Err(PipelineError::ExecutionFault));
    assert_eq!(capture(&[], &region), Err(PipelineError::ExecutionFault));
}

#[test]
fn halted_run_with_region_and_output_is_captured() {
    let region = SignatureRegion::new(4, 8).unwrap();
    let result = finish_run(ExecutionOutcome::Halted(&memory()), Some(region), Some("sig.out".to_string()));
    assert_eq!(
        result,
        Ok(Some(SignatureDump { path: "sig.out".to_string(), bytes: vec![4, 5, 6, 7] }))
    );
}

#[test]
fn capture_is_skipped_without_an_output_path() {
    let region = SignatureRegion::new(4, 8).unwrap();
    assert_eq!(finish_run(ExecutionOutcome::Halted(&memory()), Some(region), None), Ok(None));
}

#[test]
fn capture_is_skipped_without_a_region() {
    let result = finish_run(ExecutionOutcome::Halted(&memory()), None, Some("sig.out".to_string()));
    assert_eq!(result, Ok(None));
    assert_eq!(finish_run(ExecutionOutcome::Halted(&memory()), None, None), Ok(None));
}

#[test]
fn skipped_capture_does_not_look_at_memory() {
    let region = SignatureRegion::new(0x1000, 0x1040).unwrap();
    assert_eq!(finish_run(ExecutionOutcome::Halted(&[]), Some(region), None), Ok(None));
}

#[test]
fn faulted_run_captures_nothing() {
    let region = SignatureRegion::new(4, 8).unwrap();
    let result = finish_run(ExecutionOutcome::Faulted, Some(region), Some("sig.out".to_string()));
    assert_eq!(result, Err(PipelineError::ExecutionFault));
    assert_eq!(finish_run(ExecutionOutcome::Faulted, None, None), Err(PipelineError::ExecutionFault));
}

#[test]
fn region_outside_the_final_memory_is_a_fault() {
    let region = SignatureRegion::new(0x100, 0x140).unwrap();
    let result = finish_run(ExecutionOutcome::Halted(&memory()), Some(region), Some("sig.out".to_string()));
    assert_eq!(result, Err(PipelineError::ExecutionFault));
}
