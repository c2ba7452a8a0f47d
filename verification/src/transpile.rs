//! The instruction transpiler: rewrites a program image for the virtual
//! machine.
//!
//! The translation of each instruction word is the work of
//! `openvm-transpiler` with the rule sets of `openvm-rv32im-transpiler`.
//! What is decided here is which words reach the translator at all: only
//! words whose family the configuration enables, and which the translator
//! can encode.

use vstd::prelude::*;
use openvm_circuit::arch::instructions::exe::VmExe;
use openvm_rv32im_transpiler::{
    Rv32ITranspilerExtension, Rv32IoTranspilerExtension, Rv32MTranspilerExtension,
};
use openvm_sdk::F;
use openvm_stark_backend::p3_field::PrimeField32;
use openvm_transpiler::elf::Elf;
use openvm_transpiler::transpiler::{Transpiler, TranspilerError};
use openvm_transpiler::FromElf;
use crate::error::PipelineError;
use crate::image::{image_view, word_aligned, ImageView, ProgramImage};
use crate::rules::{admitted, all_encodable, check_words, RuntimeConfig};

verus! {

/// The address space of the virtual machine that holds the program's memory.
pub const MEMORY_SPACE: u32 = 2;

/// One instruction of the virtual machine: an opcode and seven operands,
/// each operand a field element in canonical form.
#[derive(Clone, Copy, Debug, PartialEq, Eq)]
pub struct VmInstruction {
    pub opcode: u64,
    pub operands: [u32; 7],
}

/// One byte of the initial memory of the virtual machine.
#[derive(Clone, Copy, Debug, PartialEq, Eq, Structural)]
pub struct MemoryCell {
    pub space: u32,
    pub address: u32,
    pub value: u8,
}

/// A translated program, ready to be run or stored.
#[derive(Clone, Debug, PartialEq, Eq)]
pub struct TranspiledExecutable {
    /// The instruction at each program counter, `pc_base` first, four apart.
    pub instructions: Vec<Option<VmInstruction>>,
    /// The program counter of the first instruction.
    pub pc_base: u32,
    /// The program counter at which execution starts.
    pub pc_start: u32,
    /// The initial memory, byte by byte.
    pub init_memory: Vec<MemoryCell>,
}

/// What a [`TranspiledExecutable`] stands for in contracts.
pub ghost struct ExecutableView {
    pub instructions: Seq<Option<VmInstruction>>,
    pub pc_base: u32,
    pub pc_start: u32,
    pub init_memory: Seq<MemoryCell>,
}

impl ExecutableView {
    /// Execution starts below the limit, and so does every byte of the
    /// initial memory.
    pub open spec fn below(self, limit: u32) -> bool {
        &&& self.pc_start < limit
        &&& forall|k: int|
            0 <= k < self.init_memory.len() ==> (#[trigger] self.init_memory[k]).address < limit
    }

    /// The program counter of instruction `index`.
    pub open spec fn pc_of(self, index: int) -> int {
        self.pc_base + 4 * index
    }

    /// The index of the instruction at a program counter, if one lies there.
    pub open spec fn index_at(self, pc: int) -> Option<int> {
        if pc >= self.pc_base && (pc - self.pc_base) % 4 == 0 && (pc - self.pc_base) / 4
            < self.instructions.len() {
            Some((pc - self.pc_base) / 4)
        } else {
            None
        }
    }
}

impl View for TranspiledExecutable {
    type V = ExecutableView;

    open spec fn view(&self) -> ExecutableView {
        ExecutableView {
            instructions: self.instructions@,
            pc_base: self.pc_base,
            pc_start: self.pc_start,
            init_memory: self.init_memory@,
        }
    }
}

/// Byte `i` of a word, the least significant byte first.
pub open spec fn byte_of(word: u32, i: int) -> u8 {
    if i == 0 {
        (word as int % 0x100) as u8
    } else if i == 1 {
        (word as int / 0x100 % 0x100) as u8
    } else if i == 2 {
        (word as int / 0x1_0000 % 0x100) as u8
    } else {
        (word as int / 0x100_0000 % 0x100) as u8
    }
}

/// The cell is byte `i` of the word that the image holds at address `a`.
pub open spec fn cell_of(cell: MemoryCell, memory: Map<u32, u32>, a: u32, i: int) -> bool {
    &&& memory.dom().contains(a)
    &&& 0 <= i < 4
    &&& cell.space == MEMORY_SPACE
    &&& cell.address == a + i
    &&& cell.value == byte_of(memory[a], i)
}

/// The cell is a byte of some word of the image, at that byte's address.
pub open spec fn from_image(cell: MemoryCell, memory: Map<u32, u32>) -> bool {
    exists|a: u32, i: int| #[trigger] cell_of(cell, memory, a, i)
}

/// Byte `i` of the word that the image holds at address `a` has its cell.
pub open spec fn has_cell(cells: Seq<MemoryCell>, memory: Map<u32, u32>, a: u32, i: int) -> bool {
    exists|k: int| 0 <= k < cells.len() && cell_of(#[trigger] cells[k], memory, a, i)
}

/// The cells are the static data of the image, unchanged: each cell is a
/// byte of a word of the image at that byte's address, and each byte of
/// each word of the image has its cell.
pub open spec fn carries_static_data(cells: Seq<MemoryCell>, memory: Map<u32, u32>) -> bool {
    &&& forall|k: int| 0 <= k < cells.len() ==> from_image(#[trigger] cells[k], memory)
    &&& forall|a: u32, i: int|
        memory.dom().contains(a) && 0 <= i < 4 ==> #[trigger] has_cell(cells, memory, a, i)
}

/// The executable has the layout of the image: one instruction for each
/// instruction word, at that word's address, the same entry address, and
/// the image's static data.
pub open spec fn keeps_layout(exe: ExecutableView, image: ImageView) -> bool {
    &&& exe.instructions.len() == image.words.len()
    &&& forall|k: int| 0 <= k < exe.instructions.len() ==> (#[trigger] exe.instructions[k]).is_some()
    &&& exe.pc_base == image.base
    &&& exe.pc_start == image.entry
    &&& carries_static_data(exe.init_memory, image.memory)
}

/// What `VmExe::from_elf` makes of an image under the three rule sets for
/// base integer, multiply and divide, and input and output instructions:
/// the executable, or nothing where it reports an error.
pub uninterp spec fn translated(image: ImageView) -> Option<ExecutableView>;

/// The error that `VmExe::from_elf` reports.
#[verifier::external_type_specification]
#[verifier::external_body]
pub struct ExTranspilerError(TranspilerError);

/// Translates an image with `VmExe::from_elf`, under a transpiler that holds
/// `Rv32ITranspilerExtension`, `Rv32MTranspilerExtension` and
/// `Rv32IoTranspilerExtension`, and copies the executable out field by
/// field, each operand in canonical form.
///
/// The contract names the outcome and adds what the source shows of every
/// executable that comes out: each rule set gives one instruction for one
/// word, the program base and entry are those of the image, and the initial
/// memory is the image's, byte by byte in address space 2.
///
/// The base integer rule set takes the exit code of a terminate instruction
/// as a byte and panics where it is none, and the initial memory is laid
/// out by adding a byte's position to its word's address: `requires` keeps
/// out the words and the images on which either goes wrong.
#[verifier::external_body]
fn translate(elf: &Elf) -> (res: Result<TranspiledExecutable, TranspilerError>)
    requires
        word_aligned(image_view(*elf).memory),
        all_encodable(image_view(*elf).words),
    ensures
        match res {
            Ok(exe) => {
                &&& translated(image_view(*elf)) == Some(exe@)
                &&& keeps_layout(exe@, image_view(*elf))
            },
            Err(_) => translated(image_view(*elf)).is_none(),
        },
{
    let rules = Transpiler::default().with_extension(Rv32ITranspilerExtension)
        .with_extension(Rv32MTranspilerExtension).with_extension(Rv32IoTranspilerExtension);
    let exe = VmExe::<F>::from_elf(elf.clone(), rules)?;
    Ok(TranspiledExecutable {
        instructions: exe.program.instructions_and_debug_infos.into_iter()
            .map(|slot| slot.map(|(i, _)| VmInstruction {
                opcode: i.opcode.as_usize() as u64,
                operands: [i.a, i.b, i.c, i.d, i.e, i.f, i.g].map(|x| x.as_canonical_u32())
            })).collect(),
        pc_base: exe.program.pc_base,
        pc_start: exe.pc_start,
        init_memory: exe.init_memory.into_iter()
            .map(|((space, address), value)| MemoryCell { space, address, value }).collect()
    })
}

/// What translation yields on an image under a configuration: what the
/// translator makes of the image, unless the configuration does not admit
/// every instruction word.
pub open spec fn transpilation(image: ImageView, config: RuntimeConfig) -> Option<ExecutableView> {
    if admitted(image.words, config) {
        translated(image)
    } else {
        None
    }
}

/// Translates a program image for the virtual machine.
///
/// Fails with `UnsupportedInstruction` when the configuration has no rule
/// set for the family of an instruction word, or when a word has no
/// translation.  An executable that comes out has the layout of the image.
pub fn transpile(image: &ProgramImage, config: RuntimeConfig) -> (res: Result<
    TranspiledExecutable,
    PipelineError,
>)
    ensures
        match res {
            Ok(exe) => {
                &&& transpilation(image@, config) == Some(exe@)
                &&& keeps_layout(exe@, image@)
            },
            Err(e) => {
                &&& e == PipelineError::UnsupportedInstruction
                &&& transpilation(image@, config).is_none()
            },
        },
{
    if !check_words(image.words(), config) {
        return Err(PipelineError::UnsupportedInstruction);
    }
    match translate(image.elf()) {
        Ok(exe) => Ok(exe),
        Err(_) => Err(PipelineError::UnsupportedInstruction),
    }
}

} // verus!
