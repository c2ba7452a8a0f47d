//! Instruction families and the runtime configuration that enables them.
//!
//! Every instruction word belongs to exactly one family, so the rule sets
//! of two families never claim the same word.

use vstd::prelude::*;

verus! {

/// The major opcode of the register-register arithmetic instructions.
pub const OPCODE_OP: u32 = 0x33;

/// The major opcode of the system instructions of the virtual machine.
pub const OPCODE_CUSTOM_0: u32 = 0x0b;

/// The `funct7` field that marks a multiply or divide instruction.
pub const FUNCT7_MULDIV: u32 = 0x01;

/// The `funct3` field of the instruction that ends the program.
pub const FUNCT3_TERMINATE: u32 = 0;

/// The `funct3` field of the hint instructions.
pub const FUNCT3_HINT: u32 = 1;

/// The `funct3` field of the instruction that reveals a public value.
pub const FUNCT3_REVEAL: u32 = 2;

/// The largest exit code that the instruction that ends the program can carry.
pub const MAX_EXIT_CODE: u32 = 0xff;

/// A family of source instructions, translated by one rule set.
#[derive(Clone, Copy, Debug, PartialEq, Eq, Structural)]
pub enum Family {
    /// The base integer instructions, and the instructions that end the
    /// program or print.
    BaseInteger,
    /// Integer multiplication and division.
    MultiplyDivide,
    /// Input hints and revealed public values.
    Io,
}

/// The major opcode of an instruction word: its low seven bits.
pub open spec fn spec_opcode(word: u32) -> u32 {
    word & 0x7f
}

/// The `funct3` field of an instruction word: bits 12 to 14.
pub open spec fn spec_funct3(word: u32) -> u32 {
    (word >> 12) & 0x7
}

/// The `funct7` field of an instruction word: bits 25 to 31.
pub open spec fn spec_funct7(word: u32) -> u32 {
    (word >> 25) & 0x7f
}

/// The upper immediate of an instruction word: bits 20 to 31, unsigned.
pub open spec fn spec_upper_immediate(word: u32) -> u32 {
    word >> 20
}

/// The family that an instruction word belongs to.
pub open spec fn spec_family_of(word: u32) -> Family {
    if spec_opcode(word) == OPCODE_OP && spec_funct7(word) == FUNCT7_MULDIV {
        Family::MultiplyDivide
    } else if spec_opcode(word) == OPCODE_CUSTOM_0 && (spec_funct3(word) == FUNCT3_HINT
        || spec_funct3(word) == FUNCT3_REVEAL) {
        Family::Io
    } else {
        Family::BaseInteger
    }
}

/// The word does not end the program with an exit code beyond a byte: such
/// an instruction has no translation.
pub open spec fn spec_encodable(word: u32) -> bool {
    spec_opcode(word) == OPCODE_CUSTOM_0 && spec_funct3(word) == FUNCT3_TERMINATE
        ==> spec_upper_immediate(word) <= MAX_EXIT_CODE
}

/// The major opcode of an instruction word.
#[verifier::when_used_as_spec(spec_opcode)]
pub fn opcode(word: u32) -> (field: u32)
    ensures
        field == spec_opcode(word),
{
    word & 0x7f
}

/// The `funct3` field of an instruction word.
#[verifier::when_used_as_spec(spec_funct3)]
pub fn funct3(word: u32) -> (field: u32)
    ensures
        field == spec_funct3(word),
{
    (word >> 12) & 0x7
}

/// The `funct7` field of an instruction word.
#[verifier::when_used_as_spec(spec_funct7)]
pub fn funct7(word: u32) -> (field: u32)
    ensures
        field == spec_funct7(word),
{
    (word >> 25) & 0x7f
}

/// The family that an instruction word belongs to.
#[verifier::when_used_as_spec(spec_family_of)]
pub fn family_of(word: u32) -> (family: Family)
    ensures
        family == spec_family_of(word),
{
    if opcode(word) == OPCODE_OP && funct7(word) == FUNCT7_MULDIV {
        Family::MultiplyDivide
    } else if opcode(word) == OPCODE_CUSTOM_0 && (funct3(word) == FUNCT3_HINT || funct3(word)
        == FUNCT3_REVEAL) {
        Family::Io
    } else {
        Family::BaseInteger
    }
}

/// Whether the word can be translated at all: see [`spec_encodable`].
#[verifier::when_used_as_spec(spec_encodable)]
pub fn encodable(word: u32) -> (ok: bool)
    ensures
        ok == spec_encodable(word),
{
    !(opcode(word) == OPCODE_CUSTOM_0 && funct3(word) == FUNCT3_TERMINATE) || (word >> 20)
        <= MAX_EXIT_CODE
}

/// Which instruction families a run supports.
#[derive(Clone, Copy, Debug, PartialEq, Eq, Structural)]
pub struct RuntimeConfig {
    /// Base integer arithmetic.
    pub base_integer: bool,
    /// Integer multiplication and division.
    pub multiply_divide: bool,
    /// Input hints and revealed public values.
    pub io: bool,
}

impl RuntimeConfig {
    /// Whether the configuration enables a family.
    pub open spec fn spec_enables(&self, family: Family) -> bool {
        match family {
            Family::BaseInteger => self.base_integer,
            Family::MultiplyDivide => self.multiply_divide,
            Family::Io => self.io,
        }
    }

    /// A configuration with exactly the named families enabled.
    pub fn new(base_integer: bool, multiply_divide: bool, io: bool) -> (config: RuntimeConfig)
        ensures
            config == (RuntimeConfig { base_integer, multiply_divide, io }),
    {
        RuntimeConfig { base_integer, multiply_divide, io }
    }

    /// The configuration of both invocation modes: all three families.
    pub fn rv32im_io() -> (config: RuntimeConfig)
        ensures
            config == (RuntimeConfig { base_integer: true, multiply_divide: true, io: true }),
    {
        RuntimeConfig { base_integer: true, multiply_divide: true, io: true }
    }

    /// Whether the configuration enables a family.
    #[verifier::when_used_as_spec(spec_enables)]
    pub fn enables(&self, family: Family) -> (enabled: bool)
        ensures
            enabled == self.spec_enables(family),
    {
        match family {
            Family::BaseInteger => self.base_integer,
            Family::MultiplyDivide => self.multiply_divide,
            Family::Io => self.io,
        }
    }
}

/// The configuration has a rule set for the word, and the word can be
/// translated.
pub open spec fn supported(word: u32, config: RuntimeConfig) -> bool {
    config.spec_enables(spec_family_of(word)) && spec_encodable(word)
}

/// Every word of the stream can be translated.
pub open spec fn all_encodable(words: Seq<u32>) -> bool {
    forall|i: int| 0 <= i < words.len() ==> spec_encodable(#[trigger] words[i])
}

/// Every word of the stream is supported.
pub open spec fn admitted(words: Seq<u32>, config: RuntimeConfig) -> bool {
    forall|i: int| 0 <= i < words.len() ==> supported(#[trigger] words[i], config)
}

/// Checks a stream of instruction words against a configuration.
pub fn check_words(words: &Vec<u32>, config: RuntimeConfig) -> (ok: bool)
    ensures
        ok == admitted(words@, config),
{
    let mut at: usize = 0;
    while at < words.len()
        invariant
            at <= words.len(),
            forall|i: int| 0 <= i < at ==> supported(#[trigger] words@[i], config),
        decreases words.len() - at,
    {
        let word = words[at];
        if !(config.enables(family_of(word)) && encodable(word)) {
            return false;
        }
        at = at + 1;
    }
    true
}

} // verus!
