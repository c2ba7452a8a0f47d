//! Signature-region resolution and transpilation pipeline for RISC-V
//! compliance-test binaries.
//!
//! A compliance run takes a compiled RISC-V ELF binary, finds the memory
//! region delimited by the symbols `begin_signature` and `end_signature`,
//! translates the binary's instructions for the OpenVM instruction set and,
//! once the translated program has run, records the final contents of that
//! region.  This crate holds the decisions of that pipeline; reading and
//! writing files and running the virtual machine are left to the caller.
//!
//! Three pieces of work are done by other crates, each behind functions
//! whose contracts are believed rather than proved: `object` reads the
//! symbol table (`read_symbols` in [`symbols`]), `openvm-transpiler`
//! decodes the binary (`decode_elf` and `elf_words` in [`image`]) and, with
//! the rule sets of `openvm-rv32im-transpiler`, translates the image
//! (`translate` in [`transpile`]).  Everything else is verified.

pub mod bytes;
pub mod driver;
pub mod error;
pub mod image;
pub mod invocation;
pub mod laws;
pub mod region;
pub mod rules;
pub mod symbols;
pub mod transpile;
