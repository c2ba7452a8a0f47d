//! What holds of the pipeline as a whole, proved from the contracts of its
//! stages.

use vstd::prelude::*;
use crate::error::PipelineError;
use crate::image::{within_limit, word_aligned, ImageView};
use crate::rules::RuntimeConfig;
use crate::symbols::{
    first_address, is_first_named, lemma_first_named_unique, low32, resolution, SymbolView,
    BEGIN_SIGNATURE, END_SIGNATURE,
};
use crate::transpile::{keeps_layout, transpilation, ExecutableView};

verus! {

/// The address of the first entry of a name is the address that resolution
/// goes by.
pub proof fn law_first_entry_counts(symbols: Seq<SymbolView>, name: Seq<char>, i: int)
    requires
        is_first_named(symbols, name, i),
    ensures
        first_address(symbols, name) == Some(symbols[i].address),
{
    let k = choose|k: int| is_first_named(symbols, name, k);
    lemma_first_named_unique(symbols, name, i, k);
}

/// A name that no entry bears has no address.
pub proof fn law_absent_name(symbols: Seq<SymbolView>, name: Seq<char>)
    requires
        forall|k: int| 0 <= k < symbols.len() ==> (#[trigger] symbols[k]).name != Some(name),
    ensures
        first_address(symbols, name) is None,
{
}

/// A symbol table that holds both symbols, the first `begin_signature`
/// below the first `end_signature`, resolves to exactly that pair of
/// addresses.
pub proof fn law_ordered_symbols_resolve(symbols: Seq<SymbolView>, i: int, j: int)
    requires
        is_first_named(symbols, BEGIN_SIGNATURE@, i),
        is_first_named(symbols, END_SIGNATURE@, j),
        low32(symbols[i].address) < low32(symbols[j].address),
    ensures
        resolution(symbols) == Ok::<(u32, u32), PipelineError>(
            (low32(symbols[i].address), low32(symbols[j].address)),
        ),
{
    law_first_entry_counts(symbols, BEGIN_SIGNATURE@, i);
    law_first_entry_counts(symbols, END_SIGNATURE@, j);
}

/// A symbol table that holds both symbols, but the first `begin_signature`
/// not below the first `end_signature`, has no region.
pub proof fn law_inverted_symbols_fail(symbols: Seq<SymbolView>, i: int, j: int)
    requires
        is_first_named(symbols, BEGIN_SIGNATURE@, i),
        is_first_named(symbols, END_SIGNATURE@, j),
        low32(symbols[i].address) >= low32(symbols[j].address),
    ensures
        resolution(symbols) == Err::<(u32, u32), PipelineError>(
            PipelineError::InvertedSignatureRange,
        ),
{
    law_first_entry_counts(symbols, BEGIN_SIGNATURE@, i);
    law_first_entry_counts(symbols, END_SIGNATURE@, j);
}

/// A symbol table that lacks either symbol has no region.
pub proof fn law_missing_symbol_fails(symbols: Seq<SymbolView>)
    requires
        (forall|k: int|
            0 <= k < symbols.len() ==> (#[trigger] symbols[k]).name != Some(BEGIN_SIGNATURE@)) || (
        forall|k: int|
            0 <= k < symbols.len() ==> (#[trigger] symbols[k]).name != Some(END_SIGNATURE@)),
    ensures
        resolution(symbols) == Err::<(u32, u32), PipelineError>(
            PipelineError::MissingSignatureSymbols,
        ),
{
}

/// Translation is deterministic: two outcomes of translating one image
/// under one configuration are the same executable, or the same failure.
pub proof fn law_transpile_deterministic(
    image: ImageView,
    config: RuntimeConfig,
    first: Result<ExecutableView, PipelineError>,
    second: Result<ExecutableView, PipelineError>,
)
    requires
        match first {
            Ok(exe) => transpilation(image, config) == Some(exe),
            Err(e) => e == PipelineError::UnsupportedInstruction && transpilation(
                image,
                config,
            ) is None,
        },
        match second {
            Ok(exe) => transpilation(image, config) == Some(exe),
            Err(e) => e == PipelineError::UnsupportedInstruction && transpilation(
                image,
                config,
            ) is None,
        },
    ensures
        first == second,
{
}

/// Control-transfer targets are preserved: in an executable that keeps the
/// layout of its image, a program counter leads to an instruction exactly
/// where the same address leads to an instruction word of the image, and
/// then to the instruction of the same index, which is there.
pub proof fn law_targets_preserved(image: ImageView, exe: ExecutableView, address: int)
    requires
        keeps_layout(exe, image),
    ensures
        exe.index_at(address) == image.index_at(address),
        image.index_at(address) matches Some(k) ==> {
            &&& 0 <= k < exe.instructions.len()
            &&& exe.instructions[k] is Some
            &&& exe.pc_of(k) == address
            &&& image.address_of(k) == address
        },
{
}

/// An executable that keeps the layout of an image lies below every aligned
/// address limit that the image respects.
pub proof fn law_layout_below(image: ImageView, exe: ExecutableView, limit: u32)
    requires
        keeps_layout(exe, image),
        within_limit(image, limit),
        word_aligned(image.memory),
        limit % 4 == 0,
    ensures
        exe.below(limit),
{
}

} // verus!
