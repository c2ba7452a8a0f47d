//! The symbol resolver: finds the signature region of a binary by the two
//! symbols that delimit it.

use vstd::prelude::*;
use object::{Object, ObjectSymbol};
use crate::error::PipelineError;
use crate::region::SignatureRegion;

verus! {

/// The symbol whose address is the first byte of the signature region.
pub const BEGIN_SIGNATURE: &'static str = "begin_signature";

/// The symbol whose address is one past the last byte of the signature region.
pub const END_SIGNATURE: &'static str = "end_signature";

/// One entry of a symbol table.
#[derive(Clone, Debug, PartialEq, Eq)]
pub struct Symbol {
    /// The symbol's name, or nothing where the table holds no readable name.
    pub name: Option<String>,
    /// The symbol's virtual address.
    pub address: u64,
}

/// What a [`Symbol`] stands for in contracts.
pub ghost struct SymbolView {
    pub name: Option<Seq<char>>,
    pub address: u64,
}

impl View for Symbol {
    type V = SymbolView;

    open spec fn view(&self) -> SymbolView {
        SymbolView {
            name: match self.name {
                Some(n) => Some(n@),
                None => None,
            },
            address: self.address,
        }
    }
}

/// The views of a table's entries, in the table's order.
pub open spec fn symbol_views(symbols: Seq<Symbol>) -> Seq<SymbolView> {
    Seq::new(symbols.len(), |i: int| symbols[i]@)
}

/// Entry `i` is called `name`, and no entry before it is.
pub open spec fn is_first_named(symbols: Seq<SymbolView>, name: Seq<char>, i: int) -> bool {
    &&& 0 <= i < symbols.len()
    &&& symbols[i].name == Some(name)
    &&& forall|j: int| 0 <= j < i ==> (#[trigger] symbols[j]).name != Some(name)
}

/// The address of the first entry called `name`, if there is one.
pub open spec fn first_address(symbols: Seq<SymbolView>, name: Seq<char>) -> Option<u64> {
    if exists|i: int| is_first_named(symbols, name, i) {
        Some(symbols[choose|i: int| is_first_named(symbols, name, i)].address)
    } else {
        None
    }
}

/// The low 32 bits of an address: the machine's addresses are 32 bits wide.
pub open spec fn low32(address: u64) -> u32 {
    (address as int % 0x1_0000_0000) as u32
}

/// The outcome of resolution on a symbol table: the two bounds, or the
/// reason why there is no region.
pub open spec fn resolution(symbols: Seq<SymbolView>) -> Result<(u32, u32), PipelineError> {
    match (first_address(symbols, BEGIN_SIGNATURE@), first_address(symbols, END_SIGNATURE@)) {
        (Some(b), Some(e)) => if low32(b) < low32(e) {
            Ok((low32(b), low32(e)))
        } else {
            Err(PipelineError::InvertedSignatureRange)
        },
        _ => Err(PipelineError::MissingSignatureSymbols),
    }
}

/// At most one entry is the first of its name.
pub proof fn lemma_first_named_unique(symbols: Seq<SymbolView>, name: Seq<char>, i: int, j: int)
    requires
        is_first_named(symbols, name, i),
        is_first_named(symbols, name, j),
    ensures
        i == j,
{
    if i < j {
        assert(symbols[i].name != Some(name));
    } else if j < i {
        assert(symbols[j].name != Some(name));
    }
}

fn narrow(address: u64) -> (low: u32)
    ensures
        low == low32(address),
{
    (address % 0x1_0000_0000u64) as u32
}

/// Resolves the signature region from a symbol table: one pass over the
/// entries, in which the first entry of each of the two names counts.
pub fn resolve_symbols(symbols: &Vec<Symbol>) -> (res: Result<SignatureRegion, PipelineError>)
    ensures
        match res {
            Ok(r) => resolution(symbol_views(symbols@)) == Ok::<(u32, u32), PipelineError>(
                (r.spec_begin(), r.spec_end()),
            ),
            Err(e) => resolution(symbol_views(symbols@)) == Err::<(u32, u32), PipelineError>(e),
        },
{
    let begin_name = BEGIN_SIGNATURE.to_owned();
    let end_name = END_SIGNATURE.to_owned();
    let ghost views = symbol_views(symbols@);
    let mut begin: Option<u64> = None;
    let mut end: Option<u64> = None;
    let mut at: usize = 0;
    while at < symbols.len()
        invariant
            at <= symbols.len(),
            views == symbol_views(symbols@),
            begin_name@ == BEGIN_SIGNATURE@,
            end_name@ == END_SIGNATURE@,
            begin == first_address(views.take(at as int), BEGIN_SIGNATURE@),
            end == first_address(views.take(at as int), END_SIGNATURE@),
        decreases symbols.len() - at,
    {
        let symbol = &symbols[at];
        proof {
            lemma_first_address_step(views, BEGIN_SIGNATURE@, at as int);
            lemma_first_address_step(views, END_SIGNATURE@, at as int);
        }
        match &symbol.name {
            Some(name) => {
                if begin.is_none() && *name == begin_name {
                    begin = Some(symbol.address);
                }
                if end.is_none() && *name == end_name {
                    end = Some(symbol.address);
                }
            },
            None => {},
        }
        at = at + 1;
    }
    proof {
        assert(views.take(at as int) == views);
    }
    match (begin, end) {
        (Some(b), Some(e)) => {
            match SignatureRegion::new(narrow(b), narrow(e)) {
                Some(region) => Ok(region),
                None => Err(PipelineError::InvertedSignatureRange),
            }
        },
        _ => Err(PipelineError::MissingSignatureSymbols),
    }
}

/// Extending a table by one entry keeps the first entry of a name, and
/// gives the name its first entry where it had none.
proof fn lemma_first_address_step(symbols: Seq<SymbolView>, name: Seq<char>, n: int)
    requires
        0 <= n < symbols.len(),
    ensures
        first_address(symbols.take(n + 1), name) == (if first_address(symbols.take(n), name).is_some() {
            first_address(symbols.take(n), name)
        } else if symbols[n].name == Some(name) {
            Some(symbols[n].address)
        } else {
            None
        }),
{
    let short = symbols.take(n);
    let long = symbols.take(n + 1);
    if exists|i: int| is_first_named(short, name, i) {
        let i = choose|i: int| is_first_named(short, name, i);
        assert(is_first_named(long, name, i));
        let k = choose|k: int| is_first_named(long, name, k);
        lemma_first_named_unique(long, name, i, k);
    } else if symbols[n].name == Some(name) {
        assert forall|j: int| 0 <= j < n implies (#[trigger] long[j]).name != Some(name) by {
            if long[j].name == Some(name) {
                lemma_some_first(short, name, j);
            }
        }
        assert(is_first_named(long, name, n));
        let k = choose|k: int| is_first_named(long, name, k);
        lemma_first_named_unique(long, name, n, k);
    } else {
        if exists|k: int| is_first_named(long, name, k) {
            let k = choose|k: int| is_first_named(long, name, k);
            assert(is_first_named(short, name, k));
        }
    }
}

/// A table with an entry called `name` has a first such entry.
proof fn lemma_some_first(symbols: Seq<SymbolView>, name: Seq<char>, j: int)
    requires
        0 <= j < symbols.len(),
        symbols[j].name == Some(name),
    ensures
        exists|i: int| is_first_named(symbols, name, i),
    decreases j,
{
    if exists|k: int| 0 <= k < j && symbols[k].name == Some(name) {
        let k = choose|k: int| 0 <= k < j && symbols[k].name == Some(name);
        lemma_some_first(symbols, name, k);
    } else {
        assert(is_first_named(symbols, name, j));
    }
}

/// The symbol table that the `object` crate reads from a binary: the entries
/// in the order in which it walks them, or nothing where it cannot parse the
/// binary.
pub uninterp spec fn symbol_table(raw: Seq<u8>) -> Option<Seq<SymbolView>>;

/// Reads the symbol table of a binary with `object::File::parse` and
/// `Object::symbols`.  Each entry is handed out with the name that
/// `ObjectSymbol::name` gives it (nothing where that fails) and the address
/// that `ObjectSymbol::address` gives it.  The contract only names the
/// outcome: the same bytes give the same table.
#[verifier::external_body]
fn read_symbols(raw: &[u8]) -> (res: Option<Vec<Symbol>>)
    ensures
        res.is_some() == symbol_table(raw@).is_some(),
        res matches Some(symbols) ==> symbol_table(raw@) == Some(symbol_views(symbols@)),
{
    let file = object::File::parse(raw).ok()?;
    Some(
        file.symbols().map(
            |s| Symbol { name: s.name().ok().map(str::to_owned), address: s.address() },
        ).collect(),
    )
}

/// What resolution yields on a binary: the outcome on its symbol table, and
/// a binary without a readable symbol table has neither symbol.
pub open spec fn resolved(raw: Seq<u8>) -> Result<(u32, u32), PipelineError> {
    match symbol_table(raw) {
        Some(symbols) => resolution(symbols),
        None => Err(PipelineError::MissingSignatureSymbols),
    }
}

/// Resolves the signature region of a binary.
///
/// Fails with `MissingSignatureSymbols` when either symbol is absent, and
/// with `InvertedSignatureRange` when both are found but out of order.
pub fn resolve(raw: &[u8]) -> (res: Result<SignatureRegion, PipelineError>)
    ensures
        match res {
            Ok(r) => resolved(raw@) == Ok::<(u32, u32), PipelineError>(
                (r.spec_begin(), r.spec_end()),
            ),
            Err(e) => resolved(raw@) == Err::<(u32, u32), PipelineError>(e),
        },
{
    match read_symbols(raw) {
        Some(symbols) => resolve_symbols(&symbols),
        None => Err(PipelineError::MissingSignatureSymbols),
    }
}

/// The bounds of the signature region of a binary, or nothing when the
/// binary has no such region, for whichever reason.
pub fn find_signature_bounds(elf_data: &[u8]) -> (bounds: Option<(u32, u32)>)
    ensures
        match bounds {
            Some(pair) => resolved(elf_data@) == Ok::<(u32, u32), PipelineError>(pair),
            None => resolved(elf_data@).is_err(),
        },
{
    match resolve(elf_data) {
        Ok(region) => Some((region.begin(), region.end())),
        Err(_) => None,
    }
}

} // verus!
