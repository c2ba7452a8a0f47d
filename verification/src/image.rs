//! The ELF decoder: turns a binary into a program image.
//!
//! Decoding itself is the work of `openvm_transpiler::elf::Elf::decode`.
//! Before the binary is handed over, the program headers are checked here,
//! so that the decoder never computes a file offset beyond 32 bits.

use vstd::prelude::*;
use openvm_transpiler::elf::Elf;
use crate::bytes::{le16, le32, read_u16_le, read_u32_le};
use crate::error::PipelineError;

verus! {

/// The length of the file header of a 32-bit ELF binary.
pub const FILE_HEADER_LEN: usize = 52;

/// The length of one program header of a 32-bit ELF binary.
pub const PROGRAM_HEADER_LEN: u64 = 32;

/// The type of a program header whose segment is loaded into memory.
pub const PT_LOAD: u32 = 1;

/// The count that marks a program header table with too many entries for
/// the file header to hold their number.
pub const PN_XNUM: u16 = 0xffff;

/// The offset, in the file header, of the offset of the program header table.
pub const PHOFF_AT: usize = 28;

/// The offset, in the file header, of the number of program headers.
pub const PHNUM_AT: usize = 44;

/// The offset, in a program header, of the segment's offset in the file.
pub const SEGMENT_OFFSET_AT: usize = 4;

/// The offset, in a program header, of the segment's size in the file.
pub const SEGMENT_FILE_SIZE_AT: usize = 16;

/// The offset of program header `i`, as a 32-bit ELF file header lays the
/// table out.
pub open spec fn program_header_at(raw: Seq<u8>, i: int) -> int {
    le32(raw, PHOFF_AT as int) + PROGRAM_HEADER_LEN * i
}

/// Program header `i`, where it lies in the file and describes a loadable
/// segment, gives the segment a file extent that ends within 32 bits.
pub open spec fn segment_addressable(raw: Seq<u8>, i: int) -> bool {
    let at = program_header_at(raw, i);
    let in_file = at + PROGRAM_HEADER_LEN <= raw.len();
    let loadable = le32(raw, at) == PT_LOAD;
    let offset = le32(raw, at + SEGMENT_OFFSET_AT);
    let file_size = le32(raw, at + SEGMENT_FILE_SIZE_AT);
    in_file && loadable ==> offset + file_size <= 0x1_0000_0000
}

/// The program header table states its own length, and every loadable
/// segment has a file extent that ends within 32 bits.  A buffer too short
/// for a file header has no program headers to check.
pub open spec fn segments_addressable(raw: Seq<u8>) -> bool {
    raw.len() >= FILE_HEADER_LEN ==> {
        &&& le16(raw, PHNUM_AT as int) != PN_XNUM
        &&& forall|i: int| 0 <= i < le16(raw, PHNUM_AT as int) ==> segment_addressable(raw, i)
    }
}

/// Checks the program headers of a binary: see [`segments_addressable`].
pub fn check_segments(raw: &[u8]) -> (ok: bool)
    ensures
        ok == segments_addressable(raw@),
{
    if raw.len() < FILE_HEADER_LEN {
        return true;
    }
    let table: u64 = read_u32_le(raw, PHOFF_AT) as u64;
    let count: u16 = read_u16_le(raw, PHNUM_AT);
    if count == PN_XNUM {
        return false;
    }
    let len: u64 = raw.len() as u64;
    let mut i: u16 = 0;
    while i < count
        invariant
            i <= count,
            count == le16(raw@, PHNUM_AT as int),
            table == le32(raw@, PHOFF_AT as int),
            table <= u32::MAX,
            len == raw@.len(),
            FILE_HEADER_LEN <= raw@.len() <= usize::MAX,
            forall|j: int| 0 <= j < i ==> segment_addressable(raw@, j),
        decreases count - i,
    {
        let header: u64 = table + PROGRAM_HEADER_LEN * (i as u64);
        if header + PROGRAM_HEADER_LEN <= len {
            let at: usize = header as usize;
            if read_u32_le(raw, at) == PT_LOAD {
                let offset: u64 = read_u32_le(raw, at + SEGMENT_OFFSET_AT) as u64;
                let file_size: u64 = read_u32_le(raw, at + SEGMENT_FILE_SIZE_AT) as u64;
                if offset + file_size > 0x1_0000_0000 {
                    assert(!segment_addressable(raw@, i as int));
                    return false;
                }
            }
        }
        i = i + 1;
    }
    true
}

/// What a decoded program image holds.
pub ghost struct ImageView {
    /// The instruction words of the executable segments, in address order.
    pub words: Seq<u32>,
    /// The address at which execution starts.
    pub entry: u32,
    /// The address of the first instruction word.
    pub base: u32,
    /// The initial memory: the word at each loaded word address.
    pub memory: Map<u32, u32>,
}

impl ImageView {
    /// The address of instruction word `index`: the words lie back to back
    /// from `base`.
    pub open spec fn address_of(self, index: int) -> int {
        self.base + 4 * index
    }

    /// The index of the instruction word at an address, if one lies there.
    pub open spec fn index_at(self, address: int) -> Option<int> {
        if address >= self.base && (address - self.base) % 4 == 0 && (address - self.base) / 4
            < self.words.len() {
            Some((address - self.base) / 4)
        } else {
            None
        }
    }
}

/// Every word of the initial memory lies at a multiple of four.
pub open spec fn word_aligned(memory: Map<u32, u32>) -> bool {
    forall|a: u32| memory.dom().contains(a) ==> a % 4 == 0
}

/// The image respects an address limit: execution starts at an aligned
/// address below the limit, and every loaded word lies below it.
pub open spec fn within_limit(image: ImageView, limit: u32) -> bool {
    &&& image.entry < limit
    &&& image.entry % 4 == 0
    &&& forall|a: u32| image.memory.dom().contains(a) ==> a < limit
}

/// What a decoded image of `openvm-transpiler` holds.
pub uninterp spec fn image_view(elf: Elf) -> ImageView;

/// What `Elf::decode` makes of a binary under an address limit: the image,
/// or nothing where it rejects the binary.
pub uninterp spec fn decoded_image(raw: Seq<u8>, limit: u32) -> Option<ImageView>;

/// A decoded image, as `openvm_transpiler::elf::Elf` holds it.
#[verifier::external_type_specification]
#[verifier::external_body]
pub struct ExElf(Elf);

/// The error that `Elf::decode` reports.
#[verifier::external_type_specification]
#[verifier::external_body]
pub struct ExReport(eyre::Report);

/// Decodes a binary with `Elf::decode`, which takes the bytes and the
/// address limit and gives the image or an error.
///
/// The contract names the outcome, so that the same bytes and limit give
/// the same image.  It adds what the decoder tests before it gives an
/// image: the entry address is aligned and below the limit, and words are
/// loaded at aligned addresses below the limit only.
///
/// The decoder adds the file offset of a loadable segment and a position
/// below the segment's file size as 32-bit integers: `requires` keeps out
/// the binaries on which that sum does not fit.
#[verifier::external_body]
fn decode_elf(raw: &[u8], limit: u32) -> (res: Result<Elf, eyre::Report>)
    requires
        segments_addressable(raw@),
    ensures
        match res {
            Ok(elf) => {
                &&& decoded_image(raw@, limit) == Some(image_view(elf))
                &&& word_aligned(image_view(elf).memory)
                &&& within_limit(image_view(elf), limit)
            },
            Err(_) => decoded_image(raw@, limit).is_none(),
        },
{
    Elf::decode(raw, limit)
}

/// The instruction words of an image: the field `instructions` of `Elf`.
#[verifier::external_body]
fn elf_words(elf: &Elf) -> (words: &Vec<u32>)
    ensures
        words@ == image_view(*elf).words,
{
    &elf.instructions
}

/// A decoded program: instruction words, initial memory and entry address.
pub struct ProgramImage {
    elf: Elf,
}

impl View for ProgramImage {
    type V = ImageView;

    closed spec fn view(&self) -> ImageView {
        image_view(self.elf)
    }
}

impl ProgramImage {
    /// The invariant of the type: the initial memory is made of aligned words.
    #[verifier::type_invariant]
    pub closed spec fn aligned(&self) -> bool {
        word_aligned(image_view(self.elf).memory)
    }

    /// The image as the translator takes it.
    pub(crate) fn elf(&self) -> (elf: &Elf)
        ensures
            image_view(*elf) == self@,
            word_aligned(self@.memory),
    {
        proof {
            use_type_invariant(self);
        }
        &self.elf
    }

    /// The instruction words of the image, in address order.
    pub fn words(&self) -> (words: &Vec<u32>)
        ensures
            words@ == self@.words,
    {
        elf_words(&self.elf)
    }
}

/// What decoding yields on a binary: the image that the decoder makes of
/// it, unless the program headers are refused or the decoder rejects it.
pub open spec fn decoding(raw: Seq<u8>, base: u32) -> Option<ImageView> {
    if segments_addressable(raw) {
        decoded_image(raw, base)
    } else {
        None
    }
}

/// Decodes a binary into a program image.  `base` is the address parameter
/// of the decoder, which the image respects: the two invocation modes
/// decode under different ones.
///
/// Fails with `MalformedElf` on a binary that cannot be decoded.
pub fn decode(raw: &[u8], base: u32) -> (res: Result<ProgramImage, PipelineError>)
    ensures
        match res {
            Ok(image) => {
                &&& decoding(raw@, base) == Some(image@)
                &&& within_limit(image@, base)
                &&& word_aligned(image@.memory)
            },
            Err(e) => e == PipelineError::MalformedElf && decoding(raw@, base).is_none(),
        },
{
    if !check_segments(raw) {
        return Err(PipelineError::MalformedElf);
    }
    match decode_elf(raw, base) {
        Ok(elf) => Ok(ProgramImage { elf }),
        Err(_) => Err(PipelineError::MalformedElf),
    }
}

} // verus!
