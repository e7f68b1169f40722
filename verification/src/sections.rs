//! The section table: fixed 40-byte section records and each section's raw
//! bytes, sliced out of the full input buffer at the absolute file offset
//! carried inside the record itself.

use crate::error::{err0, err1, err_in, Context, DecodeError, ErrV, ErrorKind};
use crate::util::{read_u16, read_u32, spec_trimmed_name, spec_u16, spec_u32, Addr32, SectionName};
use vstd::prelude::*;
use vstd::slice::{slice_subrange, slice_to_vec};

verus! {

/// Obsolete; replaced by `IMAGE_SCN_ALIGN_1BYTES`.
pub const IMAGE_SCN_TYPE_NO_PAD: u32 = 0x8;

/// The section contains executable code.
pub const IMAGE_SCN_CNT_CODE: u32 = 0x20;

/// The section contains initialized data.
pub const IMAGE_SCN_CNT_INITIALIZED_DATA: u32 = 0x40;

/// The section contains uninitialized data.
pub const IMAGE_SCN_CNT_UNINITIALIZED_DATA: u32 = 0x80;

/// The section contains comments or other information.
pub const IMAGE_SCN_LNK_INFO: u32 = 0x200;

/// The section will not become part of the image.
pub const IMAGE_SCN_LNK_REMOVE: u32 = 0x800;

/// The section contains COMDAT data.
pub const IMAGE_SCN_LNK_COMDAT: u32 = 0x1000;

/// The section contains data referenced through the global pointer.
pub const IMAGE_SCN_GPREL: u32 = 0x8000;

/// The sub-field of the characteristics holding the alignment code: a 4-bit
/// value at bit 20 encoding the sixteen mutually exclusive alignment values
/// (1 to 8192 bytes) as specific bit patterns, not independent bits.
pub const IMAGE_SCN_ALIGN_FIELD: u32 = 0x00F0_0000;

/// Align data on a 1-byte boundary.
pub const IMAGE_SCN_ALIGN_1BYTES: u32 = 0x0010_0000;

/// Align data on a 2-byte boundary.
pub const IMAGE_SCN_ALIGN_2BYTES: u32 = 0x0020_0000;

/// Align data on a 4-byte boundary.
pub const IMAGE_SCN_ALIGN_4BYTES: u32 = 0x0030_0000;

/// Align data on an 8-byte boundary.
pub const IMAGE_SCN_ALIGN_8BYTES: u32 = 0x0040_0000;

/// Align data on a 16-byte boundary.
pub const IMAGE_SCN_ALIGN_16BYTES: u32 = 0x0050_0000;

/// Align data on a 32-byte boundary.
pub const IMAGE_SCN_ALIGN_32BYTES: u32 = 0x0060_0000;

/// Align data on a 64-byte boundary.
pub const IMAGE_SCN_ALIGN_64BYTES: u32 = 0x0070_0000;

/// Align data on a 128-byte boundary.
pub const IMAGE_SCN_ALIGN_128BYTES: u32 = 0x0080_0000;

/// Align data on a 256-byte boundary.
pub const IMAGE_SCN_ALIGN_256BYTES: u32 = 0x0090_0000;

/// Align data on a 512-byte boundary.
pub const IMAGE_SCN_ALIGN_512BYTES: u32 = 0x00A0_0000;

/// Align data on a 1024-byte boundary.
pub const IMAGE_SCN_ALIGN_1024BYTES: u32 = 0x00B0_0000;

/// Align data on a 2048-byte boundary.
pub const IMAGE_SCN_ALIGN_2048BYTES: u32 = 0x00C0_0000;

/// Align data on a 4096-byte boundary.
pub const IMAGE_SCN_ALIGN_4096BYTES: u32 = 0x00D0_0000;

/// Align data on an 8192-byte boundary.
pub const IMAGE_SCN_ALIGN_8192BYTES: u32 = 0x00E0_0000;

/// The section contains extended relocations.
pub const IMAGE_SCN_LNK_NRELOC_OVFL: u32 = 0x0100_0000;

/// The section can be discarded as needed.
pub const IMAGE_SCN_MEM_DISCARDABLE: u32 = 0x0200_0000;

/// The section cannot be cached.
pub const IMAGE_SCN_MEM_NOT_CACHED: u32 = 0x0400_0000;

/// The section is not pageable.
pub const IMAGE_SCN_MEM_NOT_PAGED: u32 = 0x0800_0000;

/// The section can be shared in memory.
pub const IMAGE_SCN_MEM_SHARED: u32 = 0x1000_0000;

/// The section can be executed as code.
pub const IMAGE_SCN_MEM_EXECUTE: u32 = 0x2000_0000;

/// The section can be read.
pub const IMAGE_SCN_MEM_READ: u32 = 0x4000_0000;

/// The section can be written to.
pub const IMAGE_SCN_MEM_WRITE: u32 = 0x8000_0000;

/// The union of all defined section characteristics bits.
pub const SECTION_CHARACTERISTICS_MASK: u32 = IMAGE_SCN_TYPE_NO_PAD | IMAGE_SCN_CNT_CODE
    | IMAGE_SCN_CNT_INITIALIZED_DATA | IMAGE_SCN_CNT_UNINITIALIZED_DATA | IMAGE_SCN_LNK_INFO
    | IMAGE_SCN_LNK_REMOVE | IMAGE_SCN_LNK_COMDAT | IMAGE_SCN_GPREL | IMAGE_SCN_ALIGN_FIELD
    | IMAGE_SCN_LNK_NRELOC_OVFL | IMAGE_SCN_MEM_DISCARDABLE | IMAGE_SCN_MEM_NOT_CACHED
    | IMAGE_SCN_MEM_NOT_PAGED | IMAGE_SCN_MEM_SHARED | IMAGE_SCN_MEM_EXECUTE | IMAGE_SCN_MEM_READ
    | IMAGE_SCN_MEM_WRITE;

/// Whether `v` is an accepted section characteristics value: no bit outside
/// the defined mask, and the 4-bit alignment sub-field holding one of its
/// defined codes (0, meaning unspecified, through 14, meaning 8192 bytes;
/// the code 15 is not defined).
pub open spec fn section_characteristics_valid(v: u32) -> bool {
    &&& v & !SECTION_CHARACTERISTICS_MASK == 0
    &&& (v >> 20) & 0xF != 0xF
}

/// The decoded section flag set for a bit pattern: the value itself when it
/// is accepted, nothing otherwise.
pub open spec fn spec_section_characteristics(v: u32) -> Option<Characteristics> {
    if section_characteristics_valid(v) {
        Some(Characteristics { bits: v })
    } else {
        None
    }
}

/// Law: an accepted bit pattern (inside the defined mask, with a defined
/// alignment code) decodes and re-encodes to the same pattern; any other
/// pattern is rejected.
pub proof fn lemma_section_characteristics_round_trip(v: u32)
    ensures
        section_characteristics_valid(v) <==> (spec_section_characteristics(v) matches Some(c)
            && c.bits == v),
        !section_characteristics_valid(v) <==> spec_section_characteristics(v) is None,
{
}

/// The 32-bit flag set of a section record: content kind, linker directives,
/// the alignment sub-field, and memory attributes.
#[derive(Clone, Copy, Debug, PartialEq, Eq, Structural)]
pub struct Characteristics {
    pub bits: u32,
}

impl Characteristics {
    /// Validating constructor: rejects any bit outside the defined mask and
    /// the undefined alignment code 15.
    pub fn from_bits(v: u32) -> (r: Option<Characteristics>)
        ensures
            r == spec_section_characteristics(v),
    {
        if v & !SECTION_CHARACTERISTICS_MASK == 0 && (v >> 20) & 0xF != 0xF {
            Some(Characteristics { bits: v })
        } else {
            None
        }
    }

    /// The bit pattern this flag set re-encodes to.
    pub fn bits(self) -> (r: u32)
        ensures
            r == self.bits,
    {
        self.bits
    }

    /// Whether every flag of `other` is set in `self`.
    pub fn contains(self, other: Characteristics) -> (r: bool)
        ensures
            r == (self.bits & other.bits == other.bits),
    {
        self.bits & other.bits == other.bits
    }

    /// The flags set in either operand.
    pub fn union(self, other: Characteristics) -> (r: Characteristics)
        ensures
            r.bits == self.bits | other.bits,
    {
        Characteristics { bits: self.bits | other.bits }
    }

    /// The flags set in both operands.
    pub fn intersection(self, other: Characteristics) -> (r: Characteristics)
        ensures
            r.bits == self.bits & other.bits,
    {
        Characteristics { bits: self.bits & other.bits }
    }

    /// The 4-bit alignment code stored in the flag value.
    pub fn alignment_code(self) -> (r: u32)
        ensures
            r == (self.bits >> 20) & 0xF,
    {
        (self.bits >> 20) & 0xF
    }

    /// Decode the 32-bit little-endian flag value at `pos`.
    pub fn parse(i: &[u8], pos: usize) -> (r: Result<(Characteristics, usize), DecodeError>)
        ensures
            pos + 4 > i@.len() ==> (r matches Err(e) && e@ == err0(
                ErrorKind::Truncated,
                i@.len() as int,
            )),
            pos + 4 <= i@.len() && section_characteristics_valid(spec_u32(i@, pos as int)) ==> (r
                matches Ok(v) && v.0 == (Characteristics { bits: spec_u32(i@, pos as int) }) && v.1
                == pos + 4),
            pos + 4 <= i@.len() && !section_characteristics_valid(spec_u32(i@, pos as int)) ==> (r
                matches Err(e) && e@ == err0(
                ErrorKind::UnrecognizedBits(spec_u32(i@, pos as int) as u64),
                pos as int,
            )),
    {
        if i.len() < 4 || pos > i.len() - 4 {
            return Err(DecodeError::new(ErrorKind::Truncated, i.len()));
        }
        let v = read_u32(i, pos);
        match Characteristics::from_bits(v) {
            Some(c) => Ok((c, pos + 4)),
            None => Err(DecodeError::new(ErrorKind::UnrecognizedBits(v as u64), pos)),
        }
    }
}

/// One decoded section: the fields of its fixed 40-byte record and an owned
/// copy of its raw bytes, sliced from the full input buffer at the absolute
/// file offset the record itself carries.
#[derive(Debug, PartialEq, Eq)]
pub struct SectionHeader {
    /// The 8-byte, null-padded name field, reduced to its displayed form.
    pub name: SectionName,
    /// The total size of the section when loaded into memory.
    pub virtual_size: u32,
    /// The address of the section's first byte relative to the image base.
    pub virtual_address: Addr32,
    /// The size of the section's initialized data on disk.
    pub size_of_raw_data: u32,
    /// The file pointer to the first page of the section within the file.
    pub pointer_to_raw_data: Addr32,
    /// The file pointer to the section's relocation entries.
    pub pointer_to_relocations: Addr32,
    /// Deprecated; must decode as zero.
    pub pointer_to_line_numbers: u32,
    /// The number of relocation entries for the section.
    pub number_of_relocations: u16,
    /// Deprecated; must decode as zero.
    pub number_of_line_numbers: u16,
    /// The flags that describe the characteristics of the section.
    pub characteristics: Characteristics,
    /// The section's raw bytes, copied out of the input buffer.
    pub data: Vec<u8>,
}

/// The mathematical value of a [`SectionHeader`].
#[verifier::ext_equal]
pub struct SectionHeaderV {
    pub name: Seq<char>,
    pub virtual_size: u32,
    pub virtual_address: Addr32,
    pub size_of_raw_data: u32,
    pub pointer_to_raw_data: Addr32,
    pub pointer_to_relocations: Addr32,
    pub pointer_to_line_numbers: u32,
    pub number_of_relocations: u16,
    pub number_of_line_numbers: u16,
    pub characteristics: Characteristics,
    pub data: Seq<u8>,
}

impl View for SectionHeader {
    type V = SectionHeaderV;

    open spec fn view(&self) -> SectionHeaderV {
        SectionHeaderV {
            name: self.name@,
            virtual_size: self.virtual_size,
            virtual_address: self.virtual_address,
            size_of_raw_data: self.size_of_raw_data,
            pointer_to_raw_data: self.pointer_to_raw_data,
            pointer_to_relocations: self.pointer_to_relocations,
            pointer_to_line_numbers: self.pointer_to_line_numbers,
            number_of_relocations: self.number_of_relocations,
            number_of_line_numbers: self.number_of_line_numbers,
            characteristics: self.characteristics,
            data: self.data@,
        }
    }
}

/// Whether the 40-byte section record at `p` decodes against the full buffer
/// `b`: the record must lie within the buffer, its two deprecated
/// line-number fields must be zero, its characteristics must be accepted,
/// and its declared raw-data range must lie within the buffer.
pub open spec fn section_wf(b: Seq<u8>, p: int) -> bool {
    &&& p + 40 <= b.len()
    &&& spec_u32(b, p + 28) == 0
    &&& spec_u16(b, p + 34) == 0
    &&& section_characteristics_valid(spec_u32(b, p + 36))
    &&& spec_u32(b, p + 20) + spec_u32(b, p + 16) <= b.len()
}

/// The failure of a section-record decode at `p`: the fields are consumed
/// in their on-disk order, so the first field that cannot be fully read, the
/// first non-zero deprecated field, an unrecognized flag value, or a raw-data
/// range past the buffer's end names the failure.
pub open spec fn section_err(b: Seq<u8>, p: int) -> ErrV
    recommends
        !section_wf(b, p),
{
    let len = b.len() as int;
    if p + 8 > len {
        err_in(ErrorKind::Truncated, len, Context::Name, p)
    } else if p + 12 > len {
        err_in(ErrorKind::Truncated, len, Context::VirtualSize, p + 8)
    } else if p + 16 > len {
        err_in(ErrorKind::Truncated, len, Context::VirtualAddress, p + 12)
    } else if p + 20 > len {
        err_in(ErrorKind::Truncated, len, Context::SizeOfRawData, p + 16)
    } else if p + 24 > len {
        err_in(ErrorKind::Truncated, len, Context::PointerToRawData, p + 20)
    } else if p + 28 > len {
        err_in(ErrorKind::Truncated, len, Context::PointerToRelocations, p + 24)
    } else if p + 32 > len {
        err_in(ErrorKind::Truncated, len, Context::PointerToLinenumbers, p + 28)
    } else if spec_u32(b, p + 28) != 0 {
        err1(ErrorKind::MalformedReservedField, p + 28, Context::PointerToLinenumbers)
    } else if p + 34 > len {
        err_in(ErrorKind::Truncated, len, Context::NumberOfRelocations, p + 32)
    } else if p + 36 > len {
        err_in(ErrorKind::Truncated, len, Context::NumberOfLinenumbers, p + 34)
    } else if spec_u16(b, p + 34) != 0 {
        err1(ErrorKind::MalformedReservedField, p + 34, Context::NumberOfLinenumbers)
    } else if p + 40 > len {
        err_in(ErrorKind::Truncated, len, Context::Characteristics, p + 36)
    } else if !section_characteristics_valid(spec_u32(b, p + 36)) {
        err1(
            ErrorKind::UnrecognizedBits(spec_u32(b, p + 36) as u64),
            p + 36,
            Context::Characteristics,
        )
    } else {
        err1(ErrorKind::OutOfBounds, p + 20, Context::PointerToRawData)
    }
}

/// Law: a non-zero deprecated line-number file pointer makes the record
/// malformed, and the failure is `MalformedReservedField` reported at the
/// field's own position.
pub proof fn lemma_reserved_line_number_pointer(b: Seq<u8>, p: int)
    requires
        p + 40 <= b.len(),
        spec_u32(b, p + 28) != 0,
    ensures
        !section_wf(b, p),
        section_err(b, p).kind == ErrorKind::MalformedReservedField,
        section_err(b, p).offset == p + 28,
{
}

/// Law: a non-zero deprecated line-number count makes the record malformed,
/// and the failure is `MalformedReservedField` reported at the field's own
/// position.
pub proof fn lemma_reserved_line_number_count(b: Seq<u8>, p: int)
    requires
        p + 40 <= b.len(),
        spec_u32(b, p + 28) == 0,
        spec_u16(b, p + 34) != 0,
    ensures
        !section_wf(b, p),
        section_err(b, p).kind == ErrorKind::MalformedReservedField,
        section_err(b, p).offset == p + 34,
{
}

/// Law: a record whose declared raw-data range runs past the end of the
/// buffer is rejected with `OutOfBounds`; the bytes beyond the buffer are
/// never read.
pub proof fn lemma_section_bounds_checked(b: Seq<u8>, p: int)
    requires
        p + 40 <= b.len(),
        spec_u32(b, p + 28) == 0,
        spec_u16(b, p + 34) == 0,
        section_characteristics_valid(spec_u32(b, p + 36)),
        spec_u32(b, p + 20) + spec_u32(b, p + 16) > b.len(),
    ensures
        !section_wf(b, p),
        section_err(b, p).kind == ErrorKind::OutOfBounds,
{
}

/// The section stored at record position `p` of the full buffer `b`.
pub open spec fn spec_section(b: Seq<u8>, p: int) -> SectionHeaderV
    recommends
        section_wf(b, p),
{
    SectionHeaderV {
        name: spec_trimmed_name(b.subrange(p, p + 8)),
        virtual_size: spec_u32(b, p + 8),
        virtual_address: Addr32(spec_u32(b, p + 12)),
        size_of_raw_data: spec_u32(b, p + 16),
        pointer_to_raw_data: Addr32(spec_u32(b, p + 20)),
        pointer_to_relocations: Addr32(spec_u32(b, p + 24)),
        pointer_to_line_numbers: 0,
        number_of_relocations: spec_u16(b, p + 32),
        number_of_line_numbers: 0,
        characteristics: Characteristics { bits: spec_u32(b, p + 36) },
        data: b.subrange(spec_u32(b, p + 20) as int, spec_u32(b, p + 20) + spec_u32(b, p + 16)),
    }
}

impl SectionHeader {
    /// Decode the fixed 40-byte section record at `pos` and copy out the
    /// section's raw bytes.
    ///
    /// `i` is the full original buffer, not a post-header remainder: the
    /// record's own raw-data pointer is an absolute file offset, and the
    /// declared range is bounds-checked against the whole buffer before any
    /// byte is copied.
    pub fn parse(i: &[u8], pos: usize) -> (r: Result<(SectionHeader, usize), DecodeError>)
        ensures
            section_wf(i@, pos as int) ==> (r matches Ok(v) && v.0@ == spec_section(i@, pos as int)
                && v.1 == pos + 40),
            !section_wf(i@, pos as int) ==> (r matches Err(e) && e@ == section_err(i@, pos as int)),
    {
        if i.len() < 8 || pos > i.len() - 8 {
            return Err(
                DecodeError::with_frame(ErrorKind::Truncated, i.len(), Context::Name, pos),
            );
        }
        let name = SectionName::parse(i, pos);
        if i.len() < 12 || pos > i.len() - 12 {
            return Err(
                DecodeError::with_frame(
                    ErrorKind::Truncated,
                    i.len(),
                    Context::VirtualSize,
                    pos + 8,
                ),
            );
        }
        let virtual_size = read_u32(i, pos + 8);
        if i.len() < 16 || pos > i.len() - 16 {
            return Err(
                DecodeError::with_frame(
                    ErrorKind::Truncated,
                    i.len(),
                    Context::VirtualAddress,
                    pos + 12,
                ),
            );
        }
        let virtual_address = Addr32(read_u32(i, pos + 12));
        if i.len() < 20 || pos > i.len() - 20 {
            return Err(
                DecodeError::with_frame(
                    ErrorKind::Truncated,
                    i.len(),
                    Context::SizeOfRawData,
                    pos + 16,
                ),
            );
        }
        let size_of_raw_data = read_u32(i, pos + 16);
        if i.len() < 24 || pos > i.len() - 24 {
            return Err(
                DecodeError::with_frame(
                    ErrorKind::Truncated,
                    i.len(),
                    Context::PointerToRawData,
                    pos + 20,
                ),
            );
        }
        let raw_start = read_u32(i, pos + 20);
        if i.len() < 28 || pos > i.len() - 28 {
            return Err(
                DecodeError::with_frame(
                    ErrorKind::Truncated,
                    i.len(),
                    Context::PointerToRelocations,
                    pos + 24,
                ),
            );
        }
        let pointer_to_relocations = Addr32(read_u32(i, pos + 24));
        if i.len() < 32 || pos > i.len() - 32 {
            return Err(
                DecodeError::with_frame(
                    ErrorKind::Truncated,
                    i.len(),
                    Context::PointerToLinenumbers,
                    pos + 28,
                ),
            );
        }
        if read_u32(i, pos + 28) != 0 {
            return Err(
                DecodeError::with_context(
                    ErrorKind::MalformedReservedField,
                    pos + 28,
                    Context::PointerToLinenumbers,
                ),
            );
        }
        if i.len() < 34 || pos > i.len() - 34 {
            return Err(
                DecodeError::with_frame(
                    ErrorKind::Truncated,
                    i.len(),
                    Context::NumberOfRelocations,
                    pos + 32,
                ),
            );
        }
        let number_of_relocations = read_u16(i, pos + 32);
        if i.len() < 36 || pos > i.len() - 36 {
            return Err(
                DecodeError::with_frame(
                    ErrorKind::Truncated,
                    i.len(),
                    Context::NumberOfLinenumbers,
                    pos + 34,
                ),
            );
        }
        if read_u16(i, pos + 34) != 0 {
            return Err(
                DecodeError::with_context(
                    ErrorKind::MalformedReservedField,
                    pos + 34,
                    Context::NumberOfLinenumbers,
                ),
            );
        }
        let characteristics = match Characteristics::parse(i, pos + 36) {
            Ok(v) => v.0,
            Err(e) => return Err(e.wrap(Context::Characteristics, pos + 36)),
        };
        if (raw_start as u64) + (size_of_raw_data as u64) > (i.len() as u64) {
            return Err(
                DecodeError::with_context(
                    ErrorKind::OutOfBounds,
                    pos + 20,
                    Context::PointerToRawData,
                ),
            );
        }
        let pointer_to_raw_data = Addr32(raw_start);
        let data = slice_to_vec(
            slice_subrange(i, raw_start as usize, raw_start as usize + size_of_raw_data as usize),
        );
        let r = SectionHeader {
            name,
            virtual_size,
            virtual_address,
            size_of_raw_data,
            pointer_to_raw_data,
            pointer_to_relocations,
            pointer_to_line_numbers: 0,
            number_of_relocations,
            number_of_line_numbers: 0,
            characteristics,
            data,
        };
        proof {
            assert(r@ =~= spec_section(i@, pos as int));
        }
        Ok((r, pos + 40))
    }
}

} // verus!
