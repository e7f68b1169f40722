//! The whole-file decoder: the file header followed by the section table.
//!
//! The section count decoded from the header drives how many 40-byte section
//! records are read, and each record's own raw-data pointer is resolved
//! against the full original buffer.  The decode never partially succeeds:
//! either every section decodes or only the failure is returned.

use crate::error::{err0, Context, DecodeError, ErrV, ErrorKind};
use crate::header::{
    all_zero, characteristics_valid, header_err, header_wf, machine_valid, pe_offset,
    spec_pe_header, windows_fields_wf, PeHeader64, OPTIONAL_HEADER_MAGIC,
};
use crate::sections::{
    section_characteristics_valid, section_err, section_wf, spec_section, SectionHeader,
    SectionHeaderV,
};
use crate::util::{push_char, push_decimal, spec_decimal, spec_u16, spec_u32};
use vstd::prelude::*;

verus! {

/// The position of the section table: the section records follow the file
/// header record (24 bytes of COFF fields behind the signature, then the
/// 240-byte optional header).
pub open spec fn section_table_pos(b: Seq<u8>) -> int
    recommends
        b.len() >= 0x3d,
{
    pe_offset(b) + 264
}

/// The position of the section record with index `k`.
pub open spec fn section_pos(b: Seq<u8>, k: int) -> int
    recommends
        b.len() >= 0x3d,
{
    section_table_pos(b) + 40 * k
}

/// The section count the decoded header declares.
pub open spec fn spec_section_count(b: Seq<u8>) -> u16
    recommends
        b.len() >= 0x3d,
{
    spec_u16(b, pe_offset(b) + 6)
}

/// Whether the whole buffer decodes to a `File`: the header region decodes,
/// and every one of the declared section records decodes with its raw-data
/// range in bounds.
pub open spec fn file_wf(b: Seq<u8>) -> bool {
    &&& header_wf(b)
    &&& forall|k: int|
        0 <= k < spec_section_count(b) ==> section_wf(b, #[trigger] section_pos(b, k))
}

/// The failure of the first section record that does not decode, scanning
/// from index `k` up to `n`.
pub open spec fn sections_err(b: Seq<u8>, k: int, n: int) -> ErrV
    decreases n - k,
{
    if k < n {
        if !section_wf(b, section_pos(b, k)) {
            section_err(b, section_pos(b, k))
        } else {
            sections_err(b, k + 1, n)
        }
    } else {
        err0(ErrorKind::Truncated, b.len() as int)
    }
}

/// The failure of a whole-file decode: a header failure wrapped in the
/// header context, or the failure of the first bad section record.
pub open spec fn file_err(b: Seq<u8>) -> ErrV
    recommends
        !file_wf(b),
{
    if !header_wf(b) {
        header_err(b).wrap(Context::Header, 0)
    } else {
        sections_err(b, 0, spec_section_count(b) as int)
    }
}

/// The decoded form of the whole buffer.
pub open spec fn spec_file(b: Seq<u8>) -> FileV
    recommends
        file_wf(b),
{
    FileV {
        header: spec_pe_header(b, pe_offset(b)),
        sections: Seq::new(
            spec_section_count(b) as nat,
            |k: int| spec_section(b, section_pos(b, k)),
        ),
    }
}

/// When every record before `k` decodes and the record at `k` does not, the
/// scan from the start reports the failure at `k`.
proof fn lemma_sections_err_first_bad(b: Seq<u8>, m: int, k: int, n: int)
    requires
        0 <= m <= k < n,
        forall|j: int| m <= j < k ==> section_wf(b, #[trigger] section_pos(b, j)),
        !section_wf(b, section_pos(b, k)),
    ensures
        sections_err(b, m, n) == section_err(b, section_pos(b, k)),
    decreases k - m,
{
    if m < k {
        lemma_sections_err_first_bad(b, m + 1, k, n);
    }
}

/// Law: decoding is idempotent.  The decoded value is a function of the
/// buffer alone, so any two decodes of the same well-formed buffer are
/// structurally identical.
pub proof fn lemma_decode_idempotent(b: Seq<u8>, f1: FileV, f2: FileV)
    requires
        file_wf(b),
        f1 == spec_file(b),
        f2 == spec_file(b),
    ensures
        f1 == f2,
{
}

/// Law: in a buffer whose header decodes up to the data-directory table, a
/// non-zero byte anywhere in the reserved architecture slot makes the whole
/// decode fail with `MalformedReservedField`, reported at the slot's
/// absolute position in the buffer.
pub proof fn lemma_file_reserved_architecture(b: Seq<u8>)
    requires
        b.len() >= 0x3d,
        pe_offset(b) + 24 <= b.len(),
        b[pe_offset(b)] == 0x50 && b[pe_offset(b) + 1] == 0x45 && b[pe_offset(b) + 2] == 0 && b[
            pe_offset(b) + 3
        ] == 0,
        machine_valid(spec_u16(b, pe_offset(b) + 4)),
        characteristics_valid(spec_u16(b, pe_offset(b) + 22)),
        pe_offset(b) + 24 + 240 <= b.len(),
        spec_u16(b, pe_offset(b) + 24) == OPTIONAL_HEADER_MAGIC,
        windows_fields_wf(b, pe_offset(b) + 48),
        !all_zero(b, pe_offset(b) + 136 + 56, pe_offset(b) + 136 + 64),
    ensures
        !file_wf(b),
        file_err(b).kind == ErrorKind::MalformedReservedField,
        file_err(b).offset == pe_offset(b) + 136 + 56,
{
}

/// Law: in a buffer whose header decodes up to the data-directory table and
/// whose architecture slot is zero, a non-zero byte anywhere in the reserved
/// trailing padding slot makes the whole decode fail with
/// `MalformedReservedField`, reported at the slot's absolute position.
pub proof fn lemma_file_reserved_padding(b: Seq<u8>)
    requires
        b.len() >= 0x3d,
        pe_offset(b) + 24 <= b.len(),
        b[pe_offset(b)] == 0x50 && b[pe_offset(b) + 1] == 0x45 && b[pe_offset(b) + 2] == 0 && b[
            pe_offset(b) + 3
        ] == 0,
        machine_valid(spec_u16(b, pe_offset(b) + 4)),
        characteristics_valid(spec_u16(b, pe_offset(b) + 22)),
        pe_offset(b) + 24 + 240 <= b.len(),
        spec_u16(b, pe_offset(b) + 24) == OPTIONAL_HEADER_MAGIC,
        windows_fields_wf(b, pe_offset(b) + 48),
        all_zero(b, pe_offset(b) + 136 + 56, pe_offset(b) + 136 + 64),
        !all_zero(b, pe_offset(b) + 136 + 120, pe_offset(b) + 136 + 128),
    ensures
        !file_wf(b),
        file_err(b).kind == ErrorKind::MalformedReservedField,
        file_err(b).offset == pe_offset(b) + 136 + 120,
{
}

/// Law: when the header decodes and every section record before index `k`
/// decodes, a non-zero deprecated line-number pointer in record `k` makes
/// the whole decode fail with `MalformedReservedField`, reported at the
/// field's absolute position in the buffer.
pub proof fn lemma_file_reserved_line_number_pointer(b: Seq<u8>, k: int)
    requires
        header_wf(b),
        0 <= k < spec_section_count(b),
        forall|j: int| 0 <= j < k ==> section_wf(b, #[trigger] section_pos(b, j)),
        section_pos(b, k) + 40 <= b.len(),
        spec_u32(b, section_pos(b, k) + 28) != 0,
    ensures
        !file_wf(b),
        file_err(b).kind == ErrorKind::MalformedReservedField,
        file_err(b).offset == section_pos(b, k) + 28,
{
    lemma_sections_err_first_bad(b, 0, k, spec_section_count(b) as int);
}

/// Law: when the header decodes and every section record before index `k`
/// decodes, a non-zero deprecated line-number count in record `k` makes the
/// whole decode fail with `MalformedReservedField`, reported at the field's
/// absolute position in the buffer.
pub proof fn lemma_file_reserved_line_number_count(b: Seq<u8>, k: int)
    requires
        header_wf(b),
        0 <= k < spec_section_count(b),
        forall|j: int| 0 <= j < k ==> section_wf(b, #[trigger] section_pos(b, j)),
        section_pos(b, k) + 40 <= b.len(),
        spec_u32(b, section_pos(b, k) + 28) == 0,
        spec_u16(b, section_pos(b, k) + 34) != 0,
    ensures
        !file_wf(b),
        file_err(b).kind == ErrorKind::MalformedReservedField,
        file_err(b).offset == section_pos(b, k) + 34,
{
    lemma_sections_err_first_bad(b, 0, k, spec_section_count(b) as int);
}

/// Law: when the header decodes and every section record before index `k`
/// decodes, a record at `k` whose declared raw-data range runs past the end
/// of the buffer makes the whole decode fail with `OutOfBounds` instead of
/// reading past the end.
pub proof fn lemma_file_section_out_of_bounds(b: Seq<u8>, k: int)
    requires
        header_wf(b),
        0 <= k < spec_section_count(b),
        forall|j: int| 0 <= j < k ==> section_wf(b, #[trigger] section_pos(b, j)),
        section_pos(b, k) + 40 <= b.len(),
        spec_u32(b, section_pos(b, k) + 28) == 0,
        spec_u16(b, section_pos(b, k) + 34) == 0,
        section_characteristics_valid(spec_u32(b, section_pos(b, k) + 36)),
        spec_u32(b, section_pos(b, k) + 20) + spec_u32(b, section_pos(b, k) + 16) > b.len(),
    ensures
        !file_wf(b),
        file_err(b).kind == ErrorKind::OutOfBounds,
{
    lemma_sections_err_first_bad(b, 0, k, spec_section_count(b) as int);
}

/// An entire decoded PE64 file: the file header and exactly
/// `header.number_of_sections` decoded sections, in file order.
#[derive(Debug, PartialEq, Eq)]
pub struct File {
    pub header: PeHeader64,
    pub sections: Vec<SectionHeader>,
}

/// The mathematical value of a [`File`].
#[verifier::ext_equal]
pub struct FileV {
    pub header: PeHeader64,
    pub sections: Seq<SectionHeaderV>,
}

impl View for File {
    type V = FileV;

    open spec fn view(&self) -> FileV {
        FileV {
            header: self.header,
            sections: self.sections@.map_values(|s: SectionHeader| s@),
        }
    }
}

impl File {
    /// Decode an entire PE64 file from a byte buffer.
    ///
    /// Succeeds exactly when the whole buffer is well-formed, returning the
    /// decoded value; otherwise returns the positioned, context-chained
    /// failure.  No partial result is ever exposed: a partially decoded
    /// header could not be trusted to drive the section-table decode.
    pub fn parse(i: &[u8]) -> (r: Result<File, DecodeError>)
        ensures
            r is Ok <==> file_wf(i@),
            r matches Ok(f) ==> f@ == spec_file(i@),
            r matches Err(e) ==> e@ == file_err(i@),
    {
        let (header, table) = match PeHeader64::parse(i) {
            Ok(v) => v,
            Err(e) => return Err(e.wrap(Context::Header, 0)),
        };
        let count = header.number_of_sections() as usize;
        let mut sections: Vec<SectionHeader> = Vec::new();
        let mut k: usize = 0;
        while k < count
            invariant
                header_wf(i@),
                header == spec_pe_header(i@, pe_offset(i@)),
                table == pe_offset(i@) + 264,
                table <= 519,
                count == spec_section_count(i@),
                count <= 0xffff,
                k <= count,
                sections@.len() == k,
                forall|j: int| 0 <= j < k ==> section_wf(i@, #[trigger] section_pos(i@, j)),
                forall|j: int|
                    0 <= j < k ==> (#[trigger] sections@[j])@ == spec_section(
                        i@,
                        section_pos(i@, j),
                    ),
            decreases count - k,
        {
            let pos = table + 40 * k;
            let section = match SectionHeader::parse(i, pos) {
                Ok(v) => v.0,
                Err(e) => {
                    proof {
                        lemma_sections_err_first_bad(i@, 0, k as int, count as int);
                    }
                    return Err(e);
                },
            };
            sections.push(section);
            k = k + 1;
        }
        let r = File { header, sections };
        proof {
            assert(r@.sections =~= spec_file(i@).sections);
            assert(r@ =~= spec_file(i@));
        }
        Ok(r)
    }
}

/// A dotted version pair, e.g. the linker or subsystem version, rendered as
/// decimal `major.minor`.
pub fn display_version(major: u16, minor: u16) -> (r: String)
    ensures
        r@ == spec_decimal(major as int) + seq!['.'] + spec_decimal(minor as int),
{
    let mut r = String::new();
    push_decimal(&mut r, major);
    push_char(&mut r, '.');
    push_decimal(&mut r, minor);
    proof {
        assert(r@ =~= spec_decimal(major as int) + seq!['.'] + spec_decimal(minor as int));
    }
    r
}

} // verus!


