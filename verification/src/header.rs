//! The COFF file header and the 64-bit optional header.
//!
//! The file header is located through the one-byte offset stored at byte
//! 0x3C of the buffer (a documented, intentional limitation: the full PE
//! format stores a 32-bit offset there, so only header offsets up to 255 are
//! supported).  It is gated by the 4-byte signature `PE\0\0` and embeds the
//! optional header, which is gated by the 2-byte magic `0x020B` identifying
//! the 64-bit layout and embeds the data-directory table.

use crate::error::{err0, err1, err_in, Context, DecodeError, ErrV, ErrorKind};
use crate::util::{read_u16, read_u32, read_u64, spec_u16, spec_u32, spec_u64, Addr32};
use vstd::prelude::*;

verus! {

/// CPU architecture codes: a closed enumeration.  Any other 16-bit value is
/// rejected with `UnrecognizedCode`.
#[derive(Clone, Copy, Debug, PartialEq, Eq, Structural)]
pub enum Machine {
    /// Code 0: unknown or any machine.
    Unknown,
    /// Code 0x8664: x86-64.
    AMD64,
    /// Code 0x200: Itanium.
    IA64,
    /// Code 0x14C: Intel 386 or later.
    I386,
}

/// Whether `v` is one of the defined machine codes.
pub open spec fn machine_valid(v: u16) -> bool {
    v == 0 || v == 0x8664 || v == 0x200 || v == 0x14C
}

/// The machine variant encoded by a defined code.
pub open spec fn spec_machine(v: u16) -> Machine
    recommends
        machine_valid(v),
{
    if v == 0 {
        Machine::Unknown
    } else if v == 0x8664 {
        Machine::AMD64
    } else if v == 0x200 {
        Machine::IA64
    } else {
        Machine::I386
    }
}

impl Machine {
    /// Map a 16-bit code to its variant; unrecognized codes are handed back
    /// as the error.
    pub fn try_from(v: u16) -> (r: Result<Machine, u16>)
        ensures
            machine_valid(v) ==> r == Ok::<Machine, u16>(spec_machine(v)),
            !machine_valid(v) ==> r == Err::<Machine, u16>(v),
    {
        match v {
            0 => Ok(Machine::Unknown),
            0x8664 => Ok(Machine::AMD64),
            0x200 => Ok(Machine::IA64),
            0x14C => Ok(Machine::I386),
            _ => Err(v),
        }
    }

    /// The 16-bit code of this variant.
    pub fn code(self) -> (r: u16)
        ensures
            machine_valid(r),
            spec_machine(r) == self,
    {
        match self {
            Machine::Unknown => 0,
            Machine::AMD64 => 0x8664,
            Machine::IA64 => 0x200,
            Machine::I386 => 0x14C,
        }
    }

    /// Decode the 16-bit little-endian machine code at `pos`.
    pub fn parse(i: &[u8], pos: usize) -> (r: Result<(Machine, usize), DecodeError>)
        ensures
            pos + 2 > i@.len() ==> (r matches Err(e) && e@ == err0(
                ErrorKind::Truncated,
                i@.len() as int,
            )),
            pos + 2 <= i@.len() && machine_valid(spec_u16(i@, pos as int)) ==> (r matches Ok(v)
                && v.0 == spec_machine(spec_u16(i@, pos as int)) && v.1 == pos + 2),
            pos + 2 <= i@.len() && !machine_valid(spec_u16(i@, pos as int)) ==> (r matches Err(e)
                && e@ == err0(
                ErrorKind::UnrecognizedCode(spec_u16(i@, pos as int) as u64),
                pos as int,
            )),
    {
        if i.len() < 2 || pos > i.len() - 2 {
            return Err(DecodeError::new(ErrorKind::Truncated, i.len()));
        }
        let v = read_u16(i, pos);
        match Machine::try_from(v) {
            Ok(m) => Ok((m, pos + 2)),
            Err(code) => Err(
                DecodeError::new(ErrorKind::UnrecognizedCode(code as u64), pos),
            ),
        }
    }
}

/// Required-environment codes: a closed enumeration.  Any other 16-bit value
/// is rejected with `UnrecognizedCode`.
#[derive(Clone, Copy, Debug, PartialEq, Eq, Structural)]
pub enum Subsystem {
    /// Code 0.
    Unknown,
    /// Code 1: device drivers and native Windows processes.
    Native,
    /// Code 2: the Windows GUI subsystem.
    WindowsGui,
    /// Code 3: the Windows character subsystem.
    WindowsCui,
    /// Code 5: the OS/2 character subsystem.
    Os2Cui,
    /// Code 7: the POSIX character subsystem.
    PosixCui,
    /// Code 8: a native Win9x driver.
    NativeWindows,
    /// Code 9: Windows CE.
    WindowsCeGui,
    /// Code 10: an EFI application.
    EfiApplication,
    /// Code 11: an EFI driver with boot services.
    EfiBootServiceDriver,
    /// Code 12: an EFI driver with runtime services.
    EfiRuntimeDriver,
    /// Code 13: an EFI ROM image.
    EfiRom,
    /// Code 14: Xbox.
    Xbox,
    /// Code 16: a Windows boot application.
    WindowsBootApplication,
}

/// Whether `v` is one of the defined subsystem codes.
pub open spec fn subsystem_valid(v: u16) -> bool {
    (0 <= v <= 3 || 7 <= v <= 14 || v == 5 || v == 16)
}

/// The subsystem variant encoded by a defined code.
pub open spec fn spec_subsystem(v: u16) -> Subsystem
    recommends
        subsystem_valid(v),
{
    if v == 0 {
        Subsystem::Unknown
    } else if v == 1 {
        Subsystem::Native
    } else if v == 2 {
        Subsystem::WindowsGui
    } else if v == 3 {
        Subsystem::WindowsCui
    } else if v == 5 {
        Subsystem::Os2Cui
    } else if v == 7 {
        Subsystem::PosixCui
    } else if v == 8 {
        Subsystem::NativeWindows
    } else if v == 9 {
        Subsystem::WindowsCeGui
    } else if v == 10 {
        Subsystem::EfiApplication
    } else if v == 11 {
        Subsystem::EfiBootServiceDriver
    } else if v == 12 {
        Subsystem::EfiRuntimeDriver
    } else if v == 13 {
        Subsystem::EfiRom
    } else if v == 14 {
        Subsystem::Xbox
    } else {
        Subsystem::WindowsBootApplication
    }
}

impl Subsystem {
    /// Map a 16-bit code to its variant; unrecognized codes are handed back
    /// as the error.
    pub fn try_from(v: u16) -> (r: Result<Subsystem, u16>)
        ensures
            subsystem_valid(v) ==> r == Ok::<Subsystem, u16>(spec_subsystem(v)),
            !subsystem_valid(v) ==> r == Err::<Subsystem, u16>(v),
    {
        match v {
            0 => Ok(Subsystem::Unknown),
            1 => Ok(Subsystem::Native),
            2 => Ok(Subsystem::WindowsGui),
            3 => Ok(Subsystem::WindowsCui),
            5 => Ok(Subsystem::Os2Cui),
            7 => Ok(Subsystem::PosixCui),
            8 => Ok(Subsystem::NativeWindows),
            9 => Ok(Subsystem::WindowsCeGui),
            10 => Ok(Subsystem::EfiApplication),
            11 => Ok(Subsystem::EfiBootServiceDriver),
            12 => Ok(Subsystem::EfiRuntimeDriver),
            13 => Ok(Subsystem::EfiRom),
            14 => Ok(Subsystem::Xbox),
            16 => Ok(Subsystem::WindowsBootApplication),
            _ => Err(v),
        }
    }

    /// The 16-bit code of this variant.
    pub fn code(self) -> (r: u16)
        ensures
            subsystem_valid(r),
            spec_subsystem(r) == self,
    {
        match self {
            Subsystem::Unknown => 0,
            Subsystem::Native => 1,
            Subsystem::WindowsGui => 2,
            Subsystem::WindowsCui => 3,
            Subsystem::Os2Cui => 5,
            Subsystem::PosixCui => 7,
            Subsystem::NativeWindows => 8,
            Subsystem::WindowsCeGui => 9,
            Subsystem::EfiApplication => 10,
            Subsystem::EfiBootServiceDriver => 11,
            Subsystem::EfiRuntimeDriver => 12,
            Subsystem::EfiRom => 13,
            Subsystem::Xbox => 14,
            Subsystem::WindowsBootApplication => 16,
        }
    }

    /// Decode the 16-bit little-endian subsystem code at `pos`.
    pub fn parse(i: &[u8], pos: usize) -> (r: Result<(Subsystem, usize), DecodeError>)
        ensures
            pos + 2 > i@.len() ==> (r matches Err(e) && e@ == err0(
                ErrorKind::Truncated,
                i@.len() as int,
            )),
            pos + 2 <= i@.len() && subsystem_valid(spec_u16(i@, pos as int)) ==> (r matches Ok(v)
                && v.0 == spec_subsystem(spec_u16(i@, pos as int)) && v.1 == pos + 2),
            pos + 2 <= i@.len() && !subsystem_valid(spec_u16(i@, pos as int)) ==> (r matches Err(e)
                && e@ == err0(
                ErrorKind::UnrecognizedCode(spec_u16(i@, pos as int) as u64),
                pos as int,
            )),
    {
        if i.len() < 2 || pos > i.len() - 2 {
            return Err(DecodeError::new(ErrorKind::Truncated, i.len()));
        }
        let v = read_u16(i, pos);
        match Subsystem::try_from(v) {
            Ok(s) => Ok((s, pos + 2)),
            Err(code) => Err(
                DecodeError::new(ErrorKind::UnrecognizedCode(code as u64), pos),
            ),
        }
    }
}

/// The file does not contain base relocations.
pub const IMAGE_FILE_RELOCS_STRIPPED: u16 = 0x0001;

/// The image file is valid and can be run.
pub const IMAGE_FILE_EXECUTABLE_IMAGE: u16 = 0x0002;

/// COFF line numbers have been removed (deprecated, should be zero).
pub const IMAGE_FILE_LINE_NUMS_STRIPPED: u16 = 0x0004;

/// COFF local symbols have been removed (deprecated, should be zero).
pub const IMAGE_FILE_LOCAL_SYMS_STRIPPED: u16 = 0x0008;

/// Aggressively trim the working set (obsolete, must be zero on modern
/// Windows).
pub const IMAGE_FILE_AGGRESSIVE_WS_TRIM: u16 = 0x0010;

/// The application can handle addresses beyond 2 GB.
pub const IMAGE_FILE_LARGE_ADDRESS_AWARE: u16 = 0x0020;

/// Little endian (deprecated, should be zero).
pub const IMAGE_FILE_BYTES_REVERSED_LO: u16 = 0x0080;

/// The machine is based on a 32-bit-word architecture.
pub const IMAGE_FILE_32BIT_MACHINE: u16 = 0x0100;

/// Debugging information is removed from the image file.
pub const IMAGE_FILE_DEBUG_STRIPPED: u16 = 0x0200;

/// If the image is on removable media, fully load and copy it to swap.
pub const IMAGE_FILE_REMOVABLE_RUN_FROM_SWAP: u16 = 0x0400;

/// If the image is on network media, fully load and copy it to swap.
pub const IMAGE_FILE_NET_RUN_FROM_SWAP: u16 = 0x0800;

/// The image file is a system file, not a user program.
pub const IMAGE_FILE_SYSTEM: u16 = 0x1000;

/// The image file is a dynamic-link library.
pub const IMAGE_FILE_DLL: u16 = 0x2000;

/// The file should be run only on a uniprocessor machine.
pub const IMAGE_FILE_UP_SYSTEM_ONLY: u16 = 0x4000;

/// Big endian (deprecated, should be zero).
pub const IMAGE_FILE_BYTES_REVERSED_HI: u16 = 0x8000;

/// The union of all defined file characteristics flags.
pub const CHARACTERISTICS_MASK: u16 = IMAGE_FILE_RELOCS_STRIPPED | IMAGE_FILE_EXECUTABLE_IMAGE
    | IMAGE_FILE_LINE_NUMS_STRIPPED | IMAGE_FILE_LOCAL_SYMS_STRIPPED
    | IMAGE_FILE_AGGRESSIVE_WS_TRIM | IMAGE_FILE_LARGE_ADDRESS_AWARE
    | IMAGE_FILE_BYTES_REVERSED_LO | IMAGE_FILE_32BIT_MACHINE | IMAGE_FILE_DEBUG_STRIPPED
    | IMAGE_FILE_REMOVABLE_RUN_FROM_SWAP | IMAGE_FILE_NET_RUN_FROM_SWAP | IMAGE_FILE_SYSTEM
    | IMAGE_FILE_DLL | IMAGE_FILE_UP_SYSTEM_ONLY | IMAGE_FILE_BYTES_REVERSED_HI;

/// Whether `v` has no bits outside the defined file characteristics flags.
pub open spec fn characteristics_valid(v: u16) -> bool {
    v & !CHARACTERISTICS_MASK == 0
}

/// The decoded flag set for a bit pattern: the value itself when every set
/// bit belongs to a defined flag (the empty set is valid), nothing otherwise.
pub open spec fn spec_characteristics(v: u16) -> Option<Characteristics> {
    if characteristics_valid(v) {
        Some(Characteristics { bits: v })
    } else {
        None
    }
}

/// Law: a bit pattern inside the defined mask decodes and re-encodes to the
/// same pattern; a pattern with at least one bit outside the mask is
/// rejected.
pub proof fn lemma_characteristics_round_trip(v: u16)
    ensures
        characteristics_valid(v) <==> (spec_characteristics(v) matches Some(c) && c.bits == v),
        !characteristics_valid(v) <==> spec_characteristics(v) is None,
{
}

/// The 16-bit flag set of the COFF file header.  A value is accepted only if
/// every set bit belongs to a defined flag; the empty set is valid.
#[derive(Clone, Copy, Debug, PartialEq, Eq, Structural)]
pub struct Characteristics {
    pub bits: u16,
}

impl Characteristics {
    /// Validating constructor: rejects any bit pattern with a bit outside
    /// the defined mask.
    pub fn from_bits(v: u16) -> (r: Option<Characteristics>)
        ensures
            r == spec_characteristics(v),
    {
        if v & !CHARACTERISTICS_MASK == 0 {
            Some(Characteristics { bits: v })
        } else {
            None
        }
    }

    /// The bit pattern this flag set re-encodes to.
    pub fn bits(self) -> (r: u16)
        ensures
            r == self.bits,
    {
        self.bits
    }

    /// Whether every flag of `other` is set in `self`.
    pub fn contains(self, other: Characteristics) -> (r: bool)
        ensures
            r == (self.bits & other.bits == other.bits),
    {
        self.bits & other.bits == other.bits
    }

    /// The flags set in either operand.
    pub fn union(self, other: Characteristics) -> (r: Characteristics)
        ensures
            r.bits == self.bits | other.bits,
    {
        Characteristics { bits: self.bits | other.bits }
    }

    /// The flags set in both operands.
    pub fn intersection(self, other: Characteristics) -> (r: Characteristics)
        ensures
            r.bits == self.bits & other.bits,
    {
        Characteristics { bits: self.bits & other.bits }
    }

    /// Whether no flag is set.
    pub fn is_empty(self) -> (r: bool)
        ensures
            r == (self.bits == 0),
    {
        self.bits == 0
    }

    /// Decode the 16-bit little-endian flag value at `pos`.
    pub fn parse(i: &[u8], pos: usize) -> (r: Result<(Characteristics, usize), DecodeError>)
        ensures
            pos + 2 > i@.len() ==> (r matches Err(e) && e@ == err0(
                ErrorKind::Truncated,
                i@.len() as int,
            )),
            pos + 2 <= i@.len() && characteristics_valid(spec_u16(i@, pos as int)) ==> (r matches
                Ok(v) && v.0 == (Characteristics { bits: spec_u16(i@, pos as int) }) && v.1 == pos
                + 2),
            pos + 2 <= i@.len() && !characteristics_valid(spec_u16(i@, pos as int)) ==> (r matches
                Err(e) && e@ == err0(
                ErrorKind::UnrecognizedBits(spec_u16(i@, pos as int) as u64),
                pos as int,
            )),
    {
        if i.len() < 2 || pos > i.len() - 2 {
            return Err(DecodeError::new(ErrorKind::Truncated, i.len()));
        }
        let v = read_u16(i, pos);
        match Characteristics::from_bits(v) {
            Some(c) => Ok((c, pos + 2)),
            None => Err(DecodeError::new(ErrorKind::UnrecognizedBits(v as u64), pos)),
        }
    }
}

/// The image can handle a high-entropy 64-bit virtual address space.
pub const IMAGE_DLLCHARACTERISTICS_HIGH_ENTROPY_VA: u16 = 0x0020;

/// The DLL can be relocated at load time.
pub const IMAGE_DLLCHARACTERISTICS_DYNAMIC_BASE: u16 = 0x0040;

/// Code integrity checks are enforced.
pub const IMAGE_DLLCHARACTERISTICS_FORCE_INTEGRITY: u16 = 0x0080;

/// The image is NX compatible.
pub const IMAGE_DLLCHARACTERISTICS_NX_COMPAT: u16 = 0x0100;

/// Isolation aware, but do not isolate the image.
pub const IMAGE_DLLCHARACTERISTICS_NO_ISOLATION: u16 = 0x0200;

/// The image does not use structured exception handling.
pub const IMAGE_DLLCHARACTERISTICS_NO_SEH: u16 = 0x0400;

/// Do not bind the image.
pub const IMAGE_DLLCHARACTERISTICS_NO_BIND: u16 = 0x0800;

/// The image must execute in an AppContainer.
pub const IMAGE_DLLCHARACTERISTICS_APPCONTAINER: u16 = 0x1000;

/// A WDM driver.
pub const IMAGE_DLLCHARACTERISTICS_WDM_DRIVER: u16 = 0x2000;

/// The image supports Control Flow Guard.
pub const IMAGE_DLLCHARACTERISTICS_GUARD_CF: u16 = 0x4000;

/// Terminal Server aware.
pub const IMAGE_DLLCHARACTERISTICS_TERMINAL_SERVER_AWARE: u16 = 0x8000;

/// The union of all defined DLL characteristics flags.
pub const DLL_CHARACTERISTICS_MASK: u16 = IMAGE_DLLCHARACTERISTICS_HIGH_ENTROPY_VA
    | IMAGE_DLLCHARACTERISTICS_DYNAMIC_BASE | IMAGE_DLLCHARACTERISTICS_FORCE_INTEGRITY
    | IMAGE_DLLCHARACTERISTICS_NX_COMPAT | IMAGE_DLLCHARACTERISTICS_NO_ISOLATION
    | IMAGE_DLLCHARACTERISTICS_NO_SEH | IMAGE_DLLCHARACTERISTICS_NO_BIND
    | IMAGE_DLLCHARACTERISTICS_APPCONTAINER | IMAGE_DLLCHARACTERISTICS_WDM_DRIVER
    | IMAGE_DLLCHARACTERISTICS_GUARD_CF | IMAGE_DLLCHARACTERISTICS_TERMINAL_SERVER_AWARE;

/// Whether `v` has no bits outside the defined DLL characteristics flags.
pub open spec fn dll_characteristics_valid(v: u16) -> bool {
    v & !DLL_CHARACTERISTICS_MASK == 0
}

/// The decoded DLL flag set for a bit pattern: the value itself when every
/// set bit belongs to a defined flag, nothing otherwise.
pub open spec fn spec_dll_characteristics(v: u16) -> Option<DllCharacteristics> {
    if dll_characteristics_valid(v) {
        Some(DllCharacteristics { bits: v })
    } else {
        None
    }
}

/// Law: a bit pattern inside the defined mask decodes and re-encodes to the
/// same pattern; a pattern with at least one bit outside the mask is
/// rejected.
pub proof fn lemma_dll_characteristics_round_trip(v: u16)
    ensures
        dll_characteristics_valid(v) <==> (spec_dll_characteristics(v) matches Some(c) && c.bits
            == v),
        !dll_characteristics_valid(v) <==> spec_dll_characteristics(v) is None,
{
}

/// The 16-bit DLL characteristics flag set of the Windows-specific fields.
/// A value is accepted only if every set bit belongs to a defined flag.
#[derive(Clone, Copy, Debug, PartialEq, Eq, Structural)]
pub struct DllCharacteristics {
    pub bits: u16,
}

impl DllCharacteristics {
    /// Validating constructor: rejects any bit pattern with a bit outside
    /// the defined mask.
    pub fn from_bits(v: u16) -> (r: Option<DllCharacteristics>)
        ensures
            r == spec_dll_characteristics(v),
    {
        if v & !DLL_CHARACTERISTICS_MASK == 0 {
            Some(DllCharacteristics { bits: v })
        } else {
            None
        }
    }

    /// The bit pattern this flag set re-encodes to.
    pub fn bits(self) -> (r: u16)
        ensures
            r == self.bits,
    {
        self.bits
    }

    /// Whether every flag of `other` is set in `self`.
    pub fn contains(self, other: DllCharacteristics) -> (r: bool)
        ensures
            r == (self.bits & other.bits == other.bits),
    {
        self.bits & other.bits == other.bits
    }

    /// The flags set in either operand.
    pub fn union(self, other: DllCharacteristics) -> (r: DllCharacteristics)
        ensures
            r.bits == self.bits | other.bits,
    {
        DllCharacteristics { bits: self.bits | other.bits }
    }

    /// The flags set in both operands.
    pub fn intersection(self, other: DllCharacteristics) -> (r: DllCharacteristics)
        ensures
            r.bits == self.bits & other.bits,
    {
        DllCharacteristics { bits: self.bits & other.bits }
    }

    /// Whether no flag is set.
    pub fn is_empty(self) -> (r: bool)
        ensures
            r == (self.bits == 0),
    {
        self.bits == 0
    }

    /// Decode the 16-bit little-endian flag value at `pos`.
    pub fn parse(i: &[u8], pos: usize) -> (r: Result<(DllCharacteristics, usize), DecodeError>)
        ensures
            pos + 2 > i@.len() ==> (r matches Err(e) && e@ == err0(
                ErrorKind::Truncated,
                i@.len() as int,
            )),
            pos + 2 <= i@.len() && dll_characteristics_valid(spec_u16(i@, pos as int)) ==> (r
                matches Ok(v) && v.0 == (DllCharacteristics { bits: spec_u16(i@, pos as int) })
                && v.1 == pos + 2),
            pos + 2 <= i@.len() && !dll_characteristics_valid(spec_u16(i@, pos as int)) ==> (r
                matches Err(e) && e@ == err0(
                ErrorKind::UnrecognizedBits(spec_u16(i@, pos as int) as u64),
                pos as int,
            )),
    {
        if i.len() < 2 || pos > i.len() - 2 {
            return Err(DecodeError::new(ErrorKind::Truncated, i.len()));
        }
        let v = read_u16(i, pos);
        match DllCharacteristics::from_bits(v) {
            Some(c) => Ok((c, pos + 2)),
            None => Err(DecodeError::new(ErrorKind::UnrecognizedBits(v as u64), pos)),
        }
    }
}

/// Whether every byte of `b` in `[lo, hi)` is zero.
pub open spec fn all_zero(b: Seq<u8>, lo: int, hi: int) -> bool {
    forall|j: int| lo <= j < hi ==> b[j] == 0
}

/// Whether the 8 bytes at `pos` are all zero.
fn check_zero8(i: &[u8], pos: usize) -> (r: bool)
    requires
        pos + 8 <= i@.len(),
    ensures
        r == all_zero(i@, pos as int, pos + 8),
{
    let v = read_u64(i, pos);
    proof {
        let b = i@;
        let p = pos as int;
        if all_zero(b, p, p + 8) {
            assert(spec_u64(b, p) == 0);
        }
        if spec_u64(b, p) == 0 {
            assert forall|j: int| p <= j < p + 8 implies b[j] == 0 by {
                assert(b[p] + b[p + 1] * 0x100 + b[p + 2] * 0x1_0000 + b[p + 3] * 0x100_0000
                    + b[p + 4] * 0x1_0000_0000 + b[p + 5] * 0x100_0000_0000
                    + b[p + 6] * 0x1_0000_0000_0000 + b[p + 7] * 0x100_0000_0000_0000 == 0);
            }
        }
    }
    v == 0
}

/// One data-directory slot: the relative virtual address and the size of an
/// optional embedded table.  Both fields zero conventionally means the table
/// is absent; the decoder does not special-case this.
#[derive(Clone, Copy, Debug, PartialEq, Eq, Structural)]
pub struct DataDirectory {
    pub virtual_addr: Addr32,
    pub size: u32,
}

/// The data-directory entry stored at position `p`.
pub open spec fn spec_data_directory(b: Seq<u8>, p: int) -> DataDirectory
    recommends
        0 <= p,
        p + 8 <= b.len(),
{
    DataDirectory { virtual_addr: Addr32(spec_u32(b, p)), size: spec_u32(b, p + 4) }
}

impl DataDirectory {
    /// Decode one (virtual address, size) pair at `pos`.
    pub fn parse(i: &[u8], pos: usize) -> (r: Result<(DataDirectory, usize), DecodeError>)
        ensures
            pos + 8 <= i@.len() ==> (r matches Ok(v) && v.0 == spec_data_directory(
                i@,
                pos as int,
            ) && v.1 == pos + 8),
            pos + 8 > i@.len() ==> (r matches Err(e) && e@ == err0(
                ErrorKind::Truncated,
                i@.len() as int,
            )),
    {
        if i.len() < 8 || pos > i.len() - 8 {
            return Err(DecodeError::new(ErrorKind::Truncated, i.len()));
        }
        let virtual_addr = Addr32(read_u32(i, pos));
        let size = read_u32(i, pos + 4);
        Ok((DataDirectory { virtual_addr, size }, pos + 8))
    }
}

/// The fixed 128-byte data-directory table: 14 named (address, size) slots
/// interleaved with two reserved 8-byte spans (the architecture slot and the
/// trailing padding slot) that must decode as all-zero.
#[derive(Clone, Copy, Debug, PartialEq, Eq, Structural)]
pub struct DataDirectories {
    /// `.edata` - the export table address and size.
    pub export_table: DataDirectory,
    /// `.idata` - the import table address and size.
    pub import_table: DataDirectory,
    /// `.rsrc` - the resource table address and size.
    pub resource_table: DataDirectory,
    /// `.pdata` - the exception table address and size.
    pub exception_table: DataDirectory,
    /// The certificate table address and size.
    pub certificate_table: DataDirectory,
    /// `.reloc` - the base relocation table address and size.
    pub base_relocation_table: DataDirectory,
    /// `.debug` - the debug data starting address and size.
    pub debug_data: DataDirectory,
    /// The RVA of the value to be stored in the global pointer register.
    pub global_ptr: DataDirectory,
    /// `.tls` - the thread local storage table address and size.
    pub tls_table: DataDirectory,
    /// The load configuration table address and size.
    pub load_config_table: DataDirectory,
    /// The bound import table address and size.
    pub bound_import: DataDirectory,
    /// The import address table and size.
    pub iat: DataDirectory,
    /// The delay import descriptor address and size.
    pub delay_import_descriptor: DataDirectory,
    /// `.cormeta` - the CLR runtime header address and size.
    pub clr_runtime_header: DataDirectory,
}

/// Whether the 128-byte data-directory table at `p` decodes: the table must
/// lie within the buffer and both reserved spans must be all-zero.
pub open spec fn data_directories_wf(b: Seq<u8>, p: int) -> bool {
    &&& p + 128 <= b.len()
    &&& all_zero(b, p + 56, p + 64)
    &&& all_zero(b, p + 120, p + 128)
}

/// The failure of a data-directory table decode at `p`: the slots are
/// consumed in their on-disk order, so the first slot that cannot be fully
/// read, or the first reserved span found non-zero, names the failure.
pub open spec fn data_directories_err(b: Seq<u8>, p: int) -> ErrV
    recommends
        !data_directories_wf(b, p),
{
    let len = b.len() as int;
    if p + 8 > len {
        err_in(ErrorKind::Truncated, len, Context::ExportTable, p)
    } else if p + 16 > len {
        err_in(ErrorKind::Truncated, len, Context::ImportTable, p + 8)
    } else if p + 24 > len {
        err_in(ErrorKind::Truncated, len, Context::ResourceTable, p + 16)
    } else if p + 32 > len {
        err_in(ErrorKind::Truncated, len, Context::ExceptionTable, p + 24)
    } else if p + 40 > len {
        err_in(ErrorKind::Truncated, len, Context::CertificateTable, p + 32)
    } else if p + 48 > len {
        err_in(ErrorKind::Truncated, len, Context::BaseRelocationTable, p + 40)
    } else if p + 56 > len {
        err_in(ErrorKind::Truncated, len, Context::DebugData, p + 48)
    } else if p + 64 > len {
        err_in(ErrorKind::Truncated, len, Context::Architecture, p + 56)
    } else if !all_zero(b, p + 56, p + 64) {
        err1(ErrorKind::MalformedReservedField, p + 56, Context::Architecture)
    } else if p + 72 > len {
        err_in(ErrorKind::Truncated, len, Context::GlobalPtr, p + 64)
    } else if p + 80 > len {
        err_in(ErrorKind::Truncated, len, Context::TlsTable, p + 72)
    } else if p + 88 > len {
        err_in(ErrorKind::Truncated, len, Context::LoadConfigTable, p + 80)
    } else if p + 96 > len {
        err_in(ErrorKind::Truncated, len, Context::BoundImport, p + 88)
    } else if p + 104 > len {
        err_in(ErrorKind::Truncated, len, Context::Iat, p + 96)
    } else if p + 112 > len {
        err_in(ErrorKind::Truncated, len, Context::DelayImportDescriptor, p + 104)
    } else if p + 120 > len {
        err_in(ErrorKind::Truncated, len, Context::ClrRuntimeHeader, p + 112)
    } else if p + 128 > len {
        err_in(ErrorKind::Truncated, len, Context::Padding, p + 120)
    } else {
        err1(ErrorKind::MalformedReservedField, p + 120, Context::Padding)
    }
}

/// Law: a non-zero byte anywhere in the reserved architecture slot makes the
/// table malformed, and the failure is `MalformedReservedField` reported at
/// the slot's own position.
pub proof fn lemma_reserved_architecture_slot(b: Seq<u8>, p: int)
    requires
        p + 128 <= b.len(),
        !all_zero(b, p + 56, p + 64),
    ensures
        !data_directories_wf(b, p),
        data_directories_err(b, p).kind == ErrorKind::MalformedReservedField,
        data_directories_err(b, p).offset == p + 56,
{
}

/// Law: a non-zero byte anywhere in the reserved trailing padding slot makes
/// the table malformed, and the failure is `MalformedReservedField` reported
/// at the slot's own position.
pub proof fn lemma_reserved_padding_slot(b: Seq<u8>, p: int)
    requires
        p + 128 <= b.len(),
        all_zero(b, p + 56, p + 64),
        !all_zero(b, p + 120, p + 128),
    ensures
        !data_directories_wf(b, p),
        data_directories_err(b, p).kind == ErrorKind::MalformedReservedField,
        data_directories_err(b, p).offset == p + 120,
{
}

/// The data-directory table stored at position `p`.
pub open spec fn spec_data_directories(b: Seq<u8>, p: int) -> DataDirectories
    recommends
        0 <= p,
        p + 128 <= b.len(),
{
    DataDirectories {
        export_table: spec_data_directory(b, p),
        import_table: spec_data_directory(b, p + 8),
        resource_table: spec_data_directory(b, p + 16),
        exception_table: spec_data_directory(b, p + 24),
        certificate_table: spec_data_directory(b, p + 32),
        base_relocation_table: spec_data_directory(b, p + 40),
        debug_data: spec_data_directory(b, p + 48),
        global_ptr: spec_data_directory(b, p + 64),
        tls_table: spec_data_directory(b, p + 72),
        load_config_table: spec_data_directory(b, p + 80),
        bound_import: spec_data_directory(b, p + 88),
        iat: spec_data_directory(b, p + 96),
        delay_import_descriptor: spec_data_directory(b, p + 104),
        clr_runtime_header: spec_data_directory(b, p + 112),
    }
}

impl DataDirectories {
    /// Decode the 128-byte data-directory table at `pos`: 14 named slots in
    /// their mandated order, with the reserved architecture and trailing
    /// padding spans required to be all-zero.
    pub fn parse(i: &[u8], pos: usize) -> (r: Result<(DataDirectories, usize), DecodeError>)
        ensures
            data_directories_wf(i@, pos as int) ==> (r matches Ok(v) && v.0
                == spec_data_directories(i@, pos as int) && v.1 == pos + 128),
            !data_directories_wf(i@, pos as int) ==> (r matches Err(e) && e@
                == data_directories_err(i@, pos as int)),
    {
        let export_table = match DataDirectory::parse(i, pos) {
            Ok(v) => v.0,
            Err(e) => return Err(e.wrap(Context::ExportTable, pos)),
        };
        let import_table = match DataDirectory::parse(i, pos + 8) {
            Ok(v) => v.0,
            Err(e) => return Err(e.wrap(Context::ImportTable, pos + 8)),
        };
        let resource_table = match DataDirectory::parse(i, pos + 16) {
            Ok(v) => v.0,
            Err(e) => return Err(e.wrap(Context::ResourceTable, pos + 16)),
        };
        let exception_table = match DataDirectory::parse(i, pos + 24) {
            Ok(v) => v.0,
            Err(e) => return Err(e.wrap(Context::ExceptionTable, pos + 24)),
        };
        let certificate_table = match DataDirectory::parse(i, pos + 32) {
            Ok(v) => v.0,
            Err(e) => return Err(e.wrap(Context::CertificateTable, pos + 32)),
        };
        let base_relocation_table = match DataDirectory::parse(i, pos + 40) {
            Ok(v) => v.0,
            Err(e) => return Err(e.wrap(Context::BaseRelocationTable, pos + 40)),
        };
        let debug_data = match DataDirectory::parse(i, pos + 48) {
            Ok(v) => v.0,
            Err(e) => return Err(e.wrap(Context::DebugData, pos + 48)),
        };
        if i.len() < 64 || pos > i.len() - 64 {
            return Err(
                DecodeError::with_frame(
                    ErrorKind::Truncated,
                    i.len(),
                    Context::Architecture,
                    pos + 56,
                ),
            );
        }
        if !check_zero8(i, pos + 56) {
            return Err(
                DecodeError::with_context(
                    ErrorKind::MalformedReservedField,
                    pos + 56,
                    Context::Architecture,
                ),
            );
        }
        let global_ptr = match DataDirectory::parse(i, pos + 64) {
            Ok(v) => v.0,
            Err(e) => return Err(e.wrap(Context::GlobalPtr, pos + 64)),
        };
        let tls_table = match DataDirectory::parse(i, pos + 72) {
            Ok(v) => v.0,
            Err(e) => return Err(e.wrap(Context::TlsTable, pos + 72)),
        };
        let load_config_table = match DataDirectory::parse(i, pos + 80) {
            Ok(v) => v.0,
            Err(e) => return Err(e.wrap(Context::LoadConfigTable, pos + 80)),
        };
        let bound_import = match DataDirectory::parse(i, pos + 88) {
            Ok(v) => v.0,
            Err(e) => return Err(e.wrap(Context::BoundImport, pos + 88)),
        };
        let iat = match DataDirectory::parse(i, pos + 96) {
            Ok(v) => v.0,
            Err(e) => return Err(e.wrap(Context::Iat, pos + 96)),
        };
        let delay_import_descriptor = match DataDirectory::parse(i, pos + 104) {
            Ok(v) => v.0,
            Err(e) => return Err(e.wrap(Context::DelayImportDescriptor, pos + 104)),
        };
        let clr_runtime_header = match DataDirectory::parse(i, pos + 112) {
            Ok(v) => v.0,
            Err(e) => return Err(e.wrap(Context::ClrRuntimeHeader, pos + 112)),
        };
        if i.len() < 128 || pos > i.len() - 128 {
            return Err(
                DecodeError::with_frame(
                    ErrorKind::Truncated,
                    i.len(),
                    Context::Padding,
                    pos + 120,
                ),
            );
        }
        if !check_zero8(i, pos + 120) {
            return Err(
                DecodeError::with_context(
                    ErrorKind::MalformedReservedField,
                    pos + 120,
                    Context::Padding,
                ),
            );
        }
        Ok(
            (
                DataDirectories {
                    export_table,
                    import_table,
                    resource_table,
                    exception_table,
                    certificate_table,
                    base_relocation_table,
                    debug_data,
                    global_ptr,
                    tls_table,
                    load_config_table,
                    bound_import,
                    iat,
                    delay_import_descriptor,
                    clr_runtime_header,
                },
                pos + 128,
            ),
        )
    }
}

/// The Windows-specific fields of the 64-bit optional header (88 bytes).
///
/// The format documents invariants that the decoder accepts without
/// re-verifying: `section_alignment >= file_alignment`, and the two reserved
/// fields (`win32_version_value`, `loader_flags`) should be zero.  They are
/// stated by [`windows_fields_documented_invariant`]; a caller that wants
/// strict validation tests [`WindowsFields::obeys_documented_invariant`]
/// after a decode.
#[derive(Clone, Copy, Debug, PartialEq, Eq, Structural)]
pub struct WindowsFields {
    /// The preferred address of the first byte of the image when loaded.
    pub image_base: u64,
    /// The alignment of sections when loaded into memory; must be greater
    /// than or equal to `file_alignment`.
    pub section_alignment: u32,
    /// The alignment factor of the sections' raw data in the image file.
    pub file_alignment: u32,
    pub major_os_version: u16,
    pub minor_os_version: u16,
    pub major_image_version: u16,
    pub minor_image_version: u16,
    pub major_subsystem_version: u16,
    pub minor_subsystem_version: u16,
    /// Reserved; should be zero.
    pub win32_version_value: u32,
    pub size_of_image: u32,
    pub size_of_headers: u32,
    /// The image file checksum (not re-computed by the decoder).
    pub checksum: u32,
    pub subsystem: Subsystem,
    pub dll_characteristics: DllCharacteristics,
    pub size_of_stack_reserve: u64,
    pub size_of_stack_commit: u64,
    pub size_of_heap_reserve: u64,
    pub size_of_heap_commit: u64,
    /// Reserved; should be zero.
    pub loader_flags: u32,
    /// The number of data-directory entries in the rest of the header.
    pub number_of_rva_and_sizes: u32,
}

/// Whether the 88 Windows-specific bytes at `p` decode: they must lie within
/// the buffer, the subsystem code must be defined, and the DLL
/// characteristics bits must lie within the defined mask.
pub open spec fn windows_fields_wf(b: Seq<u8>, p: int) -> bool {
    &&& p + 88 <= b.len()
    &&& subsystem_valid(spec_u16(b, p + 44))
    &&& dll_characteristics_valid(spec_u16(b, p + 46))
}

/// The failure of a Windows-specific fields decode at `p`: the fields are
/// consumed in their on-disk order, so the first field that cannot be fully
/// read, or the first undefined code or flag value, names the failure.
pub open spec fn windows_fields_err(b: Seq<u8>, p: int) -> ErrV
    recommends
        !windows_fields_wf(b, p),
{
    let len = b.len() as int;
    if p + 8 > len {
        err_in(ErrorKind::Truncated, len, Context::ImageBase, p)
    } else if p + 12 > len {
        err_in(ErrorKind::Truncated, len, Context::SectionAlignment, p + 8)
    } else if p + 16 > len {
        err_in(ErrorKind::Truncated, len, Context::FileAlignment, p + 12)
    } else if p + 18 > len {
        err_in(ErrorKind::Truncated, len, Context::MajorOperatingSystemVersion, p + 16)
    } else if p + 20 > len {
        err_in(ErrorKind::Truncated, len, Context::MinorOperatingSystemVersion, p + 18)
    } else if p + 22 > len {
        err_in(ErrorKind::Truncated, len, Context::MajorImageVersion, p + 20)
    } else if p + 24 > len {
        err_in(ErrorKind::Truncated, len, Context::MinorImageVersion, p + 22)
    } else if p + 26 > len {
        err_in(ErrorKind::Truncated, len, Context::MajorSubsystemVersion, p + 24)
    } else if p + 28 > len {
        err_in(ErrorKind::Truncated, len, Context::MinorSubsystemVersion, p + 26)
    } else if p + 32 > len {
        err_in(ErrorKind::Truncated, len, Context::Win32VersionValue, p + 28)
    } else if p + 36 > len {
        err_in(ErrorKind::Truncated, len, Context::SizeOfImage, p + 32)
    } else if p + 40 > len {
        err_in(ErrorKind::Truncated, len, Context::SizeOfHeaders, p + 36)
    } else if p + 44 > len {
        err_in(ErrorKind::Truncated, len, Context::CheckSum, p + 40)
    } else if p + 46 > len {
        err_in(ErrorKind::Truncated, len, Context::Subsystem, p + 44)
    } else if !subsystem_valid(spec_u16(b, p + 44)) {
        err1(ErrorKind::UnrecognizedCode(spec_u16(b, p + 44) as u64), p + 44, Context::Subsystem)
    } else if p + 48 > len {
        err_in(ErrorKind::Truncated, len, Context::DllCharacteristics, p + 46)
    } else if !dll_characteristics_valid(spec_u16(b, p + 46)) {
        err1(
            ErrorKind::UnrecognizedBits(spec_u16(b, p + 46) as u64),
            p + 46,
            Context::DllCharacteristics,
        )
    } else if p + 56 > len {
        err_in(ErrorKind::Truncated, len, Context::SizeOfStackReserve, p + 48)
    } else if p + 64 > len {
        err_in(ErrorKind::Truncated, len, Context::SizeOfStackCommit, p + 56)
    } else if p + 72 > len {
        err_in(ErrorKind::Truncated, len, Context::SizeOfHeapReserve, p + 64)
    } else if p + 80 > len {
        err_in(ErrorKind::Truncated, len, Context::SizeOfHeapCommit, p + 72)
    } else if p + 84 > len {
        err_in(ErrorKind::Truncated, len, Context::LoaderFlags, p + 80)
    } else {
        err_in(ErrorKind::Truncated, len, Context::NumberOfRvaAndSizes, p + 84)
    }
}

/// The invariants the format documents of the Windows-specific fields but
/// the decoder does not enforce: the two reserved fields are zero and the
/// in-memory section alignment is no smaller than the on-disk file
/// alignment.
pub open spec fn windows_fields_documented_invariant(w: WindowsFields) -> bool {
    &&& w.win32_version_value == 0
    &&& w.loader_flags == 0
    &&& w.section_alignment >= w.file_alignment
}

/// The Windows-specific fields stored at position `p`.
pub open spec fn spec_windows_fields(b: Seq<u8>, p: int) -> WindowsFields
    recommends
        0 <= p,
        p + 88 <= b.len(),
        subsystem_valid(spec_u16(b, p + 44)),
{
    WindowsFields {
        image_base: spec_u64(b, p),
        section_alignment: spec_u32(b, p + 8),
        file_alignment: spec_u32(b, p + 12),
        major_os_version: spec_u16(b, p + 16),
        minor_os_version: spec_u16(b, p + 18),
        major_image_version: spec_u16(b, p + 20),
        minor_image_version: spec_u16(b, p + 22),
        major_subsystem_version: spec_u16(b, p + 24),
        minor_subsystem_version: spec_u16(b, p + 26),
        win32_version_value: spec_u32(b, p + 28),
        size_of_image: spec_u32(b, p + 32),
        size_of_headers: spec_u32(b, p + 36),
        checksum: spec_u32(b, p + 40),
        subsystem: spec_subsystem(spec_u16(b, p + 44)),
        dll_characteristics: DllCharacteristics { bits: spec_u16(b, p + 46) },
        size_of_stack_reserve: spec_u64(b, p + 48),
        size_of_stack_commit: spec_u64(b, p + 56),
        size_of_heap_reserve: spec_u64(b, p + 64),
        size_of_heap_commit: spec_u64(b, p + 72),
        loader_flags: spec_u32(b, p + 80),
        number_of_rva_and_sizes: spec_u32(b, p + 84),
    }
}

impl WindowsFields {
    /// Whether this value satisfies the invariants the format documents but
    /// the decoder does not enforce (see
    /// [`windows_fields_documented_invariant`]).
    pub fn obeys_documented_invariant(&self) -> (r: bool)
        ensures
            r == windows_fields_documented_invariant(*self),
    {
        self.win32_version_value == 0 && self.loader_flags == 0 && self.section_alignment
            >= self.file_alignment
    }

    /// Decode the 88 Windows-specific bytes at `pos`, strictly in their
    /// on-disk order.
    pub fn parse(i: &[u8], pos: usize) -> (r: Result<(WindowsFields, usize), DecodeError>)
        ensures
            windows_fields_wf(i@, pos as int) ==> (r matches Ok(v) && v.0 == spec_windows_fields(
                i@,
                pos as int,
            ) && v.1 == pos + 88),
            !windows_fields_wf(i@, pos as int) ==> (r matches Err(e) && e@ == windows_fields_err(
                i@,
                pos as int,
            )),
    {
        if i.len() < 8 || pos > i.len() - 8 {
            return Err(
                DecodeError::with_frame(ErrorKind::Truncated, i.len(), Context::ImageBase, pos),
            );
        }
        let image_base = read_u64(i, pos);
        if i.len() < 12 || pos > i.len() - 12 {
            return Err(
                DecodeError::with_frame(
                    ErrorKind::Truncated,
                    i.len(),
                    Context::SectionAlignment,
                    pos + 8,
                ),
            );
        }
        let section_alignment = read_u32(i, pos + 8);
        if i.len() < 16 || pos > i.len() - 16 {
            return Err(
                DecodeError::with_frame(
                    ErrorKind::Truncated,
                    i.len(),
                    Context::FileAlignment,
                    pos + 12,
                ),
            );
        }
        let file_alignment = read_u32(i, pos + 12);
        if i.len() < 18 || pos > i.len() - 18 {
            return Err(
                DecodeError::with_frame(
                    ErrorKind::Truncated,
                    i.len(),
                    Context::MajorOperatingSystemVersion,
                    pos + 16,
                ),
            );
        }
        let major_os_version = read_u16(i, pos + 16);
        if i.len() < 20 || pos > i.len() - 20 {
            return Err(
                DecodeError::with_frame(
                    ErrorKind::Truncated,
                    i.len(),
                    Context::MinorOperatingSystemVersion,
                    pos + 18,
                ),
            );
        }
        let minor_os_version = read_u16(i, pos + 18);
        if i.len() < 22 || pos > i.len() - 22 {
            return Err(
                DecodeError::with_frame(
                    ErrorKind::Truncated,
                    i.len(),
                    Context::MajorImageVersion,
                    pos + 20,
                ),
            );
        }
        let major_image_version = read_u16(i, pos + 20);
        if i.len() < 24 || pos > i.len() - 24 {
            return Err(
                DecodeError::with_frame(
                    ErrorKind::Truncated,
                    i.len(),
                    Context::MinorImageVersion,
                    pos + 22,
                ),
            );
        }
        let minor_image_version = read_u16(i, pos + 22);
        if i.len() < 26 || pos > i.len() - 26 {
            return Err(
                DecodeError::with_frame(
                    ErrorKind::Truncated,
                    i.len(),
                    Context::MajorSubsystemVersion,
                    pos + 24,
                ),
            );
        }
        let major_subsystem_version = read_u16(i, pos + 24);
        if i.len() < 28 || pos > i.len() - 28 {
            return Err(
                DecodeError::with_frame(
                    ErrorKind::Truncated,
                    i.len(),
                    Context::MinorSubsystemVersion,
                    pos + 26,
                ),
            );
        }
        let minor_subsystem_version = read_u16(i, pos + 26);
        if i.len() < 32 || pos > i.len() - 32 {
            return Err(
                DecodeError::with_frame(
                    ErrorKind::Truncated,
                    i.len(),
                    Context::Win32VersionValue,
                    pos + 28,
                ),
            );
        }
        let win32_version_value = read_u32(i, pos + 28);
        if i.len() < 36 || pos > i.len() - 36 {
            return Err(
                DecodeError::with_frame(
                    ErrorKind::Truncated,
                    i.len(),
                    Context::SizeOfImage,
                    pos + 32,
                ),
            );
        }
        let size_of_image = read_u32(i, pos + 32);
        if i.len() < 40 || pos > i.len() - 40 {
            return Err(
                DecodeError::with_frame(
                    ErrorKind::Truncated,
                    i.len(),
                    Context::SizeOfHeaders,
                    pos + 36,
                ),
            );
        }
        let size_of_headers = read_u32(i, pos + 36);
        if i.len() < 44 || pos > i.len() - 44 {
            return Err(
                DecodeError::with_frame(ErrorKind::Truncated, i.len(), Context::CheckSum, pos + 40),
            );
        }
        let checksum = read_u32(i, pos + 40);
        let subsystem = match Subsystem::parse(i, pos + 44) {
            Ok(v) => v.0,
            Err(e) => return Err(e.wrap(Context::Subsystem, pos + 44)),
        };
        let dll_characteristics = match DllCharacteristics::parse(i, pos + 46) {
            Ok(v) => v.0,
            Err(e) => return Err(e.wrap(Context::DllCharacteristics, pos + 46)),
        };
        if i.len() < 56 || pos > i.len() - 56 {
            return Err(
                DecodeError::with_frame(
                    ErrorKind::Truncated,
                    i.len(),
                    Context::SizeOfStackReserve,
                    pos + 48,
                ),
            );
        }
        let size_of_stack_reserve = read_u64(i, pos + 48);
        if i.len() < 64 || pos > i.len() - 64 {
            return Err(
                DecodeError::with_frame(
                    ErrorKind::Truncated,
                    i.len(),
                    Context::SizeOfStackCommit,
                    pos + 56,
                ),
            );
        }
        let size_of_stack_commit = read_u64(i, pos + 56);
        if i.len() < 72 || pos > i.len() - 72 {
            return Err(
                DecodeError::with_frame(
                    ErrorKind::Truncated,
                    i.len(),
                    Context::SizeOfHeapReserve,
                    pos + 64,
                ),
            );
        }
        let size_of_heap_reserve = read_u64(i, pos + 64);
        if i.len() < 80 || pos > i.len() - 80 {
            return Err(
                DecodeError::with_frame(
                    ErrorKind::Truncated,
                    i.len(),
                    Context::SizeOfHeapCommit,
                    pos + 72,
                ),
            );
        }
        let size_of_heap_commit = read_u64(i, pos + 72);
        if i.len() < 84 || pos > i.len() - 84 {
            return Err(
                DecodeError::with_frame(
                    ErrorKind::Truncated,
                    i.len(),
                    Context::LoaderFlags,
                    pos + 80,
                ),
            );
        }
        let loader_flags = read_u32(i, pos + 80);
        if i.len() < 88 || pos > i.len() - 88 {
            return Err(
                DecodeError::with_frame(
                    ErrorKind::Truncated,
                    i.len(),
                    Context::NumberOfRvaAndSizes,
                    pos + 84,
                ),
            );
        }
        let number_of_rva_and_sizes = read_u32(i, pos + 84);
        Ok(
            (
                WindowsFields {
                    image_base,
                    section_alignment,
                    file_alignment,
                    major_os_version,
                    minor_os_version,
                    major_image_version,
                    minor_image_version,
                    major_subsystem_version,
                    minor_subsystem_version,
                    win32_version_value,
                    size_of_image,
                    size_of_headers,
                    checksum,
                    subsystem,
                    dll_characteristics,
                    size_of_stack_reserve,
                    size_of_stack_commit,
                    size_of_heap_reserve,
                    size_of_heap_commit,
                    loader_flags,
                    number_of_rva_and_sizes,
                },
                pos + 88,
            ),
        )
    }
}

/// The little-endian magic constant identifying the 64-bit optional-header
/// layout.
pub const OPTIONAL_HEADER_MAGIC: u16 = 0x020B;

/// The 64-bit optional header (240 bytes): the COFF-standard fields, the
/// Windows-specific fields, and the data-directory table.
#[derive(Clone, Copy, Debug, PartialEq, Eq, Structural)]
pub struct OptionalHeader64 {
    pub major_linker_version: u8,
    pub minor_linker_version: u8,
    /// The summed size of all code sections.
    pub size_of_code: u32,
    pub size_of_initialized_data: u32,
    pub size_of_uninitialized_data: u32,
    /// The address of the entry point relative to the image base.
    pub entry_point: Addr32,
    /// The address of the beginning-of-code section relative to the image
    /// base.
    pub base_of_code: u32,
    pub windows_header: WindowsFields,
    pub data_directories: DataDirectories,
}

/// Whether the 240-byte optional header at `p` decodes: it must lie within
/// the buffer, carry the 64-bit layout magic, and its Windows-specific
/// fields and data-directory table must decode.
pub open spec fn optional_header_wf(b: Seq<u8>, p: int) -> bool {
    &&& p + 240 <= b.len()
    &&& spec_u16(b, p) == OPTIONAL_HEADER_MAGIC
    &&& windows_fields_wf(b, p + 24)
    &&& data_directories_wf(b, p + 112)
}

/// The failure of an optional-header decode at `p`.  The 2-byte magic is
/// tested as soon as its bytes are readable, before anything else, so a
/// wrong magic is reported as `BadMagic` however short the buffer is.  After
/// it, the fields are consumed in their on-disk order and the first that
/// cannot be fully read names the failure.
pub open spec fn optional_header_err(b: Seq<u8>, p: int) -> ErrV
    recommends
        !optional_header_wf(b, p),
{
    let len = b.len() as int;
    if p + 2 > len {
        err_in(ErrorKind::Truncated, len, Context::Magic, p)
    } else if spec_u16(b, p) != OPTIONAL_HEADER_MAGIC {
        err1(ErrorKind::BadMagic, p, Context::Magic)
    } else if p + 3 > len {
        err_in(ErrorKind::Truncated, len, Context::MajorLinkerVersion, p + 2)
    } else if p + 4 > len {
        err_in(ErrorKind::Truncated, len, Context::MinorLinkerVersion, p + 3)
    } else if p + 8 > len {
        err_in(ErrorKind::Truncated, len, Context::SizeOfCode, p + 4)
    } else if p + 12 > len {
        err_in(ErrorKind::Truncated, len, Context::SizeOfInitializedData, p + 8)
    } else if p + 16 > len {
        err_in(ErrorKind::Truncated, len, Context::SizeOfUninitializedData, p + 12)
    } else if p + 20 > len {
        err_in(ErrorKind::Truncated, len, Context::AddressOfEntryPoint, p + 16)
    } else if p + 24 > len {
        err_in(ErrorKind::Truncated, len, Context::BaseOfCode, p + 20)
    } else if !windows_fields_wf(b, p + 24) {
        windows_fields_err(b, p + 24).wrap(Context::Windows, p + 24)
    } else {
        data_directories_err(b, p + 112).wrap(Context::DataDirectories, p + 112)
    }
}

/// Law: the optional-header magic decides first.  Whenever its two bytes
/// are readable, the decode at `p` fails with `BadMagic` at `p` exactly when
/// they do not hold the 64-bit layout magic, however short the rest of the
/// buffer is; and with the magic present and correct, no failure of the
/// optional header is ever reported as `BadMagic`.
pub proof fn lemma_bad_magic_iff(b: Seq<u8>, p: int)
    requires
        0 <= p,
        p + 2 <= b.len(),
    ensures
        spec_u16(b, p) != OPTIONAL_HEADER_MAGIC ==> !optional_header_wf(b, p)
            && optional_header_err(b, p) == err1(ErrorKind::BadMagic, p, Context::Magic),
        spec_u16(b, p) == OPTIONAL_HEADER_MAGIC && !optional_header_wf(b, p)
            ==> optional_header_err(b, p).kind != ErrorKind::BadMagic,
{
}

/// The optional header stored at position `p`.
pub open spec fn spec_optional_header(b: Seq<u8>, p: int) -> OptionalHeader64
    recommends
        0 <= p,
        p + 240 <= b.len(),
        subsystem_valid(spec_u16(b, p + 24 + 44)),
{
    OptionalHeader64 {
        major_linker_version: b[p + 2],
        minor_linker_version: b[p + 3],
        size_of_code: spec_u32(b, p + 4),
        size_of_initialized_data: spec_u32(b, p + 8),
        size_of_uninitialized_data: spec_u32(b, p + 12),
        entry_point: Addr32(spec_u32(b, p + 16)),
        base_of_code: spec_u32(b, p + 20),
        windows_header: spec_windows_fields(b, p + 24),
        data_directories: spec_data_directories(b, p + 112),
    }
}

impl OptionalHeader64 {
    /// Decode the 240-byte 64-bit optional header at `pos`: the 2-byte
    /// magic, the COFF-standard fields, the Windows-specific fields, and the
    /// data-directory table, strictly in their on-disk order.  The magic is
    /// tested as soon as its two bytes are readable: a wrong magic is
    /// `BadMagic` however short the rest of the buffer is.
    pub fn parse(i: &[u8], pos: usize) -> (r: Result<(OptionalHeader64, usize), DecodeError>)
        ensures
            optional_header_wf(i@, pos as int) ==> (r matches Ok(v) && v.0 == spec_optional_header(
                i@,
                pos as int,
            ) && v.1 == pos + 240),
            !optional_header_wf(i@, pos as int) ==> (r matches Err(e) && e@ == optional_header_err(
                i@,
                pos as int,
            )),
    {
        if i.len() < 2 || pos > i.len() - 2 {
            return Err(
                DecodeError::with_frame(ErrorKind::Truncated, i.len(), Context::Magic, pos),
            );
        }
        if read_u16(i, pos) != OPTIONAL_HEADER_MAGIC {
            return Err(DecodeError::with_context(ErrorKind::BadMagic, pos, Context::Magic));
        }
        if i.len() < 3 || pos > i.len() - 3 {
            return Err(
                DecodeError::with_frame(
                    ErrorKind::Truncated,
                    i.len(),
                    Context::MajorLinkerVersion,
                    pos + 2,
                ),
            );
        }
        let major_linker_version = i[pos + 2];
        if i.len() < 4 || pos > i.len() - 4 {
            return Err(
                DecodeError::with_frame(
                    ErrorKind::Truncated,
                    i.len(),
                    Context::MinorLinkerVersion,
                    pos + 3,
                ),
            );
        }
        let minor_linker_version = i[pos + 3];
        if i.len() < 8 || pos > i.len() - 8 {
            return Err(
                DecodeError::with_frame(
                    ErrorKind::Truncated,
                    i.len(),
                    Context::SizeOfCode,
                    pos + 4,
                ),
            );
        }
        let size_of_code = read_u32(i, pos + 4);
        if i.len() < 12 || pos > i.len() - 12 {
            return Err(
                DecodeError::with_frame(
                    ErrorKind::Truncated,
                    i.len(),
                    Context::SizeOfInitializedData,
                    pos + 8,
                ),
            );
        }
        let size_of_initialized_data = read_u32(i, pos + 8);
        if i.len() < 16 || pos > i.len() - 16 {
            return Err(
                DecodeError::with_frame(
                    ErrorKind::Truncated,
                    i.len(),
                    Context::SizeOfUninitializedData,
                    pos + 12,
                ),
            );
        }
        let size_of_uninitialized_data = read_u32(i, pos + 12);
        if i.len() < 20 || pos > i.len() - 20 {
            return Err(
                DecodeError::with_frame(
                    ErrorKind::Truncated,
                    i.len(),
                    Context::AddressOfEntryPoint,
                    pos + 16,
                ),
            );
        }
        let entry_point = Addr32(read_u32(i, pos + 16));
        if i.len() < 24 || pos > i.len() - 24 {
            return Err(
                DecodeError::with_frame(
                    ErrorKind::Truncated,
                    i.len(),
                    Context::BaseOfCode,
                    pos + 20,
                ),
            );
        }
        let base_of_code = read_u32(i, pos + 20);
        let windows_header = match WindowsFields::parse(i, pos + 24) {
            Ok(v) => v.0,
            Err(e) => return Err(e.wrap(Context::Windows, pos + 24)),
        };
        let data_directories = match DataDirectories::parse(i, pos + 112) {
            Ok(v) => v.0,
            Err(e) => return Err(e.wrap(Context::DataDirectories, pos + 112)),
        };
        Ok(
            (
                OptionalHeader64 {
                    major_linker_version,
                    minor_linker_version,
                    size_of_code,
                    size_of_initialized_data,
                    size_of_uninitialized_data,
                    entry_point,
                    base_of_code,
                    windows_header,
                    data_directories,
                },
                pos + 240,
            ),
        )
    }
}

/// The COFF file header of a PE64 image (24 bytes at the PE signature,
/// followed by the 240-byte optional header).
#[derive(Clone, Copy, Debug, PartialEq, Eq, Structural)]
pub struct PeHeader64 {
    /// The architecture of the machine.
    pub machine: Machine,
    /// The number of sections, which is the size of the section table.
    pub number_of_sections: u16,
    /// The low 32 bits of a Unix timestamp, stored raw and not validated.
    pub time_date_stamp: u32,
    /// The file offset of the COFF symbol table; zero if none is present.
    pub pointer_to_sym_table: Addr32,
    /// The number of entries in the symbol table; zero if none is present.
    pub number_of_symbols: u32,
    /// The size of the optional header.
    pub size_of_optional_header: u16,
    /// Flags for various functionality of the executable.
    pub characteristics: Characteristics,
    /// The embedded 64-bit optional header.
    pub optional_header: OptionalHeader64,
}

/// Whether the file-header record at `p` (the position of the PE signature)
/// decodes: signature, machine code, characteristics bits, and the embedded
/// optional header.
pub open spec fn pe_record_wf(b: Seq<u8>, p: int) -> bool {
    &&& p + 24 <= b.len()
    &&& b[p] == 0x50 && b[p + 1] == 0x45 && b[p + 2] == 0 && b[p + 3] == 0
    &&& machine_valid(spec_u16(b, p + 4))
    &&& characteristics_valid(spec_u16(b, p + 22))
    &&& optional_header_wf(b, p + 24)
}

/// The failure of a file-header record decode at `p`.  The 4-byte signature
/// is tested as soon as its bytes are readable, before anything else, so a
/// wrong signature is reported as `BadSignature` however short the buffer
/// is.  After it, the fields are consumed in their on-disk order and the
/// first field that cannot be fully read, or the first undefined code or
/// flag value, names the failure.
pub open spec fn pe_record_err(b: Seq<u8>, p: int) -> ErrV
    recommends
        !pe_record_wf(b, p),
{
    let len = b.len() as int;
    if p + 4 > len {
        err_in(ErrorKind::Truncated, len, Context::Magic, p)
    } else if !(b[p] == 0x50 && b[p + 1] == 0x45 && b[p + 2] == 0 && b[p + 3] == 0) {
        err1(ErrorKind::BadSignature, p, Context::Magic)
    } else if p + 6 > len {
        err_in(ErrorKind::Truncated, len, Context::Machine, p + 4)
    } else if !machine_valid(spec_u16(b, p + 4)) {
        err1(ErrorKind::UnrecognizedCode(spec_u16(b, p + 4) as u64), p + 4, Context::Machine)
    } else if p + 8 > len {
        err_in(ErrorKind::Truncated, len, Context::NumberOfSections, p + 6)
    } else if p + 12 > len {
        err_in(ErrorKind::Truncated, len, Context::TimeDateStamp, p + 8)
    } else if p + 16 > len {
        err_in(ErrorKind::Truncated, len, Context::PointerToSymbolTable, p + 12)
    } else if p + 20 > len {
        err_in(ErrorKind::Truncated, len, Context::NumberOfSymbols, p + 16)
    } else if p + 22 > len {
        err_in(ErrorKind::Truncated, len, Context::SizeOfOptionalHeader, p + 20)
    } else if p + 24 > len {
        err_in(ErrorKind::Truncated, len, Context::Characteristics, p + 22)
    } else if !characteristics_valid(spec_u16(b, p + 22)) {
        err1(
            ErrorKind::UnrecognizedBits(spec_u16(b, p + 22) as u64),
            p + 22,
            Context::Characteristics,
        )
    } else {
        optional_header_err(b, p + 24).wrap(Context::OptionalHeader, p + 24)
    }
}

/// Law: the PE signature decides first.  Whenever its four bytes are
/// readable, the decode at `p` fails with `BadSignature` at `p` exactly when
/// they do not hold `PE\0\0`, however short the rest of the buffer is; and
/// with the signature present and correct, no failure of the record is ever
/// reported as `BadSignature`.
pub proof fn lemma_bad_signature_iff(b: Seq<u8>, p: int)
    requires
        0 <= p,
        p + 4 <= b.len(),
    ensures
        !(b[p] == 0x50 && b[p + 1] == 0x45 && b[p + 2] == 0 && b[p + 3] == 0) ==> !pe_record_wf(
            b,
            p,
        ) && pe_record_err(b, p) == err1(ErrorKind::BadSignature, p, Context::Magic),
        (b[p] == 0x50 && b[p + 1] == 0x45 && b[p + 2] == 0 && b[p + 3] == 0) && !pe_record_wf(b, p)
            ==> pe_record_err(b, p).kind != ErrorKind::BadSignature,
{
}

/// The file-header record stored at position `p`.
pub open spec fn spec_pe_header(b: Seq<u8>, p: int) -> PeHeader64
    recommends
        0 <= p,
        pe_record_wf(b, p),
{
    PeHeader64 {
        machine: spec_machine(spec_u16(b, p + 4)),
        number_of_sections: spec_u16(b, p + 6),
        time_date_stamp: spec_u32(b, p + 8),
        pointer_to_sym_table: Addr32(spec_u32(b, p + 12)),
        number_of_symbols: spec_u32(b, p + 16),
        size_of_optional_header: spec_u16(b, p + 20),
        characteristics: Characteristics { bits: spec_u16(b, p + 22) },
        optional_header: spec_optional_header(b, p + 24),
    }
}

/// The position of the PE signature: the one-byte header-start offset stored
/// at byte 0x3C of the buffer.
pub open spec fn pe_offset(b: Seq<u8>) -> int
    recommends
        b.len() >= 0x3d,
{
    b[0x3c] as int
}

/// Whether the whole header region of the buffer decodes: the buffer reaches
/// past the header-offset byte, and the file-header record at the stored
/// offset decodes.
pub open spec fn header_wf(b: Seq<u8>) -> bool {
    &&& b.len() >= 0x3d
    &&& pe_record_wf(b, pe_offset(b))
}

/// The failure of a header decode of the whole buffer.
pub open spec fn header_err(b: Seq<u8>) -> ErrV
    recommends
        !header_wf(b),
{
    if b.len() < 0x3d {
        err0(ErrorKind::Truncated, b.len() as int)
    } else {
        pe_record_err(b, pe_offset(b))
    }
}

impl PeHeader64 {
    /// Decode the file-header record at `pos`: the 4-byte `PE\0\0`
    /// signature, the COFF fields, and the embedded optional header,
    /// strictly in their on-disk order.  The signature is tested as soon as
    /// its four bytes are readable: a wrong signature is `BadSignature`
    /// however short the rest of the buffer is.
    fn parse_from_pe_header(i: &[u8], pos: usize) -> (r: Result<(PeHeader64, usize), DecodeError>)
        ensures
            pe_record_wf(i@, pos as int) ==> (r matches Ok(v) && v.0 == spec_pe_header(
                i@,
                pos as int,
            ) && v.1 == pos + 264),
            !pe_record_wf(i@, pos as int) ==> (r matches Err(e) && e@ == pe_record_err(
                i@,
                pos as int,
            )),
    {
        if i.len() < 4 || pos > i.len() - 4 {
            return Err(
                DecodeError::with_frame(ErrorKind::Truncated, i.len(), Context::Magic, pos),
            );
        }
        if !(i[pos] == 0x50 && i[pos + 1] == 0x45 && i[pos + 2] == 0 && i[pos + 3] == 0) {
            return Err(DecodeError::with_context(ErrorKind::BadSignature, pos, Context::Magic));
        }
        let machine = match Machine::parse(i, pos + 4) {
            Ok(v) => v.0,
            Err(e) => return Err(e.wrap(Context::Machine, pos + 4)),
        };
        if i.len() < 8 || pos > i.len() - 8 {
            return Err(
                DecodeError::with_frame(
                    ErrorKind::Truncated,
                    i.len(),
                    Context::NumberOfSections,
                    pos + 6,
                ),
            );
        }
        let number_of_sections = read_u16(i, pos + 6);
        if i.len() < 12 || pos > i.len() - 12 {
            return Err(
                DecodeError::with_frame(
                    ErrorKind::Truncated,
                    i.len(),
                    Context::TimeDateStamp,
                    pos + 8,
                ),
            );
        }
        let time_date_stamp = read_u32(i, pos + 8);
        if i.len() < 16 || pos > i.len() - 16 {
            return Err(
                DecodeError::with_frame(
                    ErrorKind::Truncated,
                    i.len(),
                    Context::PointerToSymbolTable,
                    pos + 12,
                ),
            );
        }
        let pointer_to_sym_table = Addr32(read_u32(i, pos + 12));
        if i.len() < 20 || pos > i.len() - 20 {
            return Err(
                DecodeError::with_frame(
                    ErrorKind::Truncated,
                    i.len(),
                    Context::NumberOfSymbols,
                    pos + 16,
                ),
            );
        }
        let number_of_symbols = read_u32(i, pos + 16);
        if i.len() < 22 || pos > i.len() - 22 {
            return Err(
                DecodeError::with_frame(
                    ErrorKind::Truncated,
                    i.len(),
                    Context::SizeOfOptionalHeader,
                    pos + 20,
                ),
            );
        }
        let size_of_optional_header = read_u16(i, pos + 20);
        let characteristics = match Characteristics::parse(i, pos + 22) {
            Ok(v) => v.0,
            Err(e) => return Err(e.wrap(Context::Characteristics, pos + 22)),
        };
        let (optional_header, next) = match OptionalHeader64::parse(i, pos + 24) {
            Ok(v) => v,
            Err(e) => return Err(e.wrap(Context::OptionalHeader, pos + 24)),
        };
        Ok(
            (
                PeHeader64 {
                    machine,
                    number_of_sections,
                    time_date_stamp,
                    pointer_to_sym_table,
                    number_of_symbols,
                    size_of_optional_header,
                    characteristics,
                    optional_header,
                },
                next,
            ),
        )
    }

    /// Decode the file header of the whole buffer, skipping the MS-DOS
    /// header: decoding begins at the offset contained in byte 0x3C.  On
    /// success the returned position is the start of the section table.
    pub fn parse(i: &[u8]) -> (r: Result<(PeHeader64, usize), DecodeError>)
        ensures
            header_wf(i@) ==> (r matches Ok(v) && v.0 == spec_pe_header(i@, pe_offset(i@)) && v.1
                == pe_offset(i@) + 264),
            !header_wf(i@) ==> (r matches Err(e) && e@ == header_err(i@)),
    {
        if i.len() < 0x3d {
            return Err(DecodeError::new(ErrorKind::Truncated, i.len()));
        }
        let offset = i[0x3c] as usize;
        Self::parse_from_pe_header(i, offset)
    }

    /// The number of sections the section table must hold.
    pub fn number_of_sections(&self) -> (r: u16)
        ensures
            r == self.number_of_sections,
    {
        self.number_of_sections
    }
}

} // verus!

