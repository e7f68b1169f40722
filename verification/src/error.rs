//! Structured decode failures.
//!
//! A failed decode produces a [`DecodeError`]: the kind of failure, the byte
//! offset within the original buffer at which the failing sub-decode was
//! attempted, and a chain of named context frames, outermost first, tracing
//! which field inside which structure failed.

use crate::util::{spec_window, HexDump};
use vstd::prelude::*;

verus! {

/// What went wrong, with the offending value where one exists.
#[derive(Clone, Copy, Debug, PartialEq, Eq, Structural)]
pub enum ErrorKind {
    /// The 4-byte PE signature at the header location is wrong.
    BadSignature,
    /// The 2-byte optional-header magic is wrong.
    BadMagic,
    /// A value outside a closed enumeration (the raw code is carried).
    UnrecognizedCode(u64),
    /// A flag value with bits outside the known mask (the raw bits are carried).
    UnrecognizedBits(u64),
    /// A field that must decode as all-zero is non-zero.
    MalformedReservedField,
    /// Fewer bytes remain than a fixed-size record requires.
    Truncated,
    /// A section's declared raw-data range exceeds the buffer.
    OutOfBounds,
}

/// The name of a field or structure whose decode was in progress when a
/// failure occurred.
#[derive(Clone, Copy, Debug, PartialEq, Eq, Structural)]
pub enum Context {
    /// The whole file header, located through the offset stored at byte 0x3C.
    Header,
    /// A magic constant or signature field.
    Magic,
    /// The machine code of the COFF file header.
    Machine,
    /// The section count of the COFF file header.
    NumberOfSections,
    /// The timestamp of the COFF file header.
    TimeDateStamp,
    /// The symbol-table file pointer of the COFF file header.
    PointerToSymbolTable,
    /// The symbol count of the COFF file header.
    NumberOfSymbols,
    /// The optional-header size of the COFF file header.
    SizeOfOptionalHeader,
    /// A characteristics flag field (file or section).
    Characteristics,
    /// The embedded 64-bit optional header.
    OptionalHeader,
    /// The major linker version of the optional header.
    MajorLinkerVersion,
    /// The minor linker version of the optional header.
    MinorLinkerVersion,
    /// The summed code size of the optional header.
    SizeOfCode,
    /// The initialized-data size of the optional header.
    SizeOfInitializedData,
    /// The uninitialized-data size of the optional header.
    SizeOfUninitializedData,
    /// The entry-point address of the optional header.
    AddressOfEntryPoint,
    /// The base-of-code address of the optional header.
    BaseOfCode,
    /// The Windows-specific fields of the optional header.
    Windows,
    /// The preferred image base of the Windows-specific fields.
    ImageBase,
    /// The in-memory section alignment of the Windows-specific fields.
    SectionAlignment,
    /// The on-disk file alignment of the Windows-specific fields.
    FileAlignment,
    /// The major operating-system version of the Windows-specific fields.
    MajorOperatingSystemVersion,
    /// The minor operating-system version of the Windows-specific fields.
    MinorOperatingSystemVersion,
    /// The major image version of the Windows-specific fields.
    MajorImageVersion,
    /// The minor image version of the Windows-specific fields.
    MinorImageVersion,
    /// The major subsystem version of the Windows-specific fields.
    MajorSubsystemVersion,
    /// The minor subsystem version of the Windows-specific fields.
    MinorSubsystemVersion,
    /// The reserved 32-bit version field of the Windows-specific fields.
    Win32VersionValue,
    /// The image size of the Windows-specific fields.
    SizeOfImage,
    /// The headers size of the Windows-specific fields.
    SizeOfHeaders,
    /// The checksum of the Windows-specific fields.
    CheckSum,
    /// The subsystem code of the Windows-specific fields.
    Subsystem,
    /// The DLL characteristics flag field.
    DllCharacteristics,
    /// The stack reserve size of the Windows-specific fields.
    SizeOfStackReserve,
    /// The stack commit size of the Windows-specific fields.
    SizeOfStackCommit,
    /// The heap reserve size of the Windows-specific fields.
    SizeOfHeapReserve,
    /// The heap commit size of the Windows-specific fields.
    SizeOfHeapCommit,
    /// The reserved loader-flags field of the Windows-specific fields.
    LoaderFlags,
    /// The data-directory count of the Windows-specific fields.
    NumberOfRvaAndSizes,
    /// The data-directory table of the optional header.
    DataDirectories,
    /// The export-table slot of the data-directory table.
    ExportTable,
    /// The import-table slot of the data-directory table.
    ImportTable,
    /// The resource-table slot of the data-directory table.
    ResourceTable,
    /// The exception-table slot of the data-directory table.
    ExceptionTable,
    /// The certificate-table slot of the data-directory table.
    CertificateTable,
    /// The base-relocation-table slot of the data-directory table.
    BaseRelocationTable,
    /// The debug-data slot of the data-directory table.
    DebugData,
    /// The reserved architecture slot of the data-directory table.
    Architecture,
    /// The global-pointer slot of the data-directory table.
    GlobalPtr,
    /// The TLS-table slot of the data-directory table.
    TlsTable,
    /// The load-configuration-table slot of the data-directory table.
    LoadConfigTable,
    /// The bound-import slot of the data-directory table.
    BoundImport,
    /// The import-address-table slot of the data-directory table.
    Iat,
    /// The delay-import-descriptor slot of the data-directory table.
    DelayImportDescriptor,
    /// The CLR-runtime-header slot of the data-directory table.
    ClrRuntimeHeader,
    /// The reserved trailing slot of the data-directory table.
    Padding,
    /// The 8-byte name field of a section record.
    Name,
    /// The virtual size of a section record.
    VirtualSize,
    /// The virtual address of a section record.
    VirtualAddress,
    /// The raw-data size of a section record.
    SizeOfRawData,
    /// The relocation file pointer of a section record.
    PointerToRelocations,
    /// The relocation count of a section record.
    NumberOfRelocations,
    /// The deprecated line-number file pointer of a section record.
    PointerToLinenumbers,
    /// The deprecated line-number count of a section record.
    NumberOfLinenumbers,
    /// The raw-data file pointer of a section record.
    PointerToRawData,
}

/// One context frame of a failure: which named field or structure was being
/// decoded, and at which absolute byte offset its decode was attempted.
#[derive(Clone, Copy, Debug, PartialEq, Eq, Structural)]
pub struct Frame {
    pub context: Context,
    pub offset: usize,
}

/// The mathematical value of a [`DecodeError`].
#[verifier::ext_equal]
pub struct ErrV {
    pub kind: ErrorKind,
    pub offset: int,
    pub frames: Seq<Frame>,
}

impl ErrV {
    /// The same failure seen from an enclosing structure: one more context
    /// frame, outermost first.
    pub open spec fn wrap(self, context: Context, offset: int) -> ErrV {
        ErrV { kind: self.kind, offset: self.offset, frames: seq![Frame { context, offset: offset as usize }] + self.frames }
    }
}

/// A bare failure with no context frames.
pub open spec fn err0(kind: ErrorKind, offset: int) -> ErrV {
    ErrV { kind, offset, frames: Seq::empty() }
}

/// A failure with a single context frame naming the failing field.
pub open spec fn err1(kind: ErrorKind, offset: int, context: Context) -> ErrV {
    ErrV { kind, offset, frames: seq![Frame { context, offset: offset as usize }] }
}

/// A failure with a single context frame whose own position differs from the
/// failure offset: `at` is where the named field's decode was attempted,
/// `offset` where the failure lies (for a truncation, the buffer's end).
pub open spec fn err_in(kind: ErrorKind, offset: int, context: Context, at: int) -> ErrV {
    ErrV { kind, offset, frames: seq![Frame { context, offset: at as usize }] }
}

/// A failed decode: the failure kind, the byte offset within the original
/// buffer where the failing sub-decode was attempted, and the chain of named
/// contexts that were active, outermost first.
#[derive(Debug, PartialEq, Eq)]
pub struct DecodeError {
    pub kind: ErrorKind,
    pub offset: usize,
    pub frames: Vec<Frame>,
}

impl View for DecodeError {
    type V = ErrV;

    open spec fn view(&self) -> ErrV {
        ErrV { kind: self.kind, offset: self.offset as int, frames: self.frames@ }
    }
}

impl DecodeError {
    /// A failure with no context frames.
    pub fn new(kind: ErrorKind, offset: usize) -> (r: DecodeError)
        ensures
            r@ == err0(kind, offset as int),
    {
        let r = DecodeError { kind, offset, frames: Vec::new() };
        proof {
            assert(r@ =~= err0(kind, offset as int));
        }
        r
    }

    /// A failure with a single context frame naming the failing field.
    pub fn with_context(kind: ErrorKind, offset: usize, context: Context) -> (r: DecodeError)
        ensures
            r@ == err1(kind, offset as int, context),
    {
        let mut frames: Vec<Frame> = Vec::new();
        frames.push(Frame { context, offset });
        let r = DecodeError { kind, offset, frames };
        proof {
            assert(r@ =~= err1(kind, offset as int, context));
        }
        r
    }

    /// A failure with a single context frame whose own position differs from
    /// the failure offset.
    pub fn with_frame(kind: ErrorKind, offset: usize, context: Context, at: usize) -> (r:
        DecodeError)
        ensures
            r@ == err_in(kind, offset as int, context, at as int),
    {
        let mut frames: Vec<Frame> = Vec::new();
        frames.push(Frame { context, offset: at });
        let r = DecodeError { kind, offset, frames };
        proof {
            assert(r@ =~= err_in(kind, offset as int, context, at as int));
        }
        r
    }

    /// The same failure seen from an enclosing structure: prepends one more
    /// context frame, keeping the chain outermost first.
    pub fn wrap(self, context: Context, offset: usize) -> (r: DecodeError)
        ensures
            r@ == self@.wrap(context, offset as int),
    {
        let ghost old_self = self@;
        let mut frames = self.frames;
        frames.insert(0, Frame { context, offset });
        let r = DecodeError { kind: self.kind, offset: self.offset, frames };
        proof {
            assert(r@.frames =~= old_self.wrap(context, offset as int).frames);
            assert(r@ =~= old_self.wrap(context, offset as int));
        }
        r
    }
}

/// What one diagnostic line reports: a context frame that was active, or the
/// innermost failure itself.
#[derive(Clone, Copy, Debug, PartialEq, Eq, Structural)]
pub enum DiagnosticInfo {
    /// A named context that was active when the failure occurred.
    Frame(Context),
    /// The innermost failure.
    Failure(ErrorKind),
}

/// One entry of the reported diagnostics: what was being decoded (or what
/// failed), the byte offset within the original buffer where it was
/// attempted, and a short hex preview of the bytes there.
#[derive(Clone, Debug, PartialEq, Eq)]
pub struct Diagnostic {
    pub info: DiagnosticInfo,
    pub offset: usize,
    pub preview: HexDump,
}

impl DecodeError {
    /// Expand this failure into its reported diagnostics against the buffer
    /// it arose from: one entry per context frame, outermost first, then one
    /// entry for the innermost failure; each carries a hex preview of the
    /// bytes at its offset.  The list is never empty.
    pub fn diagnostics(&self, i: &[u8]) -> (r: Vec<Diagnostic>)
        ensures
            r@.len() == self@.frames.len() + 1,
            forall|k: int|
                0 <= k < self@.frames.len() ==> {
                    &&& (#[trigger] r@[k]).info == DiagnosticInfo::Frame(self@.frames[k].context)
                    &&& r@[k].offset == self@.frames[k].offset
                    &&& r@[k].preview@ == spec_window(i@, self@.frames[k].offset as int)
                },
            r@.last().info == DiagnosticInfo::Failure(self@.kind),
            r@.last().offset == self@.offset,
            r@.last().preview@ == spec_window(i@, self@.offset as int),
    {
        let mut r: Vec<Diagnostic> = Vec::new();
        let mut k: usize = 0;
        while k < self.frames.len()
            invariant
                k <= self.frames@.len(),
                r@.len() == k,
                forall|j: int|
                    0 <= j < k ==> {
                        &&& (#[trigger] r@[j]).info == DiagnosticInfo::Frame(
                            self.frames@[j].context,
                        )
                        &&& r@[j].offset == self.frames@[j].offset
                        &&& r@[j].preview@ == spec_window(i@, self.frames@[j].offset as int)
                    },
            decreases self.frames@.len() - k,
        {
            let frame = self.frames[k];
            r.push(
                Diagnostic {
                    info: DiagnosticInfo::Frame(frame.context),
                    offset: frame.offset,
                    preview: HexDump::from_window(i, frame.offset),
                },
            );
            k = k + 1;
        }
        r.push(
            Diagnostic {
                info: DiagnosticInfo::Failure(self.kind),
                offset: self.offset,
                preview: HexDump::from_window(i, self.offset),
            },
        );
        r
    }
}

} // verus!
