//! The typed record that a decoded object-file header is reported as,
//! together with the decoder's error taxonomy.

use vstd::prelude::*;

verus! {

/// Address-space class of the file: byte 4 of the header.
#[derive(Clone, Copy, PartialEq, Eq, Structural, Debug)]
pub enum FileClass {
    Unknown,
    Class32,
    Class64,
}

/// Byte order declared for the file's multi-byte fields: byte 5 of the header.
#[derive(Clone, Copy, PartialEq, Eq, Structural, Debug)]
pub enum DataEncoding {
    Unknown,
    Little,
    Big,
}

/// Purpose of the object file: 16-bit field at bytes 16..18.
#[derive(Clone, Copy, PartialEq, Eq, Structural, Debug)]
pub enum ObjectType {
    NoType,
    Relocatable,
    Executable,
    SharedObject,
    Core,
    OsSpecific,
    ProcessorSpecific,
    Invalid,
}

/// Target instruction-set architectures the catalog knows by name.
/// The table is deliberately partial: an unlisted machine code decodes
/// to an absent machine field, not to an error.
#[derive(Clone, Copy, PartialEq, Eq, Structural, Debug)]
pub enum ElfMachineType {
    EmNone,
    EmSparc,
    Em386,
    EmSparc32PLUS,
    EmArm,
    EmAmd64,
    EmCuda,
    EmAmdGpu,
    EmRiscv,
}

/// Why a buffer could not be decoded. These are the only decode errors:
/// field values themselves are never semantically validated.
#[derive(Clone, Copy, PartialEq, Eq, Structural, Debug)]
pub enum DecodeError {
    /// The first four bytes are not the fixed magic sequence.
    NotRecognizedFormat,
    /// The buffer is too short for some field's byte range.
    Truncated,
}

/// One decoded header: every fixed-offset field of the 64-byte leading
/// structure, enumerated fields already resolved to their sum types.
#[derive(Clone, Copy, PartialEq, Eq, Debug)]
pub struct DecodedHeader {
    pub class: FileClass,
    pub data_encoding: DataEncoding,
    pub header_version: u8,
    pub object_type: ObjectType,
    pub machine: Option<ElfMachineType>,
    pub version: u32,
    pub entry_point: u64,
    pub program_header_offset: u64,
    pub section_header_offset: u64,
    pub flags: u32,
    pub header_size: u16,
    pub program_header_entry_size: u16,
    pub program_header_count: u16,
    pub section_header_entry_size: u16,
    pub section_header_count: u16,
    pub string_table_index: u16,
}

impl DecodedHeader {
    /// Every header the decoder produces satisfies this: the entry-point
    /// field is populated only in its low 32 bits.
    pub open spec fn wf(self) -> bool {
        self.entry_point < 0x1_0000_0000
    }
}

} // verus!
