//! Static catalog resolving raw enumerated field values to their sum
//! types and symbolic labels, and back to canonical codes for encoding.
//! Every lookup is total except the machine table, which is partial by
//! design: an unlisted code is a normal, absent outcome.

use crate::header::{DataEncoding, ElfMachineType, FileClass, ObjectType};
use vstd::prelude::*;

verus! {

/// Class denoted by byte 4 of the header.
pub open spec fn class_of_code(code: int) -> FileClass {
    if code == 1 {
        FileClass::Class32
    } else if code == 2 {
        FileClass::Class64
    } else {
        FileClass::Unknown
    }
}

/// Canonical byte written for a class when a header is encoded.
pub open spec fn class_code(c: FileClass) -> u8 {
    match c {
        FileClass::Unknown => 0,
        FileClass::Class32 => 1,
        FileClass::Class64 => 2,
    }
}

pub fn lookup_class(code: u8) -> (r: FileClass)
    ensures
        r == class_of_code(code as int),
{
    if code == 1 {
        FileClass::Class32
    } else if code == 2 {
        FileClass::Class64
    } else {
        FileClass::Unknown
    }
}

pub fn class_to_code(c: FileClass) -> (r: u8)
    ensures
        r == class_code(c),
{
    match c {
        FileClass::Unknown => 0,
        FileClass::Class32 => 1,
        FileClass::Class64 => 2,
    }
}

pub open spec fn class_label_spec(c: FileClass) -> Seq<char> {
    match c {
        FileClass::Unknown => "Invalid class"@,
        FileClass::Class32 => "32bit architecture"@,
        FileClass::Class64 => "64bit architecture"@,
    }
}

pub fn class_label(c: FileClass) -> (r: &'static str)
    ensures
        r@ == class_label_spec(c),
{
    match c {
        FileClass::Unknown => "Invalid class",
        FileClass::Class32 => "32bit architecture",
        FileClass::Class64 => "64bit architecture",
    }
}

/// Byte order denoted by byte 5 of the header.
pub open spec fn encoding_of_code(code: int) -> DataEncoding {
    if code == 1 {
        DataEncoding::Little
    } else if code == 2 {
        DataEncoding::Big
    } else {
        DataEncoding::Unknown
    }
}

/// Canonical byte written for a data encoding when a header is encoded.
pub open spec fn encoding_code(e: DataEncoding) -> u8 {
    match e {
        DataEncoding::Unknown => 0,
        DataEncoding::Little => 1,
        DataEncoding::Big => 2,
    }
}

pub fn lookup_data_encoding(code: u8) -> (r: DataEncoding)
    ensures
        r == encoding_of_code(code as int),
{
    if code == 1 {
        DataEncoding::Little
    } else if code == 2 {
        DataEncoding::Big
    } else {
        DataEncoding::Unknown
    }
}

pub fn encoding_to_code(e: DataEncoding) -> (r: u8)
    ensures
        r == encoding_code(e),
{
    match e {
        DataEncoding::Unknown => 0,
        DataEncoding::Little => 1,
        DataEncoding::Big => 2,
    }
}

pub open spec fn encoding_label_spec(e: DataEncoding) -> Seq<char> {
    match e {
        DataEncoding::Unknown => "Invalid data"@,
        DataEncoding::Little => "Little endian"@,
        DataEncoding::Big => "Big endian"@,
    }
}

pub fn encoding_label(e: DataEncoding) -> (r: &'static str)
    ensures
        r@ == encoding_label_spec(e),
{
    match e {
        DataEncoding::Unknown => "Invalid data",
        DataEncoding::Little => "Little endian",
        DataEncoding::Big => "Big endian",
    }
}

/// Object type denoted by the 16-bit field at bytes 16..18. The two
/// reserved ranges collapse onto their platform-specific arms; every
/// other unlisted value is representable as `Invalid`, not an error.
pub open spec fn object_type_of_code(code: int) -> ObjectType {
    if code == 0 {
        ObjectType::NoType
    } else if code == 1 {
        ObjectType::Relocatable
    } else if code == 2 {
        ObjectType::Executable
    } else if code == 3 {
        ObjectType::SharedObject
    } else if code == 4 {
        ObjectType::Core
    } else if code == 0xfe00 || code == 0xfeff {
        ObjectType::OsSpecific
    } else if code == 0xff00 || code == 0xffff {
        ObjectType::ProcessorSpecific
    } else {
        ObjectType::Invalid
    }
}

/// Canonical code written for an object type when a header is encoded.
/// Decoding the canonical code yields the same object type again.
pub open spec fn object_type_code(t: ObjectType) -> u16 {
    match t {
        ObjectType::NoType => 0,
        ObjectType::Relocatable => 1,
        ObjectType::Executable => 2,
        ObjectType::SharedObject => 3,
        ObjectType::Core => 4,
        ObjectType::OsSpecific => 0xfe00,
        ObjectType::ProcessorSpecific => 0xff00,
        ObjectType::Invalid => 5,
    }
}

pub proof fn lemma_object_type_code_round_trip(t: ObjectType)
    ensures
        object_type_of_code(object_type_code(t) as int) == t,
{
}

pub fn lookup_object_type(code: u16) -> (r: ObjectType)
    ensures
        r == object_type_of_code(code as int),
{
    if code == 0 {
        ObjectType::NoType
    } else if code == 1 {
        ObjectType::Relocatable
    } else if code == 2 {
        ObjectType::Executable
    } else if code == 3 {
        ObjectType::SharedObject
    } else if code == 4 {
        ObjectType::Core
    } else if code == 0xfe00 || code == 0xfeff {
        ObjectType::OsSpecific
    } else if code == 0xff00 || code == 0xffff {
        ObjectType::ProcessorSpecific
    } else {
        ObjectType::Invalid
    }
}

pub fn object_type_to_code(t: ObjectType) -> (r: u16)
    ensures
        r == object_type_code(t),
{
    match t {
        ObjectType::NoType => 0,
        ObjectType::Relocatable => 1,
        ObjectType::Executable => 2,
        ObjectType::SharedObject => 3,
        ObjectType::Core => 4,
        ObjectType::OsSpecific => 0xfe00,
        ObjectType::ProcessorSpecific => 0xff00,
        ObjectType::Invalid => 5,
    }
}

pub open spec fn object_type_label_spec(t: ObjectType) -> Seq<char> {
    match t {
        ObjectType::NoType => "No file type"@,
        ObjectType::Relocatable => "Relocatable file"@,
        ObjectType::Executable => "Executable file"@,
        ObjectType::SharedObject => "Shared object file"@,
        ObjectType::Core => "Core file"@,
        ObjectType::OsSpecific => "Operating system-specific"@,
        ObjectType::ProcessorSpecific => "Processor-specific"@,
        ObjectType::Invalid => "Invalid type"@,
    }
}

pub fn object_type_label(t: ObjectType) -> (r: &'static str)
    ensures
        r@ == object_type_label_spec(t),
{
    match t {
        ObjectType::NoType => "No file type",
        ObjectType::Relocatable => "Relocatable file",
        ObjectType::Executable => "Executable file",
        ObjectType::SharedObject => "Shared object file",
        ObjectType::Core => "Core file",
        ObjectType::OsSpecific => "Operating system-specific",
        ObjectType::ProcessorSpecific => "Processor-specific",
        ObjectType::Invalid => "Invalid type",
    }
}

/// Machine architecture denoted by the 16-bit field at bytes 18..20.
/// Partial: any code outside the table maps to absence.
pub open spec fn machine_of_code(code: int) -> Option<ElfMachineType> {
    if code == 0 {
        Some(ElfMachineType::EmNone)
    } else if code == 2 {
        Some(ElfMachineType::EmSparc)
    } else if code == 3 {
        Some(ElfMachineType::Em386)
    } else if code == 18 {
        Some(ElfMachineType::EmSparc32PLUS)
    } else if code == 40 {
        Some(ElfMachineType::EmArm)
    } else if code == 62 {
        Some(ElfMachineType::EmAmd64)
    } else if code == 190 {
        Some(ElfMachineType::EmCuda)
    } else if code == 224 {
        Some(ElfMachineType::EmAmdGpu)
    } else if code == 243 {
        Some(ElfMachineType::EmRiscv)
    } else {
        None
    }
}

/// The machine code each listed architecture stands for.
pub open spec fn machine_code(m: ElfMachineType) -> u16 {
    match m {
        ElfMachineType::EmNone => 0,
        ElfMachineType::EmSparc => 2,
        ElfMachineType::Em386 => 3,
        ElfMachineType::EmSparc32PLUS => 18,
        ElfMachineType::EmArm => 40,
        ElfMachineType::EmAmd64 => 62,
        ElfMachineType::EmCuda => 190,
        ElfMachineType::EmAmdGpu => 224,
        ElfMachineType::EmRiscv => 243,
    }
}

pub proof fn lemma_machine_code_round_trip(m: ElfMachineType)
    ensures
        machine_of_code(machine_code(m) as int) == Some(m),
{
}

pub fn lookup_machine(code: u16) -> (r: Option<ElfMachineType>)
    ensures
        r == machine_of_code(code as int),
{
    if code == 0 {
        Some(ElfMachineType::EmNone)
    } else if code == 2 {
        Some(ElfMachineType::EmSparc)
    } else if code == 3 {
        Some(ElfMachineType::Em386)
    } else if code == 18 {
        Some(ElfMachineType::EmSparc32PLUS)
    } else if code == 40 {
        Some(ElfMachineType::EmArm)
    } else if code == 62 {
        Some(ElfMachineType::EmAmd64)
    } else if code == 190 {
        Some(ElfMachineType::EmCuda)
    } else if code == 224 {
        Some(ElfMachineType::EmAmdGpu)
    } else if code == 243 {
        Some(ElfMachineType::EmRiscv)
    } else {
        None
    }
}

pub open spec fn machine_label_spec(m: ElfMachineType) -> Seq<char> {
    match m {
        ElfMachineType::EmNone => "None"@,
        ElfMachineType::EmSparc => "SPARC"@,
        ElfMachineType::Em386 => "x86"@,
        ElfMachineType::EmSparc32PLUS => "SPARC 32+"@,
        ElfMachineType::EmArm => "ARM"@,
        ElfMachineType::EmAmd64 => "AMD64"@,
        ElfMachineType::EmCuda => "CUDA"@,
        ElfMachineType::EmAmdGpu => "AMD GPU"@,
        ElfMachineType::EmRiscv => "RISC-V"@,
    }
}

impl ElfMachineType {
    /// Human-meaningful label of the architecture.
    pub fn as_str(&self) -> (r: &'static str)
        ensures
            r@ == machine_label_spec(*self),
    {
        match *self {
            ElfMachineType::EmNone => "None",
            ElfMachineType::EmSparc => "SPARC",
            ElfMachineType::Em386 => "x86",
            ElfMachineType::EmSparc32PLUS => "SPARC 32+",
            ElfMachineType::EmArm => "ARM",
            ElfMachineType::EmAmd64 => "AMD64",
            ElfMachineType::EmCuda => "CUDA",
            ElfMachineType::EmAmdGpu => "AMD GPU",
            ElfMachineType::EmRiscv => "RISC-V",
        }
    }

    /// The raw machine code this architecture decodes from.
    pub fn code(&self) -> (r: u16)
        ensures
            r == machine_code(*self),
    {
        match *self {
            ElfMachineType::EmNone => 0,
            ElfMachineType::EmSparc => 2,
            ElfMachineType::Em386 => 3,
            ElfMachineType::EmSparc32PLUS => 18,
            ElfMachineType::EmArm => 40,
            ElfMachineType::EmAmd64 => 62,
            ElfMachineType::EmCuda => 190,
            ElfMachineType::EmAmdGpu => 224,
            ElfMachineType::EmRiscv => 243,
        }
    }
}

} // verus!
