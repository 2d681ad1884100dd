//! The header decoder: a pure function from a byte buffer to a typed
//! record of header fields, or a decode error.

use crate::bytes::{be32, byte_at, le32, read_u16, read_u32, read_u64, word16, word32, word64};
use crate::catalog::{
    class_of_code, encoding_of_code, lookup_class, lookup_data_encoding, lookup_machine,
    lookup_object_type, machine_of_code, object_type_of_code,
};
use crate::header::{DecodeError, DecodedHeader};
use vstd::prelude::*;

verus! {

/// Number of bytes the fixed-size leading header occupies.
pub const HEADER_LEN: usize = 64;

/// The buffer begins with the fixed magic sequence `7F 45 4C 46`.
pub open spec fn signature_valid(b: Seq<u8>) -> bool {
    b.len() >= 4 && b[0] == 0x7f && b[1] == 0x45 && b[2] == 0x4c && b[3] == 0x46
}

/// Whether the buffer declares big-endian multi-byte fields (byte 5).
/// An unknown encoding byte is read as little-endian.
pub open spec fn declares_big_endian(b: Seq<u8>) -> bool {
    b[5] == 2
}

/// The entry-point field: only the low 32 bits of the 64-bit field at
/// bytes 24..32 are populated, read at that field's least significant end.
pub open spec fn entry_word(b: Seq<u8>, big: bool) -> int {
    if big {
        be32(b, 28)
    } else {
        le32(b, 24)
    }
}

/// The header a well-formed 64-byte (or longer) buffer decodes to:
/// every field read at its declared offset and width, multi-byte fields
/// reconstructed in the byte order the buffer itself declares.
pub open spec fn header_of(b: Seq<u8>) -> DecodedHeader {
    let big = declares_big_endian(b);
    DecodedHeader {
        class: class_of_code(b[4] as int),
        data_encoding: encoding_of_code(b[5] as int),
        header_version: b[6],
        object_type: object_type_of_code(word16(b, 16, big)),
        machine: machine_of_code(word16(b, 18, big)),
        version: word32(b, 20, big) as u32,
        entry_point: entry_word(b, big) as u64,
        program_header_offset: word64(b, 32, big) as u64,
        section_header_offset: word64(b, 40, big) as u64,
        flags: word32(b, 48, big) as u32,
        header_size: word16(b, 52, big) as u16,
        program_header_entry_size: word16(b, 54, big) as u16,
        program_header_count: word16(b, 56, big) as u16,
        section_header_entry_size: word16(b, 58, big) as u16,
        section_header_count: word16(b, 60, big) as u16,
        string_table_index: word16(b, 62, big) as u16,
    }
}

/// What `decode` returns on every buffer. The signature is examined
/// before any field: a buffer too short to hold one is truncated, one
/// whose first four bytes are not the magic is not recognized, and one
/// recognized but shorter than the full header is truncated.
pub open spec fn decode_spec(b: Seq<u8>) -> Result<DecodedHeader, DecodeError> {
    if b.len() < 4 {
        Err(DecodeError::Truncated)
    } else if !signature_valid(b) {
        Err(DecodeError::NotRecognizedFormat)
    } else if b.len() < HEADER_LEN {
        Err(DecodeError::Truncated)
    } else {
        Ok(header_of(b))
    }
}

/// Decode the leading header of `buffer`. Pure: the result is a
/// function of the buffer's bytes alone, and a returned header is
/// well formed.
pub fn decode(buffer: &[u8]) -> (r: Result<DecodedHeader, DecodeError>)
    ensures
        r == decode_spec(buffer@),
        r matches Ok(h) ==> h.wf(),
{
    let n: usize = buffer.len();
    if n < 4 {
        return Err(DecodeError::Truncated);
    }
    if !(byte_at(buffer, 0) == 0x7f && byte_at(buffer, 1) == 0x45 && byte_at(buffer, 2) == 0x4c
        && byte_at(buffer, 3) == 0x46) {
        return Err(DecodeError::NotRecognizedFormat);
    }
    if n < HEADER_LEN {
        return Err(DecodeError::Truncated);
    }
    let big = byte_at(buffer, 5) == 2;
    let entry32 = if big {
        read_u32(buffer, 28, true)
    } else {
        read_u32(buffer, 24, false)
    };
    Ok(
        DecodedHeader {
            class: lookup_class(byte_at(buffer, 4)),
            data_encoding: lookup_data_encoding(byte_at(buffer, 5)),
            header_version: byte_at(buffer, 6),
            object_type: lookup_object_type(read_u16(buffer, 16, big)),
            machine: lookup_machine(read_u16(buffer, 18, big)),
            version: read_u32(buffer, 20, big),
            entry_point: entry32 as u64,
            program_header_offset: read_u64(buffer, 32, big),
            section_header_offset: read_u64(buffer, 40, big),
            flags: read_u32(buffer, 48, big),
            header_size: read_u16(buffer, 52, big),
            program_header_entry_size: read_u16(buffer, 54, big),
            program_header_count: read_u16(buffer, 56, big),
            section_header_entry_size: read_u16(buffer, 58, big),
            section_header_count: read_u16(buffer, 60, big),
            string_table_index: read_u16(buffer, 62, big),
        },
    )
}

/// Decode each buffer of a batch independently, preserving input order:
/// one outcome per buffer, a bad buffer never stopping the others.
pub fn decode_batch(buffers: &Vec<Vec<u8>>) -> (r: Vec<
    Result<DecodedHeader, DecodeError>,
>)
    ensures
        r@.len() == buffers@.len(),
        forall|i: int| 0 <= i < r@.len() ==> r@[i] == decode_spec(buffers@[i]@),
{
    let mut outcomes: Vec<Result<DecodedHeader, DecodeError>> = Vec::new();
    let mut i: usize = 0;
    while i < buffers.len()
        invariant
            i <= buffers@.len(),
            outcomes@.len() == i,
            forall|j: int| 0 <= j < i ==> outcomes@[j] == decode_spec(buffers@[j]@),
        decreases buffers@.len() - i,
    {
        outcomes.push(decode(buffers[i].as_slice()));
        i = i + 1;
    }
    outcomes
}

} // verus!
