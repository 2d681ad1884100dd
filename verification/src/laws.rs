//! The decoder's laws, each stated over the specification functions
//! that the executable functions' contracts are written in.

use crate::bytes::{
    be16, be32, byte_of, le16, le32, lemma_recompose16, lemma_recompose32, lemma_recompose64,
    word16, word32, word64,
};
use crate::catalog::{
    lemma_machine_code_round_trip, lemma_object_type_code_round_trip, object_type_code,
};
use crate::decode::{decode_spec, entry_word, header_of, signature_valid};
use crate::encode::{encode_byte, encode_spec, field_byte, machine_slot_code};
use crate::header::{DataEncoding, DecodeError, DecodedHeader};
use vstd::prelude::*;

verus! {

/// Decoding is deterministic: identical buffers yield identical
/// outcomes. The decoder is a pure function of the buffer's bytes.
pub proof fn lemma_decode_deterministic(b1: Seq<u8>, b2: Seq<u8>)
    requires
        b1 == b2,
    ensures
        decode_spec(b1) == decode_spec(b2),
{
}

/// A buffer of at least four bytes whose first four bytes are not the
/// magic sequence is never recognized, whatever the remaining content.
pub proof fn lemma_bad_signature_rejected(b: Seq<u8>)
    requires
        b.len() >= 4,
        !signature_valid(b),
    ensures
        decode_spec(b) == Err::<DecodedHeader, DecodeError>(DecodeError::NotRecognizedFormat),
{
}

/// A buffer shorter than the full header never decodes to a header:
/// no field is ever read out of range.
pub proof fn lemma_short_buffer_rejected(b: Seq<u8>)
    requires
        b.len() < 64,
    ensures
        decode_spec(b) is Err,
        b.len() < 4 || signature_valid(b) ==> decode_spec(b) == Err::<
            DecodedHeader,
            DecodeError,
        >(DecodeError::Truncated),
{
}

proof fn lemma_recompose_field16(v: u16, b: Seq<u8>, off: int, big: bool)
    requires
        0 <= off,
        off + 2 <= b.len(),
        b[off] == field_byte(v as int, 0, 2, big),
        b[off + 1] == field_byte(v as int, 1, 2, big),
    ensures
        word16(b, off, big) == v as int,
{
    reveal_with_fuel(byte_of, 3);
    lemma_recompose16(v as int);
}

proof fn lemma_recompose_field32(v: u32, b: Seq<u8>, off: int, big: bool)
    requires
        0 <= off,
        off + 4 <= b.len(),
        b[off] == field_byte(v as int, 0, 4, big),
        b[off + 1] == field_byte(v as int, 1, 4, big),
        b[off + 2] == field_byte(v as int, 2, 4, big),
        b[off + 3] == field_byte(v as int, 3, 4, big),
    ensures
        word32(b, off, big) == v as int,
{
    reveal_with_fuel(byte_of, 5);
    lemma_recompose32(v as int);
}

proof fn lemma_recompose_field64(v: u64, b: Seq<u8>, off: int, big: bool)
    requires
        0 <= off,
        off + 8 <= b.len(),
        b[off] == field_byte(v as int, 0, 8, big),
        b[off + 1] == field_byte(v as int, 1, 8, big),
        b[off + 2] == field_byte(v as int, 2, 8, big),
        b[off + 3] == field_byte(v as int, 3, 8, big),
        b[off + 4] == field_byte(v as int, 4, 8, big),
        b[off + 5] == field_byte(v as int, 5, 8, big),
        b[off + 6] == field_byte(v as int, 6, 8, big),
        b[off + 7] == field_byte(v as int, 7, 8, big),
    ensures
        word64(b, off, big) == v as int,
{
    reveal_with_fuel(byte_of, 9);
    lemma_recompose64(v as int);
}

/// In an encoded buffer the low 32 bits of the entry-point field sit at
/// the field's least significant end, whichever byte order is declared.
proof fn lemma_recompose_entry(v: u64, b: Seq<u8>, big: bool)
    requires
        b.len() >= 64,
        v < 0x1_0000_0000,
        b[24] == field_byte(v as int, 0, 8, big),
        b[25] == field_byte(v as int, 1, 8, big),
        b[26] == field_byte(v as int, 2, 8, big),
        b[27] == field_byte(v as int, 3, 8, big),
        b[28] == field_byte(v as int, 4, 8, big),
        b[29] == field_byte(v as int, 5, 8, big),
        b[30] == field_byte(v as int, 6, 8, big),
        b[31] == field_byte(v as int, 7, 8, big),
    ensures
        entry_word(b, big) == v as int,
{
    reveal_with_fuel(byte_of, 9);
    lemma_recompose32(v as int);
    if big {
        assert(b[28] == byte_of(v as int, 3));
        assert(b[29] == byte_of(v as int, 2));
        assert(b[30] == byte_of(v as int, 1));
        assert(b[31] == byte_of(v as int, 0));
    }
}

/// Round trip: a buffer constructed by encoding a well-formed header
/// decodes back to exactly that header. Encode and decode form a
/// lawful inverse pair for this header format.
pub proof fn lemma_encode_decode_round_trip(h: DecodedHeader)
    requires
        h.wf(),
    ensures
        decode_spec(encode_spec(h)) == Ok::<DecodedHeader, DecodeError>(h),
{
    let b = encode_spec(h);
    let big = h.data_encoding == DataEncoding::Big;
    assert(b.len() == 64);
    assert(forall|i: int| 0 <= i < 64 ==> b[i] == encode_byte(h, i));
    assert(signature_valid(b));
    assert(b[5] == 2 <==> big);
    lemma_recompose_field16(object_type_code(h.object_type), b, 16, big);
    lemma_object_type_code_round_trip(h.object_type);
    lemma_recompose_field16(machine_slot_code(h.machine), b, 18, big);
    if let Some(m) = h.machine {
        lemma_machine_code_round_trip(m);
    }
    lemma_recompose_field32(h.version, b, 20, big);
    lemma_recompose_entry(h.entry_point, b, big);
    lemma_recompose_field64(h.program_header_offset, b, 32, big);
    lemma_recompose_field64(h.section_header_offset, b, 40, big);
    lemma_recompose_field32(h.flags, b, 48, big);
    lemma_recompose_field16(h.header_size, b, 52, big);
    lemma_recompose_field16(h.program_header_entry_size, b, 54, big);
    lemma_recompose_field16(h.program_header_count, b, 56, big);
    lemma_recompose_field16(h.section_header_entry_size, b, 58, big);
    lemma_recompose_field16(h.section_header_count, b, 60, big);
    lemma_recompose_field16(h.string_table_index, b, 62, big);
    assert(header_of(b) == h);
}

/// The two-byte region at `off` of `b2` is the byte-order swap of the
/// same region of `b1`.
pub open spec fn swapped2(b1: Seq<u8>, b2: Seq<u8>, off: int) -> bool {
    &&& b2[off] == b1[off + 1]
    &&& b2[off + 1] == b1[off]
}

/// The four-byte region at `off` of `b2` is the byte-order swap of the
/// same region of `b1`.
pub open spec fn swapped4(b1: Seq<u8>, b2: Seq<u8>, off: int) -> bool {
    &&& b2[off] == b1[off + 3]
    &&& b2[off + 1] == b1[off + 2]
    &&& b2[off + 2] == b1[off + 1]
    &&& b2[off + 3] == b1[off]
}

/// The eight-byte region at `off` of `b2` is the byte-order swap of the
/// same region of `b1`.
pub open spec fn swapped8(b1: Seq<u8>, b2: Seq<u8>, off: int) -> bool {
    &&& b2[off] == b1[off + 7]
    &&& b2[off + 1] == b1[off + 6]
    &&& b2[off + 2] == b1[off + 5]
    &&& b2[off + 3] == b1[off + 4]
    &&& b2[off + 4] == b1[off + 3]
    &&& b2[off + 5] == b1[off + 2]
    &&& b2[off + 6] == b1[off + 1]
    &&& b2[off + 7] == b1[off]
}

/// Two buffers that differ only in the declared byte order — one
/// little-endian, one big-endian with every multi-byte field
/// byte-order-swapped — decode to the same logical field values; only
/// the reported data encoding differs.
pub proof fn lemma_endianness_agreement(b1: Seq<u8>, b2: Seq<u8>)
    requires
        b1.len() >= 64,
        b2.len() >= 64,
        signature_valid(b1),
        signature_valid(b2),
        b1[5] == 1,
        b2[5] == 2,
        b2[4] == b1[4],
        b2[6] == b1[6],
        swapped2(b1, b2, 16),
        swapped2(b1, b2, 18),
        swapped4(b1, b2, 20),
        swapped8(b1, b2, 24),
        swapped8(b1, b2, 32),
        swapped8(b1, b2, 40),
        swapped4(b1, b2, 48),
        swapped2(b1, b2, 52),
        swapped2(b1, b2, 54),
        swapped2(b1, b2, 56),
        swapped2(b1, b2, 58),
        swapped2(b1, b2, 60),
        swapped2(b1, b2, 62),
    ensures
        decode_spec(b1) matches Ok(h1) && decode_spec(b2) matches Ok(h2) && h2 == (DecodedHeader {
            data_encoding: DataEncoding::Big,
            ..h1
        }),
{
    let h1 = header_of(b1);
    let h2 = header_of(b2);
    assert(be16(b2, 16) == le16(b1, 16));
    assert(be16(b2, 18) == le16(b1, 18));
    assert(be32(b2, 20) == le32(b1, 20));
    assert(be32(b2, 28) == le32(b1, 24));
    assert(word64(b2, 32, true) == word64(b1, 32, false));
    assert(word64(b2, 40, true) == word64(b1, 40, false));
    assert(be32(b2, 48) == le32(b1, 48));
    assert(be16(b2, 52) == le16(b1, 52));
    assert(be16(b2, 54) == le16(b1, 54));
    assert(be16(b2, 56) == le16(b1, 56));
    assert(be16(b2, 58) == le16(b1, 58));
    assert(be16(b2, 60) == le16(b1, 60));
    assert(be16(b2, 62) == le16(b1, 62));
    assert(h2 == (DecodedHeader { data_encoding: DataEncoding::Big, ..h1 }));
}

} // verus!
