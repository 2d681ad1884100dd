//! Construction of a header buffer from a decoded record: the right
//! inverse of the decoder, writing each field at its declared offset in
//! the byte order the record declares.

use crate::bytes::byte_of;
use crate::catalog::{class_code, encoding_code, machine_code, object_type_code};
use crate::header::{DataEncoding, DecodedHeader};
use vstd::prelude::*;

verus! {

/// The machine code written for the machine slot: the listed code of a
/// known architecture, or an unlisted code for an absent machine (which
/// decodes back to absence).
pub open spec fn machine_slot_code(m: Option<crate::header::ElfMachineType>) -> u16 {
    match m {
        Some(t) => machine_code(t),
        None => 1,
    }
}

/// Byte `k` of a `width`-byte field holding value `v`, in the given
/// byte order: for big-endian the most significant digit comes first.
pub open spec fn field_byte(v: int, k: int, width: int, big: bool) -> u8 {
    if big {
        byte_of(v, (width - 1 - k) as nat)
    } else {
        byte_of(v, k as nat)
    }
}

/// Byte `i` of the encoding of header `h`. Bytes 7..16 are padding.
pub open spec fn encode_byte(h: DecodedHeader, i: int) -> u8 {
    let big = h.data_encoding == DataEncoding::Big;
    if i == 0 {
        0x7f
    } else if i == 1 {
        0x45
    } else if i == 2 {
        0x4c
    } else if i == 3 {
        0x46
    } else if i == 4 {
        class_code(h.class)
    } else if i == 5 {
        encoding_code(h.data_encoding)
    } else if i == 6 {
        h.header_version
    } else if i < 16 {
        0
    } else if i < 18 {
        field_byte(object_type_code(h.object_type) as int, i - 16, 2, big)
    } else if i < 20 {
        field_byte(machine_slot_code(h.machine) as int, i - 18, 2, big)
    } else if i < 24 {
        field_byte(h.version as int, i - 20, 4, big)
    } else if i < 32 {
        field_byte(h.entry_point as int, i - 24, 8, big)
    } else if i < 40 {
        field_byte(h.program_header_offset as int, i - 32, 8, big)
    } else if i < 48 {
        field_byte(h.section_header_offset as int, i - 40, 8, big)
    } else if i < 52 {
        field_byte(h.flags as int, i - 48, 4, big)
    } else if i < 54 {
        field_byte(h.header_size as int, i - 52, 2, big)
    } else if i < 56 {
        field_byte(h.program_header_entry_size as int, i - 54, 2, big)
    } else if i < 58 {
        field_byte(h.program_header_count as int, i - 56, 2, big)
    } else if i < 60 {
        field_byte(h.section_header_entry_size as int, i - 58, 2, big)
    } else if i < 62 {
        field_byte(h.section_header_count as int, i - 60, 2, big)
    } else {
        field_byte(h.string_table_index as int, i - 62, 2, big)
    }
}

/// The 64-byte buffer a header encodes to.
pub open spec fn encode_spec(h: DecodedHeader) -> Seq<u8> {
    Seq::new(64, |i: int| encode_byte(h, i))
}

/// Append the two base-256 digits of `v`, in the given byte order.
fn push_u16(out: &mut Vec<u8>, v: u16, big: bool)
    ensures
        final(out)@.len() == old(out)@.len() + 2,
        forall|k: int|
            0 <= k < 2 ==> final(out)@[old(out)@.len() + k] == field_byte(v as int, k, 2, big),
        forall|k: int| 0 <= k < old(out)@.len() ==> final(out)@[k] == old(out)@[k],
{
    let b0 = (v % 0x100) as u8;
    let b1 = ((v / 0x100) % 0x100) as u8;
    proof {
        reveal_with_fuel(byte_of, 3);
    }
    if big {
        out.push(b1);
        out.push(b0);
    } else {
        out.push(b0);
        out.push(b1);
    }
}

/// Append the four base-256 digits of `v`, in the given byte order.
fn push_u32(out: &mut Vec<u8>, v: u32, big: bool)
    ensures
        final(out)@.len() == old(out)@.len() + 4,
        forall|k: int|
            0 <= k < 4 ==> final(out)@[old(out)@.len() + k] == field_byte(v as int, k, 4, big),
        forall|k: int| 0 <= k < old(out)@.len() ==> final(out)@[k] == old(out)@[k],
{
    let b0 = (v % 0x100) as u8;
    let v1 = v / 0x100;
    let b1 = (v1 % 0x100) as u8;
    let v2 = v1 / 0x100;
    let b2 = (v2 % 0x100) as u8;
    let v3 = v2 / 0x100;
    let b3 = (v3 % 0x100) as u8;
    proof {
        reveal_with_fuel(byte_of, 5);
    }
    if big {
        out.push(b3);
        out.push(b2);
        out.push(b1);
        out.push(b0);
    } else {
        out.push(b0);
        out.push(b1);
        out.push(b2);
        out.push(b3);
    }
}

/// Append the eight base-256 digits of `v`, in the given byte order.
fn push_u64(out: &mut Vec<u8>, v: u64, big: bool)
    ensures
        final(out)@.len() == old(out)@.len() + 8,
        forall|k: int|
            0 <= k < 8 ==> final(out)@[old(out)@.len() + k] == field_byte(v as int, k, 8, big),
        forall|k: int| 0 <= k < old(out)@.len() ==> final(out)@[k] == old(out)@[k],
{
    let b0 = (v % 0x100) as u8;
    let v1 = v / 0x100;
    let b1 = (v1 % 0x100) as u8;
    let v2 = v1 / 0x100;
    let b2 = (v2 % 0x100) as u8;
    let v3 = v2 / 0x100;
    let b3 = (v3 % 0x100) as u8;
    let v4 = v3 / 0x100;
    let b4 = (v4 % 0x100) as u8;
    let v5 = v4 / 0x100;
    let b5 = (v5 % 0x100) as u8;
    let v6 = v5 / 0x100;
    let b6 = (v6 % 0x100) as u8;
    let v7 = v6 / 0x100;
    let b7 = (v7 % 0x100) as u8;
    proof {
        reveal_with_fuel(byte_of, 9);
    }
    if big {
        out.push(b7);
        out.push(b6);
        out.push(b5);
        out.push(b4);
        out.push(b3);
        out.push(b2);
        out.push(b1);
        out.push(b0);
    } else {
        out.push(b0);
        out.push(b1);
        out.push(b2);
        out.push(b3);
        out.push(b4);
        out.push(b5);
        out.push(b6);
        out.push(b7);
    }
}

/// Encode `h` as a 64-byte header buffer.
pub fn encode(h: &DecodedHeader) -> (r: Vec<u8>)
    ensures
        r@ == encode_spec(*h),
        r@.len() == 64,
{
    let big = matches!(h.data_encoding, DataEncoding::Big);
    let mut out: Vec<u8> = Vec::new();
    out.push(0x7f);
    out.push(0x45);
    out.push(0x4c);
    out.push(0x46);
    out.push(crate::catalog::class_to_code(h.class));
    out.push(crate::catalog::encoding_to_code(h.data_encoding));
    out.push(h.header_version);
    let mut pad: usize = 7;
    while pad < 16
        invariant
            7 <= pad <= 16,
            out@.len() == pad,
            forall|k: int| 0 <= k < 7 ==> out@[k] == encode_byte(*h, k),
            forall|k: int| 7 <= k < pad ==> out@[k] == 0,
        decreases 16 - pad,
    {
        out.push(0);
        pad = pad + 1;
    }
    push_u16(&mut out, crate::catalog::object_type_to_code(h.object_type), big);
    push_u16(&mut out, machine_slot(&h.machine), big);
    push_u32(&mut out, h.version, big);
    push_u64(&mut out, h.entry_point, big);
    push_u64(&mut out, h.program_header_offset, big);
    push_u64(&mut out, h.section_header_offset, big);
    push_u32(&mut out, h.flags, big);
    push_u16(&mut out, h.header_size, big);
    push_u16(&mut out, h.program_header_entry_size, big);
    push_u16(&mut out, h.program_header_count, big);
    push_u16(&mut out, h.section_header_entry_size, big);
    push_u16(&mut out, h.section_header_count, big);
    push_u16(&mut out, h.string_table_index, big);
    proof {
        assert(out@ =~= encode_spec(*h));
    }
    out
}

/// The code the machine slot is encoded with.
fn machine_slot(m: &Option<crate::header::ElfMachineType>) -> (r: u16)
    ensures
        r == machine_slot_code(*m),
{
    match m {
        Some(t) => t.code(),
        None => 1,
    }
}

} // verus!
