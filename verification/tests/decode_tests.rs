use elfinspect::decode::{decode, decode_batch, HEADER_LEN};
use elfinspect::encode::encode;
use elfinspect::header::{
    DataEncoding, DecodeError, DecodedHeader, ElfMachineType, FileClass, ObjectType,
};

/// A well-formed little-endian 64-bit executable header for x86-64.
fn sample_buffer() -> Vec<u8> {
    let mut b = vec![0u8; HEADER_LEN];
    b[0] = 0x7f;
    b[1] = 0x45;
    b[2] = 0x4c;
    b[3] = 0x46;
    b[4] = 2; // 64-bit class
    b[5] = 1; // little endian
    b[6] = 1; // header version
    b[16] = 0x02; // object type: executable
    b[17] = 0x00;
    b[18] = 0x3e; // machine: 62
    b[19] = 0x00;
    b[20] = 1; // version = 1
    b[24] = 0x78; // entry point = 0x401078
    b[25] = 0x10;
    b[26] = 0x40;
    b[32] = 0x40; // program header offset = 64
    b[40] = 0x18; // section header offset = 0x1018
    b[41] = 0x10;
    b[52] = 64; // header size
    b[54] = 56; // program header entry size
    b[56] = 2; // program header count
    b[58] = 64; // section header entry size
    b[60] = 5; // section header count
    b[62] = 4; // string table index
    b
}

#[test]
fn decodes_sample_header() {
    let b = sample_buffer();
    let h = decode(&b).expect("sample header must decode");
    assert_eq!(h.class, FileClass::Class64);
    assert_eq!(h.data_encoding, DataEncoding::Little);
    assert_eq!(h.header_version, 1);
    assert_eq!(h.object_type, ObjectType::Executable);
    assert_eq!(h.machine, Some(ElfMachineType::EmAmd64));
    assert_eq!(h.version, 1);
    assert_eq!(h.entry_point, 0x401078);
    assert_eq!(h.program_header_offset, 64);
    assert_eq!(h.section_header_offset, 0x1018);
    assert_eq!(h.flags, 0);
    assert_eq!(h.header_size, 64);
    assert_eq!(h.program_header_entry_size, 56);
    assert_eq!(h.program_header_count, 2);
    assert_eq!(h.section_header_entry_size, 64);
    assert_eq!(h.section_header_count, 5);
    assert_eq!(h.string_table_index, 4);
}

#[test]
fn decode_is_deterministic() {
    let b = sample_buffer();
    let first = decode(&b);
    let second = decode(&b);
    assert_eq!(first, second);
    let copy = b.clone();
    assert_eq!(decode(&copy), first);
}

#[test]
fn bad_signature_is_not_recognized() {
    let mut b = sample_buffer();
    b[1] = 0x00;
    assert_eq!(decode(&b), Err(DecodeError::NotRecognizedFormat));
    // Whatever the remaining content holds, the verdict is the same.
    let mut junk = vec![0xabu8; 200];
    junk[0] = 0x7f;
    junk[1] = 0x45;
    junk[2] = 0x4c;
    junk[3] = 0x47;
    assert_eq!(decode(&junk), Err(DecodeError::NotRecognizedFormat));
    // Too short to even hold a signature: truncated, not unrecognized.
    assert_eq!(decode(&[0x7f, 0x45]), Err(DecodeError::Truncated));
}

#[test]
fn truncated_buffers_are_rejected() {
    let b = sample_buffer();
    for len in [4usize, 16, 63] {
        let cut = &b[..len];
        assert_eq!(decode(cut), Err(DecodeError::Truncated));
    }
    assert_eq!(decode(&[]), Err(DecodeError::Truncated));
    assert!(decode(&b[..HEADER_LEN]).is_ok());
}

#[test]
fn executable_object_type_scenario() {
    // 7F 45 4C 46 02 01 01 ... with object-type bytes 02 00.
    let b = sample_buffer();
    assert_eq!(b[4], 2);
    assert_eq!(b[5], 1);
    assert_eq!(b[6], 1);
    assert_eq!((b[16], b[17]), (0x02, 0x00));
    let h = decode(&b).unwrap();
    assert_eq!(h.object_type, ObjectType::Executable);
}

#[test]
fn object_type_reserved_ranges() {
    let mut b = sample_buffer();
    for (lo, hi, want) in [
        (0x00u8, 0xfeu8, ObjectType::OsSpecific),
        (0xff, 0xfe, ObjectType::OsSpecific),
        (0x00, 0xff, ObjectType::ProcessorSpecific),
        (0xff, 0xff, ObjectType::ProcessorSpecific),
        (0x09, 0x00, ObjectType::Invalid),
        (0x04, 0x00, ObjectType::Core),
        (0x03, 0x00, ObjectType::SharedObject),
        (0x01, 0x00, ObjectType::Relocatable),
        (0x00, 0x00, ObjectType::NoType),
    ] {
        b[16] = lo;
        b[17] = hi;
        assert_eq!(decode(&b).unwrap().object_type, want);
    }
}

#[test]
fn machine_scenario() {
    // Machine bytes 3E 00 (62) resolve to the label for code 62.
    let b = sample_buffer();
    let h = decode(&b).unwrap();
    let m = h.machine.expect("machine 62 is listed");
    assert_eq!(m.as_str(), "AMD64");
    // Machine bytes FF FF: the field is absent, not an error.
    let mut b2 = sample_buffer();
    b2[18] = 0xff;
    b2[19] = 0xff;
    let h2 = decode(&b2).expect("unknown machine is not an error");
    assert_eq!(h2.machine, None);
}

#[test]
fn unknown_class_and_encoding_decode() {
    let mut b = sample_buffer();
    b[4] = 9;
    b[5] = 7;
    let h = decode(&b).unwrap();
    assert_eq!(h.class, FileClass::Unknown);
    assert_eq!(h.data_encoding, DataEncoding::Unknown);
    // An unknown encoding byte is read as little-endian.
    assert_eq!(h.object_type, ObjectType::Executable);
}

#[test]
fn big_endian_buffer_decodes_same_values() {
    // The sample buffer with the data-encoding byte set to big and
    // every multi-byte field byte-order-swapped.
    let le = sample_buffer();
    let mut be = le.clone();
    be[5] = 2;
    let swap = |b: &mut Vec<u8>, off: usize, width: usize| {
        b[off..off + width].reverse();
    };
    swap(&mut be, 16, 2);
    swap(&mut be, 18, 2);
    swap(&mut be, 20, 4);
    swap(&mut be, 24, 8);
    swap(&mut be, 32, 8);
    swap(&mut be, 40, 8);
    swap(&mut be, 48, 4);
    for off in [52usize, 54, 56, 58, 60, 62] {
        swap(&mut be, off, 2);
    }
    let h_le = decode(&le).unwrap();
    let h_be = decode(&be).unwrap();
    assert_eq!(h_le.data_encoding, DataEncoding::Little);
    assert_eq!(h_be.data_encoding, DataEncoding::Big);
    let expected = DecodedHeader {
        data_encoding: DataEncoding::Big,
        ..h_le
    };
    assert_eq!(h_be, expected);
}

#[test]
fn encode_decode_round_trip_little() {
    let h = DecodedHeader {
        class: FileClass::Class64,
        data_encoding: DataEncoding::Little,
        header_version: 1,
        object_type: ObjectType::SharedObject,
        machine: Some(ElfMachineType::EmRiscv),
        version: 1,
        entry_point: 0xdead_beef,
        program_header_offset: 0x1122_3344_5566_7788,
        section_header_offset: 0x0102_0304_0506_0708,
        flags: 0xcafe_f00d,
        header_size: 64,
        program_header_entry_size: 56,
        program_header_count: 9,
        section_header_entry_size: 64,
        section_header_count: 31,
        string_table_index: 30,
    };
    let b = encode(&h);
    assert_eq!(b.len(), 64);
    assert_eq!(decode(&b), Ok(h));
}

#[test]
fn encode_decode_round_trip_big() {
    let h = DecodedHeader {
        class: FileClass::Class32,
        data_encoding: DataEncoding::Big,
        header_version: 1,
        object_type: ObjectType::ProcessorSpecific,
        machine: None,
        version: 0xffff_ffff,
        entry_point: 0xffff_ffff,
        program_header_offset: u64::MAX,
        section_header_offset: 0,
        flags: 0,
        header_size: 0xffff,
        program_header_entry_size: 0,
        program_header_count: 0xffff,
        section_header_entry_size: 1,
        section_header_count: 2,
        string_table_index: 3,
    };
    let b = encode(&h);
    assert_eq!(decode(&b), Ok(h));
}

#[test]
fn encode_writes_declared_layout() {
    let h = decode(&sample_buffer()).unwrap();
    let b = encode(&h);
    // Signature, identification bytes, and the version field's exact bytes.
    assert_eq!(&b[..4], &[0x7f, 0x45, 0x4c, 0x46]);
    assert_eq!(b[4], 2);
    assert_eq!(b[5], 1);
    assert_eq!(b[6], 1);
    assert_eq!(&b[20..24], &[1, 0, 0, 0]);
    assert_eq!(&b[24..32], &[0x78, 0x10, 0x40, 0, 0, 0, 0, 0]);
    // Big-endian encoding flips the multi-byte fields.
    let hb = DecodedHeader {
        data_encoding: DataEncoding::Big,
        ..h
    };
    let bb = encode(&hb);
    assert_eq!(&bb[20..24], &[0, 0, 0, 1]);
    assert_eq!(&bb[24..32], &[0, 0, 0, 0, 0, 0x40, 0x10, 0x78]);
}

#[test]
fn batch_preserves_order_and_outcomes() {
    let good = sample_buffer();
    let mut bad = sample_buffer();
    bad[0] = 0;
    let short = good[..10].to_vec();
    let outcomes = decode_batch(&vec![good.clone(), bad, short]);
    assert_eq!(outcomes.len(), 3);
    assert!(outcomes[0].is_ok());
    assert_eq!(outcomes[1], Err(DecodeError::NotRecognizedFormat));
    assert_eq!(outcomes[2], Err(DecodeError::Truncated));
}
