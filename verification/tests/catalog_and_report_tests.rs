use elfinspect::catalog::{
    class_label, encoding_label, lookup_class, lookup_data_encoding, lookup_machine,
    lookup_object_type, object_type_label,
};
use elfinspect::decode::{decode_batch, HEADER_LEN};
use elfinspect::header::{
    DataEncoding, DecodeError, ElfMachineType, FileClass, ObjectType,
};
use elfinspect::report::{build_report, Cell, FIELD_COUNT};

fn valid_buffer() -> Vec<u8> {
    let mut b = vec![0u8; HEADER_LEN];
    b[0] = 0x7f;
    b[1] = 0x45;
    b[2] = 0x4c;
    b[3] = 0x46;
    b[4] = 2;
    b[5] = 1;
    b[6] = 1;
    b[16] = 0x02;
    b[18] = 0x3e;
    b[20] = 1;
    b[24] = 0x40;
    b[52] = 64;
    b
}

#[test]
fn machine_labels() {
    let table = [
        (ElfMachineType::EmNone, "None"),
        (ElfMachineType::EmSparc, "SPARC"),
        (ElfMachineType::Em386, "x86"),
        (ElfMachineType::EmSparc32PLUS, "SPARC 32+"),
        (ElfMachineType::EmArm, "ARM"),
        (ElfMachineType::EmAmd64, "AMD64"),
        (ElfMachineType::EmCuda, "CUDA"),
        (ElfMachineType::EmAmdGpu, "AMD GPU"),
        (ElfMachineType::EmRiscv, "RISC-V"),
    ];
    for (m, label) in table {
        assert_eq!(m.as_str(), label);
    }
}

#[test]
fn machine_lookup_is_partial() {
    let listed = [
        (0u16, ElfMachineType::EmNone),
        (2, ElfMachineType::EmSparc),
        (3, ElfMachineType::Em386),
        (18, ElfMachineType::EmSparc32PLUS),
        (40, ElfMachineType::EmArm),
        (62, ElfMachineType::EmAmd64),
        (190, ElfMachineType::EmCuda),
        (224, ElfMachineType::EmAmdGpu),
        (243, ElfMachineType::EmRiscv),
    ];
    for (code, m) in listed {
        assert_eq!(lookup_machine(code), Some(m));
        assert_eq!(m.code(), code);
    }
    for code in [1u16, 4, 61, 63, 0xffff] {
        assert_eq!(lookup_machine(code), None);
    }
}

#[test]
fn class_and_encoding_lookups() {
    assert_eq!(lookup_class(1), FileClass::Class32);
    assert_eq!(lookup_class(2), FileClass::Class64);
    assert_eq!(lookup_class(0), FileClass::Unknown);
    assert_eq!(lookup_class(3), FileClass::Unknown);
    assert_eq!(class_label(FileClass::Class32), "32bit architecture");
    assert_eq!(class_label(FileClass::Class64), "64bit architecture");
    assert_eq!(class_label(FileClass::Unknown), "Invalid class");
    assert_eq!(lookup_data_encoding(1), DataEncoding::Little);
    assert_eq!(lookup_data_encoding(2), DataEncoding::Big);
    assert_eq!(lookup_data_encoding(0), DataEncoding::Unknown);
    assert_eq!(encoding_label(DataEncoding::Little), "Little endian");
    assert_eq!(encoding_label(DataEncoding::Big), "Big endian");
    assert_eq!(encoding_label(DataEncoding::Unknown), "Invalid data");
}

#[test]
fn object_type_lookup_and_labels() {
    assert_eq!(lookup_object_type(0), ObjectType::NoType);
    assert_eq!(lookup_object_type(1), ObjectType::Relocatable);
    assert_eq!(lookup_object_type(2), ObjectType::Executable);
    assert_eq!(lookup_object_type(3), ObjectType::SharedObject);
    assert_eq!(lookup_object_type(4), ObjectType::Core);
    assert_eq!(lookup_object_type(0xfe00), ObjectType::OsSpecific);
    assert_eq!(lookup_object_type(0xfeff), ObjectType::OsSpecific);
    assert_eq!(lookup_object_type(0xff00), ObjectType::ProcessorSpecific);
    assert_eq!(lookup_object_type(0xffff), ObjectType::ProcessorSpecific);
    assert_eq!(lookup_object_type(5), ObjectType::Invalid);
    assert_eq!(lookup_object_type(0xfdff), ObjectType::Invalid);
    assert_eq!(object_type_label(ObjectType::NoType), "No file type");
    assert_eq!(object_type_label(ObjectType::Relocatable), "Relocatable file");
    assert_eq!(object_type_label(ObjectType::Executable), "Executable file");
    assert_eq!(object_type_label(ObjectType::SharedObject), "Shared object file");
    assert_eq!(object_type_label(ObjectType::Core), "Core file");
    assert_eq!(
        object_type_label(ObjectType::OsSpecific),
        "Operating system-specific"
    );
    assert_eq!(
        object_type_label(ObjectType::ProcessorSpecific),
        "Processor-specific"
    );
    assert_eq!(object_type_label(ObjectType::Invalid), "Invalid type");
}

#[test]
fn report_tabulates_good_files_and_reports_bad_ones() {
    // Three input files, one with a corrupted signature: the report
    // holds tabulated cells for the two good ones plus one separate
    // not-recognized entry for the third.
    let first = valid_buffer();
    let mut corrupt = valid_buffer();
    corrupt[3] = 0x00;
    let mut third = valid_buffer();
    third[4] = 1;
    third[18] = 0xff;
    third[19] = 0xff;
    let outcomes = decode_batch(&vec![first, corrupt, third]);
    let report = build_report(&outcomes);
    assert_eq!(report.rows.len(), FIELD_COUNT);
    for row in &report.rows {
        assert_eq!(row.cells.len(), 2);
    }
    assert_eq!(report.skipped.len(), 1);
    assert_eq!(report.skipped[0], (1, DecodeError::NotRecognizedFormat));
    assert_eq!(report.rows[0].name, "EI_CLASS");
    assert_eq!(
        report.rows[0].cells[0],
        Cell::Sym("64bit architecture".to_string())
    );
    assert_eq!(
        report.rows[0].cells[1],
        Cell::Sym("32bit architecture".to_string())
    );
    assert_eq!(report.rows[1].name, "EI_DATA");
    assert_eq!(report.rows[1].cells[0], Cell::Sym("Little endian".to_string()));
    assert_eq!(report.rows[4].name, "E_MACHINE");
    assert_eq!(report.rows[4].cells[0], Cell::Sym("AMD64".to_string()));
    // The unlisted machine of the third file leaves its slot absent.
    assert_eq!(report.rows[4].cells[1], Cell::Absent);
    assert_eq!(report.rows[6].name, "E_ENTRY");
    assert_eq!(report.rows[6].cells[0], Cell::Num(0x40));
    assert_eq!(report.rows[10].name, "E_EHSIZE");
    assert_eq!(report.rows[10].cells[0], Cell::Num(64));
}

#[test]
fn report_of_empty_batch_has_empty_rows() {
    let outcomes = decode_batch(&Vec::new());
    let report = build_report(&outcomes);
    assert_eq!(report.rows.len(), FIELD_COUNT);
    for row in &report.rows {
        assert!(row.cells.is_empty());
    }
    assert!(report.skipped.is_empty());
}

#[test]
fn report_keeps_every_error_with_its_position() {
    let good = valid_buffer();
    let mut bad_sig = valid_buffer();
    bad_sig[0] = 1;
    let short = good[..20].to_vec();
    let outcomes = decode_batch(&vec![bad_sig, good, short]);
    let report = build_report(&outcomes);
    assert_eq!(report.rows[0].cells.len(), 1);
    assert_eq!(
        report.skipped,
        vec![
            (0, DecodeError::NotRecognizedFormat),
            (2, DecodeError::Truncated)
        ]
    );
}
