use pdbgen::errors::{GenError, SymbolName};
use pdbgen::mapper::{AddressRange, FunctionRecord, SymbolEntry};
use pdbgen::pipeline::generate;
use pdbgen::sections::{RawSectionTable, SectionArray, StructMember};

const IMAGE_BASE: u64 = 0x400000;

fn members() -> Vec<StructMember> {
    let pairs: [(&str, u64); 10] = [
        ("name", 0),
        ("virtualSize", 8),
        ("virtualAddress", 12),
        ("sizeOfRawData", 16),
        ("pointerToRawData", 20),
        ("pointerToRelocations", 24),
        ("pointerToLineNumbers", 28),
        ("numberOfRelocations", 32),
        ("numberOfLineNumbers", 34),
        ("characteristics", 36),
    ];
    pairs.iter().map(|(n, o)| StructMember { name: n.to_string(), offset: *o }).collect()
}

fn one_text_section_table() -> RawSectionTable {
    let mut data = vec![0u8; 40];
    data[0..5].copy_from_slice(b".text");
    data[8..12].copy_from_slice(&0x2000u32.to_le_bytes());
    data[12..16].copy_from_slice(&0x1000u32.to_le_bytes());
    data[36..40].copy_from_slice(&0x60000020u32.to_le_bytes());
    RawSectionTable::Resolved(SectionArray {
        count: 1,
        element_width: 40,
        members: members(),
        data,
    })
}

fn identity_reads() -> (Option<Vec<u8>>, Option<Vec<u8>>, Option<Vec<u8>>) {
    (
        Some(vec![0x00, 0x00, 0x00, 0x5F]),
        Some(vec![3, 0, 0, 0]),
        Some(vec![
            0x00, 0x11, 0x22, 0x33, 0x44, 0x55, 0x66, 0x77, 0x88, 0x99, 0xAA, 0xBB, 0xCC, 0xDD,
            0xEE, 0xFF,
        ]),
    )
}

#[test]
fn whole_run_end_to_end() {
    let (ts, age, guid) = identity_reads();
    let functions = vec![FunctionRecord {
        name: String::from("main"),
        ranges: vec![AddressRange { start: IMAGE_BASE + 0x1200, end: IMAGE_BASE + 0x1210 }],
    }];
    let m = generate(ts, age, guid, &one_text_section_table(), &functions, IMAGE_BASE).unwrap();

    assert_eq!(m.identity.age, 3);
    assert_eq!(m.identity.timestamp, 0x5F000000);
    assert_eq!(m.identity.guid[0], 0x00);
    assert_eq!(m.identity.guid[15], 0xFF);

    assert_eq!(m.sections.len(), 1);
    assert_eq!(m.sections[0].name, ".text");
    assert_eq!(m.sections[0].index, 1);
    assert_eq!(m.headers.len(), 1);
    assert_eq!(m.headers[0].virtual_address, 0x1000);

    assert_eq!(m.modules.len(), 1);
    assert_eq!(m.modules[0].name, ".text_module");
    assert_eq!(m.modules[0].symbols.len(), 2);
    match &m.modules[0].symbols[0] {
        SymbolEntry::Procedure { name, code_offset, section_index, code_size, end } => {
            assert_eq!(name, "main");
            assert_eq!(*code_offset, 0x200);
            assert_eq!(*section_index, 1);
            assert_eq!(*code_size, 0x10);
            assert_eq!(*end, 1);
        },
        SymbolEntry::ProcedureEnd => panic!("expected a begin-procedure record"),
    }

    assert_eq!(m.publics.len(), 1);
    assert_eq!(m.publics[0].name, "main");
}

#[test]
fn identity_failures_come_before_section_failures() {
    let functions: Vec<FunctionRecord> = vec![];
    let r = generate(None, None, None, &RawSectionTable::MissingSymbol, &functions, IMAGE_BASE);
    assert_eq!(r.err(), Some(GenError::MissingSymbol(SymbolName::CoffHeader)));
}

#[test]
fn section_failure_aborts_whole_run() {
    let (ts, age, guid) = identity_reads();
    let functions: Vec<FunctionRecord> = vec![];
    let r = generate(ts, age, guid, &RawSectionTable::NotAStructure, &functions, IMAGE_BASE);
    assert_eq!(r.err(), Some(GenError::NotAStructure));
}
