use pdbgen::errors::{FieldName, GenError, SymbolName};
use pdbgen::sections::{
    resolve_layout, resolve_section_table, RawSectionTable, SectionArray, StructMember,
};

fn members_of(pairs: &[(&str, u64)]) -> Vec<StructMember> {
    pairs
        .iter()
        .map(|(n, o)| StructMember { name: n.to_string(), offset: *o })
        .collect()
}

/// A deliberately reordered layout with extra members, as a host's type
/// recovery might infer it. Element width 64 with padding.
fn scrambled_members() -> Vec<StructMember> {
    members_of(&[
        ("inferredPad", 44),
        ("virtualSize", 0),
        ("name", 8),
        ("characteristics", 16),
        ("virtualAddress", 20),
        ("sizeOfRawData", 24),
        ("pointerToRawData", 28),
        ("pointerToRelocations", 32),
        ("pointerToLineNumbers", 36),
        ("numberOfRelocations", 40),
        ("numberOfLineNumbers", 42),
        ("anotherExtra", 48),
    ])
}

fn put_u32(buf: &mut [u8], at: usize, v: u32) {
    buf[at..at + 4].copy_from_slice(&v.to_le_bytes());
}

fn put_u16(buf: &mut [u8], at: usize, v: u16) {
    buf[at..at + 2].copy_from_slice(&v.to_le_bytes());
}

fn put_name(buf: &mut [u8], at: usize, name: &[u8]) {
    buf[at..at + name.len()].copy_from_slice(name);
}

struct SectionSpec {
    name: &'static [u8],
    virtual_size: u32,
    virtual_address: u32,
    size_of_raw_data: u32,
    pointer_to_raw_data: u32,
    characteristics: u32,
}

fn build_buffer(specs: &[SectionSpec]) -> Vec<u8> {
    let width = 64usize;
    let mut buf = vec![0u8; width * specs.len()];
    for (i, s) in specs.iter().enumerate() {
        let b = i * width;
        put_u32(&mut buf, b, s.virtual_size);
        put_name(&mut buf, b + 8, s.name);
        put_u32(&mut buf, b + 16, s.characteristics);
        put_u32(&mut buf, b + 20, s.virtual_address);
        put_u32(&mut buf, b + 24, s.size_of_raw_data);
        put_u32(&mut buf, b + 28, s.pointer_to_raw_data);
        put_u32(&mut buf, b + 32, 0x100 + i as u32);
        put_u32(&mut buf, b + 36, 0x200 + i as u32);
        put_u16(&mut buf, b + 40, 5 + i as u16);
        put_u16(&mut buf, b + 42, 6 + i as u16);
    }
    buf
}

fn two_section_array() -> SectionArray {
    let specs = [
        SectionSpec {
            name: b".text\0\0\0",
            virtual_size: 0x2000,
            virtual_address: 0x1000,
            size_of_raw_data: 0x1E00,
            pointer_to_raw_data: 0x400,
            characteristics: 0x60000020,
        },
        SectionSpec {
            name: b".data\0\0\0",
            virtual_size: 0x800,
            virtual_address: 0x4000,
            size_of_raw_data: 0x600,
            pointer_to_raw_data: 0x2200,
            characteristics: 0xC0000040,
        },
    ];
    SectionArray {
        count: 2,
        element_width: 64,
        members: scrambled_members(),
        data: build_buffer(&specs),
    }
}

#[test]
fn layout_tolerates_reordered_and_extra_members() {
    let layout = resolve_layout(&scrambled_members()).unwrap();
    assert_eq!(layout.name, 8);
    assert_eq!(layout.virtual_size, 0);
    assert_eq!(layout.virtual_address, 20);
    assert_eq!(layout.size_of_raw_data, 24);
    assert_eq!(layout.pointer_to_raw_data, 28);
    assert_eq!(layout.pointer_to_relocations, 32);
    assert_eq!(layout.pointer_to_line_numbers, 36);
    assert_eq!(layout.number_of_relocations, 40);
    assert_eq!(layout.number_of_line_numbers, 42);
    assert_eq!(layout.characteristics, 16);
}

#[test]
fn layout_missing_field_is_reported_by_name() {
    let mut pairs: Vec<(&str, u64)> = vec![
        ("virtualSize", 0),
        ("name", 8),
        ("characteristics", 16),
        ("sizeOfRawData", 24),
        ("pointerToRawData", 28),
        ("pointerToRelocations", 32),
        ("pointerToLineNumbers", 36),
        ("numberOfRelocations", 40),
        ("numberOfLineNumbers", 42),
    ];
    let r = resolve_layout(&members_of(&pairs));
    assert_eq!(r.err(), Some(GenError::MissingField(FieldName::VirtualAddress)));
    pairs.clear();
    let r = resolve_layout(&members_of(&pairs));
    assert_eq!(r.err(), Some(GenError::MissingField(FieldName::Name)));
}

#[test]
fn round_trip_with_scrambled_layout() {
    let arr = two_section_array();
    let (descs, headers) = resolve_section_table(&RawSectionTable::Resolved(arr)).unwrap();
    assert_eq!(descs.len(), 2);
    assert_eq!(headers.len(), 2);

    assert_eq!(descs[0].name, ".text");
    assert_eq!(descs[0].index, 1);
    assert_eq!(descs[0].virtual_address, 0x1000);
    assert_eq!(descs[0].virtual_size, 0x2000);
    assert_eq!(descs[0].characteristics, 0x60000020);

    assert_eq!(descs[1].name, ".data");
    assert_eq!(descs[1].index, 2);
    assert_eq!(descs[1].virtual_address, 0x4000);
    assert_eq!(descs[1].virtual_size, 0x800);
    assert_eq!(descs[1].characteristics, 0xC0000040);

    assert_eq!(headers[0].name, b".text\0\0\0".to_vec());
    assert_eq!(headers[0].virtual_size, 0x2000);
    assert_eq!(headers[0].virtual_address, 0x1000);
    assert_eq!(headers[0].size_of_raw_data, 0x1E00);
    assert_eq!(headers[0].pointer_to_raw_data, 0x400);
    assert_eq!(headers[0].pointer_to_relocations, 0x100);
    assert_eq!(headers[0].pointer_to_line_numbers, 0x200);
    assert_eq!(headers[0].number_of_relocations, 5);
    assert_eq!(headers[0].number_of_line_numbers, 6);
    assert_eq!(headers[1].name, b".data\0\0\0".to_vec());
    assert_eq!(headers[1].number_of_relocations, 6);
}

#[test]
fn indices_are_contiguous_from_one() {
    let specs: Vec<SectionSpec> = (0..5)
        .map(|i| SectionSpec {
            name: b".sec\0\0\0\0",
            virtual_size: 0x1000,
            virtual_address: 0x1000 * (i as u32 + 1),
            size_of_raw_data: 0,
            pointer_to_raw_data: 0,
            characteristics: 0,
        })
        .collect();
    let arr = SectionArray {
        count: 5,
        element_width: 64,
        members: scrambled_members(),
        data: build_buffer(&specs),
    };
    let (descs, _) = resolve_section_table(&RawSectionTable::Resolved(arr)).unwrap();
    for (i, d) in descs.iter().enumerate() {
        assert_eq!(d.index as usize, i + 1);
    }
}

#[test]
fn short_buffer_is_io_failure() {
    let mut arr = two_section_array();
    arr.data.truncate(70);
    let r = resolve_section_table(&RawSectionTable::Resolved(arr));
    assert_eq!(r.err(), Some(GenError::IoFailure));
}

#[test]
fn structural_lookup_failures() {
    assert_eq!(
        resolve_section_table(&RawSectionTable::MissingSymbol).err(),
        Some(GenError::MissingSymbol(SymbolName::SectionHeaders))
    );
    assert_eq!(
        resolve_section_table(&RawSectionTable::UnresolvedType).err(),
        Some(GenError::UnresolvedType)
    );
    assert_eq!(
        resolve_section_table(&RawSectionTable::NotAStructure).err(),
        Some(GenError::NotAStructure)
    );
}

#[test]
fn garbled_name_does_not_abort_resolution() {
    let specs = [
        SectionSpec {
            name: &[0xFF, 0xFE, 0xFD, 0, 0, 0, 0, 0],
            virtual_size: 0x100,
            virtual_address: 0x1000,
            size_of_raw_data: 0,
            pointer_to_raw_data: 0,
            characteristics: 0,
        },
        SectionSpec {
            name: b".ok\0\0\0\0\0",
            virtual_size: 0x100,
            virtual_address: 0x2000,
            size_of_raw_data: 0,
            pointer_to_raw_data: 0,
            characteristics: 0,
        },
    ];
    let arr = SectionArray {
        count: 2,
        element_width: 64,
        members: scrambled_members(),
        data: build_buffer(&specs),
    };
    let (descs, _) = resolve_section_table(&RawSectionTable::Resolved(arr)).unwrap();
    assert_eq!(descs[0].name, "<invalid>");
    assert_eq!(descs[1].name, ".ok");
}
