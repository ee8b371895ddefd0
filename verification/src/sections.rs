use vstd::prelude::*;
use vstd::bytes::{spec_u16_from_le_bytes, spec_u32_from_le_bytes, u16_from_le_bytes, u32_from_le_bytes};
use vstd::slice::{slice_subrange, slice_to_vec};

use crate::errors::{FieldName, GenError, SymbolName};
use crate::text::{decode_section_name, spec_section_name};

verus! {

/// One member of the host's recovered structure definition for a
/// section-header element: a field name and its byte offset.
pub struct StructMember {
    pub name: String,
    pub offset: u64,
}

/// The byte offset of every field the resolver reads from one
/// section-header element, looked up by name from the host's recovered
/// type. Built once per run and threaded into every element read.
pub struct FieldLayout {
    pub name: u64,
    pub virtual_size: u64,
    pub virtual_address: u64,
    pub size_of_raw_data: u64,
    pub pointer_to_raw_data: u64,
    pub pointer_to_relocations: u64,
    pub pointer_to_line_numbers: u64,
    pub number_of_relocations: u64,
    pub number_of_line_numbers: u64,
    pub characteristics: u64,
}

/// A normalized section descriptor: what the function mapper needs to place
/// address ranges. `index` is 1-based discovery order; 0 is reserved by the
/// container format for "no section".
pub struct SectionDescriptor {
    pub name: String,
    pub index: u16,
    pub virtual_address: u32,
    pub virtual_size: u32,
    pub characteristics: u32,
}

/// One ready-to-serialize on-disk section-header record, with the raw
/// fixed-width name bytes.
pub struct SectionHeaderRecord {
    pub name: Vec<u8>,
    pub virtual_size: u32,
    pub virtual_address: u32,
    pub size_of_raw_data: u32,
    pub pointer_to_raw_data: u32,
    pub pointer_to_relocations: u32,
    pub pointer_to_line_numbers: u32,
    pub number_of_relocations: u16,
    pub number_of_line_numbers: u16,
    pub characteristics: u32,
}

/// The raw section-header array as the host handed it over: the element
/// count and element byte width from the recovered array type, the recovered
/// structure members, and the array's bytes.
pub struct SectionArray {
    pub count: u64,
    pub element_width: u64,
    pub members: Vec<StructMember>,
    pub data: Vec<u8>,
}

/// What the host's lookup of the section-header array produced. The first
/// three variants record which structural lookup failed; only `Resolved`
/// carries data.
pub enum RawSectionTable {
    MissingSymbol,
    UnresolvedType,
    NotAStructure,
    Resolved(SectionArray),
}

/// The key under which one logical field appears in the host's recovered
/// structure.
pub open spec fn spec_field_key(f: FieldName) -> Seq<char> {
    match f {
        FieldName::Name => "name"@,
        FieldName::VirtualSize => "virtualSize"@,
        FieldName::VirtualAddress => "virtualAddress"@,
        FieldName::SizeOfRawData => "sizeOfRawData"@,
        FieldName::PointerToRawData => "pointerToRawData"@,
        FieldName::PointerToRelocations => "pointerToRelocations"@,
        FieldName::PointerToLineNumbers => "pointerToLineNumbers"@,
        FieldName::NumberOfRelocations => "numberOfRelocations"@,
        FieldName::NumberOfLineNumbers => "numberOfLineNumbers"@,
        FieldName::Characteristics => "characteristics"@,
    }
}

fn field_key(f: &FieldName) -> (r: String)
    ensures
        r@ == spec_field_key(*f),
{
    match f {
        FieldName::Name => "name".to_owned(),
        FieldName::VirtualSize => "virtualSize".to_owned(),
        FieldName::VirtualAddress => "virtualAddress".to_owned(),
        FieldName::SizeOfRawData => "sizeOfRawData".to_owned(),
        FieldName::PointerToRawData => "pointerToRawData".to_owned(),
        FieldName::PointerToRelocations => "pointerToRelocations".to_owned(),
        FieldName::PointerToLineNumbers => "pointerToLineNumbers".to_owned(),
        FieldName::NumberOfRelocations => "numberOfRelocations".to_owned(),
        FieldName::NumberOfLineNumbers => "numberOfLineNumbers".to_owned(),
        FieldName::Characteristics => "characteristics".to_owned(),
    }
}

/// The offset of the first member called `key`, in member order.
pub open spec fn spec_find_offset(members: Seq<StructMember>, key: Seq<char>) -> Option<u64>
    decreases members.len(),
{
    if members.len() == 0 {
        None
    } else if members[0].name@ == key {
        Some(members[0].offset)
    } else {
        spec_find_offset(members.drop_first(), key)
    }
}

/// The resolved offset of one logical field, if the host's structure has it.
pub open spec fn spec_offset_of(members: Seq<StructMember>, f: FieldName) -> Option<u64> {
    spec_find_offset(members, spec_field_key(f))
}

/// Whether every field the resolver requires is present.
pub open spec fn spec_layout_complete(members: Seq<StructMember>) -> bool {
    &&& spec_offset_of(members, FieldName::Name) is Some
    &&& spec_offset_of(members, FieldName::VirtualSize) is Some
    &&& spec_offset_of(members, FieldName::VirtualAddress) is Some
    &&& spec_offset_of(members, FieldName::SizeOfRawData) is Some
    &&& spec_offset_of(members, FieldName::PointerToRawData) is Some
    &&& spec_offset_of(members, FieldName::PointerToRelocations) is Some
    &&& spec_offset_of(members, FieldName::PointerToLineNumbers) is Some
    &&& spec_offset_of(members, FieldName::NumberOfRelocations) is Some
    &&& spec_offset_of(members, FieldName::NumberOfLineNumbers) is Some
    &&& spec_offset_of(members, FieldName::Characteristics) is Some
}

/// The layout a complete member list resolves to.
pub open spec fn spec_layout_of(members: Seq<StructMember>) -> FieldLayout {
    FieldLayout {
        name: spec_offset_of(members, FieldName::Name)->Some_0,
        virtual_size: spec_offset_of(members, FieldName::VirtualSize)->Some_0,
        virtual_address: spec_offset_of(members, FieldName::VirtualAddress)->Some_0,
        size_of_raw_data: spec_offset_of(members, FieldName::SizeOfRawData)->Some_0,
        pointer_to_raw_data: spec_offset_of(members, FieldName::PointerToRawData)->Some_0,
        pointer_to_relocations: spec_offset_of(members, FieldName::PointerToRelocations)->Some_0,
        pointer_to_line_numbers: spec_offset_of(members, FieldName::PointerToLineNumbers)->Some_0,
        number_of_relocations: spec_offset_of(members, FieldName::NumberOfRelocations)->Some_0,
        number_of_line_numbers: spec_offset_of(members, FieldName::NumberOfLineNumbers)->Some_0,
        characteristics: spec_offset_of(members, FieldName::Characteristics)->Some_0,
    }
}

fn find_field(members: &Vec<StructMember>, f: FieldName) -> (r: Result<u64, GenError>)
    ensures
        r matches Ok(o) ==> spec_offset_of(members@, f) == Some(o),
        r is Err ==> r == Err::<u64, GenError>(GenError::MissingField(f)) && spec_offset_of(
            members@,
            f,
        ) is None,
{
    let key = field_key(&f);
    let mut i: usize = 0;
    proof {
        assert(members@.skip(0) =~= members@);
    }
    while i < members.len()
        invariant
            i <= members@.len(),
            key@ == spec_field_key(f),
            spec_find_offset(members@, key@) == spec_find_offset(members@.skip(i as int), key@),
        decreases members@.len() - i,
    {
        proof {
            assert(members@.skip(i as int)[0] == members@[i as int]);
            assert(members@.skip(i as int).drop_first() =~= members@.skip(i + 1));
        }
        let m = &members[i];
        if m.name == key {
            return Ok(m.offset);
        }
        i = i + 1;
    }
    proof {
        assert(members@.skip(members@.len() as int) =~= Seq::<StructMember>::empty());
    }
    Err(GenError::MissingField(f))
}

/// Resolves the byte offset of every required field from the host's
/// recovered structure members. Fails with the first missing field, in the
/// order the elements are later read; extra or reordered members are
/// harmless, only the named offsets matter.
pub fn resolve_layout(members: &Vec<StructMember>) -> (r: Result<FieldLayout, GenError>)
    ensures
        r is Ok <==> spec_layout_complete(members@),
        r matches Ok(l) ==> l == spec_layout_of(members@),
        r is Err ==> r == Err::<FieldLayout, GenError>(
            GenError::MissingField(spec_first_missing_field(members@)),
        ),
{
    let name = match find_field(members, FieldName::Name) {
        Ok(v) => v,
        Err(e) => {
            return Err(e);
        },
    };
    let virtual_size = match find_field(members, FieldName::VirtualSize) {
        Ok(v) => v,
        Err(e) => {
            return Err(e);
        },
    };
    let virtual_address = match find_field(members, FieldName::VirtualAddress) {
        Ok(v) => v,
        Err(e) => {
            return Err(e);
        },
    };
    let size_of_raw_data = match find_field(members, FieldName::SizeOfRawData) {
        Ok(v) => v,
        Err(e) => {
            return Err(e);
        },
    };
    let pointer_to_raw_data = match find_field(members, FieldName::PointerToRawData) {
        Ok(v) => v,
        Err(e) => {
            return Err(e);
        },
    };
    let pointer_to_relocations = match find_field(members, FieldName::PointerToRelocations) {
        Ok(v) => v,
        Err(e) => {
            return Err(e);
        },
    };
    let pointer_to_line_numbers = match find_field(members, FieldName::PointerToLineNumbers) {
        Ok(v) => v,
        Err(e) => {
            return Err(e);
        },
    };
    let number_of_relocations = match find_field(members, FieldName::NumberOfRelocations) {
        Ok(v) => v,
        Err(e) => {
            return Err(e);
        },
    };
    let number_of_line_numbers = match find_field(members, FieldName::NumberOfLineNumbers) {
        Ok(v) => v,
        Err(e) => {
            return Err(e);
        },
    };
    let characteristics = match find_field(members, FieldName::Characteristics) {
        Ok(v) => v,
        Err(e) => {
            return Err(e);
        },
    };
    Ok(
        FieldLayout {
            name,
            virtual_size,
            virtual_address,
            size_of_raw_data,
            pointer_to_raw_data,
            pointer_to_relocations,
            pointer_to_line_numbers,
            number_of_relocations,
            number_of_line_numbers,
            characteristics,
        },
    )
}

/// The first required field missing from the member list, in read order.
/// Meaningful only when the layout is incomplete.
pub open spec fn spec_first_missing_field(members: Seq<StructMember>) -> FieldName {
    if spec_offset_of(members, FieldName::Name) is None {
        FieldName::Name
    } else if spec_offset_of(members, FieldName::VirtualSize) is None {
        FieldName::VirtualSize
    } else if spec_offset_of(members, FieldName::VirtualAddress) is None {
        FieldName::VirtualAddress
    } else if spec_offset_of(members, FieldName::SizeOfRawData) is None {
        FieldName::SizeOfRawData
    } else if spec_offset_of(members, FieldName::PointerToRawData) is None {
        FieldName::PointerToRawData
    } else if spec_offset_of(members, FieldName::PointerToRelocations) is None {
        FieldName::PointerToRelocations
    } else if spec_offset_of(members, FieldName::PointerToLineNumbers) is None {
        FieldName::PointerToLineNumbers
    } else if spec_offset_of(members, FieldName::NumberOfRelocations) is None {
        FieldName::NumberOfRelocations
    } else if spec_offset_of(members, FieldName::NumberOfLineNumbers) is None {
        FieldName::NumberOfLineNumbers
    } else {
        FieldName::Characteristics
    }
}

/// Whether element bytes starting at `base` hold every required field read.
pub open spec fn spec_elem_fits(len: int, base: int, l: FieldLayout) -> bool {
    &&& base + l.name + 8 <= len
    &&& base + l.virtual_size + 4 <= len
    &&& base + l.virtual_address + 4 <= len
    &&& base + l.size_of_raw_data + 4 <= len
    &&& base + l.pointer_to_raw_data + 4 <= len
    &&& base + l.pointer_to_relocations + 4 <= len
    &&& base + l.pointer_to_line_numbers + 4 <= len
    &&& base + l.number_of_relocations + 2 <= len
    &&& base + l.number_of_line_numbers + 2 <= len
    &&& base + l.characteristics + 4 <= len
}

/// Whether the `i`-th element of an array of `width`-byte elements fits.
pub open spec fn elem_fits_at(len: int, width: u64, l: FieldLayout, i: int) -> bool {
    spec_elem_fits(len, i * width, l)
}

/// The little-endian 4-byte field at `base + off`.
pub open spec fn spec_u32_field(data: Seq<u8>, base: int, off: u64) -> u32 {
    spec_u32_from_le_bytes(data.subrange(base + off, base + off + 4))
}

/// The little-endian 2-byte field at `base + off`.
pub open spec fn spec_u16_field(data: Seq<u8>, base: int, off: u64) -> u16 {
    spec_u16_from_le_bytes(data.subrange(base + off, base + off + 2))
}

/// The raw 8-byte name field of the element at `base`.
pub open spec fn spec_name_bytes(data: Seq<u8>, base: int, l: FieldLayout) -> Seq<u8> {
    data.subrange(base + l.name, base + l.name + 8)
}

/// What one on-disk header record must hold for the element at `base`.
pub open spec fn header_matches(h: SectionHeaderRecord, data: Seq<u8>, base: int, l: FieldLayout) -> bool {
    &&& h.name@ == spec_name_bytes(data, base, l)
    &&& h.virtual_size == spec_u32_field(data, base, l.virtual_size)
    &&& h.virtual_address == spec_u32_field(data, base, l.virtual_address)
    &&& h.size_of_raw_data == spec_u32_field(data, base, l.size_of_raw_data)
    &&& h.pointer_to_raw_data == spec_u32_field(data, base, l.pointer_to_raw_data)
    &&& h.pointer_to_relocations == spec_u32_field(data, base, l.pointer_to_relocations)
    &&& h.pointer_to_line_numbers == spec_u32_field(data, base, l.pointer_to_line_numbers)
    &&& h.number_of_relocations == spec_u16_field(data, base, l.number_of_relocations)
    &&& h.number_of_line_numbers == spec_u16_field(data, base, l.number_of_line_numbers)
    &&& h.characteristics == spec_u32_field(data, base, l.characteristics)
}

/// What one descriptor must hold for the `i`-th element at `base`: decoded
/// name, 1-based index in discovery order, and the mapper-relevant fields.
pub open spec fn descriptor_matches(
    d: SectionDescriptor,
    data: Seq<u8>,
    base: int,
    l: FieldLayout,
    i: int,
) -> bool {
    &&& d.name@ == spec_section_name(spec_name_bytes(data, base, l))
    &&& d.index == i + 1
    &&& d.virtual_address == spec_u32_field(data, base, l.virtual_address)
    &&& d.virtual_size == spec_u32_field(data, base, l.virtual_size)
    &&& d.characteristics == spec_u32_field(data, base, l.characteristics)
}

fn read_bytes_at(data: &Vec<u8>, base: u128, off: u64, width: u64) -> (r: Option<Vec<u8>>)
    requires
        width <= 8,
        base <= 0xFFFF * (u64::MAX as u128),
    ensures
        r is Some <==> base + off + width <= data@.len(),
        r matches Some(v) ==> v@ == data@.subrange((base + off) as int, (base + off + width) as int),
{
    let start: u128 = base + off as u128;
    let need: u128 = start + width as u128;
    if need <= data.len() as u128 {
        let s = slice_subrange(data.as_slice(), start as usize, need as usize);
        Some(slice_to_vec(s))
    } else {
        None
    }
}

fn read_u32_at(data: &Vec<u8>, base: u128, off: u64) -> (r: Option<u32>)
    requires
        base <= 0xFFFF * (u64::MAX as u128),
    ensures
        r is Some <==> base + off + 4 <= data@.len(),
        r matches Some(v) ==> v == spec_u32_field(data@, base as int, off),
{
    let start: u128 = base + off as u128;
    let need: u128 = start + 4;
    if need <= data.len() as u128 {
        let s = slice_subrange(data.as_slice(), start as usize, need as usize);
        Some(u32_from_le_bytes(s))
    } else {
        None
    }
}

fn read_u16_at(data: &Vec<u8>, base: u128, off: u64) -> (r: Option<u16>)
    requires
        base <= 0xFFFF * (u64::MAX as u128),
    ensures
        r is Some <==> base + off + 2 <= data@.len(),
        r matches Some(v) ==> v == spec_u16_field(data@, base as int, off),
{
    let start: u128 = base + off as u128;
    let need: u128 = start + 2;
    if need <= data.len() as u128 {
        let s = slice_subrange(data.as_slice(), start as usize, need as usize);
        Some(u16_from_le_bytes(s))
    } else {
        None
    }
}

/// Reads every element of the section-header array through the resolved
/// layout, producing the normalized descriptors (indexed 1-based in
/// discovery order) and the parallel on-disk header records. Any field read
/// outside the array bytes fails the whole resolution.
pub fn parse_sections(data: &Vec<u8>, count: u64, width: u64, layout: &FieldLayout) -> (r: Result<
    (Vec<SectionDescriptor>, Vec<SectionHeaderRecord>),
    GenError,
>)
    requires
        count <= 0xFFFF,
    ensures
        r is Ok <==> (forall|i: int|
            0 <= i < count ==> #[trigger] elem_fits_at(data@.len() as int, width, *layout, i)),
        r matches Ok(p) ==> p.0@.len() == count && p.1@.len() == count && (forall|i: int|
            0 <= i < count ==> descriptor_matches(#[trigger] p.0@[i], data@, i * width, *layout, i))
            && (forall|i: int|
            0 <= i < count ==> header_matches(#[trigger] p.1@[i], data@, i * width, *layout)),
        r is Err ==> r == Err::<(Vec<SectionDescriptor>, Vec<SectionHeaderRecord>), GenError>(
            GenError::IoFailure,
        ),
{
    let mut descs: Vec<SectionDescriptor> = Vec::new();
    let mut headers: Vec<SectionHeaderRecord> = Vec::new();
    let mut i: u64 = 0;
    let mut base: u128 = 0;
    while i < count
        invariant
            i <= count,
            count <= 0xFFFF,
            base == i as int * width as int,
            descs@.len() == i,
            headers@.len() == i,
            forall|j: int| 0 <= j < i ==> #[trigger] elem_fits_at(data@.len() as int, width, *layout, j),
            forall|j: int|
                0 <= j < i ==> descriptor_matches(#[trigger] descs@[j], data@, j * width, *layout, j),
            forall|j: int| 0 <= j < i ==> header_matches(#[trigger] headers@[j], data@, j * width, *layout),
        decreases count - i,
    {
        proof {
            vstd::arithmetic::mul::lemma_mul_inequality(i as int, 0xFFFF, width as int);
        }
        let name_bytes = match read_bytes_at(data, base, layout.name, 8) {
            Some(v) => v,
            None => {
                proof {
                    assert(!elem_fits_at(data@.len() as int, width, *layout, i as int));
                }
                return Err(GenError::IoFailure);
            },
        };
        let virtual_size = match read_u32_at(data, base, layout.virtual_size) {
            Some(v) => v,
            None => {
                proof {
                    assert(!elem_fits_at(data@.len() as int, width, *layout, i as int));
                }
                return Err(GenError::IoFailure);
            },
        };
        let virtual_address = match read_u32_at(data, base, layout.virtual_address) {
            Some(v) => v,
            None => {
                proof {
                    assert(!elem_fits_at(data@.len() as int, width, *layout, i as int));
                }
                return Err(GenError::IoFailure);
            },
        };
        let size_of_raw_data = match read_u32_at(data, base, layout.size_of_raw_data) {
            Some(v) => v,
            None => {
                proof {
                    assert(!elem_fits_at(data@.len() as int, width, *layout, i as int));
                }
                return Err(GenError::IoFailure);
            },
        };
        let pointer_to_raw_data = match read_u32_at(data, base, layout.pointer_to_raw_data) {
            Some(v) => v,
            None => {
                proof {
                    assert(!elem_fits_at(data@.len() as int, width, *layout, i as int));
                }
                return Err(GenError::IoFailure);
            },
        };
        let pointer_to_relocations = match read_u32_at(data, base, layout.pointer_to_relocations) {
            Some(v) => v,
            None => {
                proof {
                    assert(!elem_fits_at(data@.len() as int, width, *layout, i as int));
                }
                return Err(GenError::IoFailure);
            },
        };
        let pointer_to_line_numbers = match read_u32_at(data, base, layout.pointer_to_line_numbers) {
            Some(v) => v,
            None => {
                proof {
                    assert(!elem_fits_at(data@.len() as int, width, *layout, i as int));
                }
                return Err(GenError::IoFailure);
            },
        };
        let number_of_relocations = match read_u16_at(data, base, layout.number_of_relocations) {
            Some(v) => v,
            None => {
                proof {
                    assert(!elem_fits_at(data@.len() as int, width, *layout, i as int));
                }
                return Err(GenError::IoFailure);
            },
        };
        let number_of_line_numbers = match read_u16_at(data, base, layout.number_of_line_numbers) {
            Some(v) => v,
            None => {
                proof {
                    assert(!elem_fits_at(data@.len() as int, width, *layout, i as int));
                }
                return Err(GenError::IoFailure);
            },
        };
        let characteristics = match read_u32_at(data, base, layout.characteristics) {
            Some(v) => v,
            None => {
                proof {
                    assert(!elem_fits_at(data@.len() as int, width, *layout, i as int));
                }
                return Err(GenError::IoFailure);
            },
        };
        let name = decode_section_name(&name_bytes);
        descs.push(
            SectionDescriptor {
                name,
                index: (i as u16) + 1,
                virtual_address,
                virtual_size,
                characteristics,
            },
        );
        headers.push(
            SectionHeaderRecord {
                name: name_bytes,
                virtual_size,
                virtual_address,
                size_of_raw_data,
                pointer_to_raw_data,
                pointer_to_relocations,
                pointer_to_line_numbers,
                number_of_relocations,
                number_of_line_numbers,
                characteristics,
            },
        );
        proof {
            assert(elem_fits_at(data@.len() as int, width, *layout, i as int));
            assert((i + 1) as int * width as int == i as int * width as int + width as int) by (nonlinear_arith);
        }
        i = i + 1;
        base = base + width as u128;
    }
    Ok((descs, headers))
}

/// Resolves the section table end to end: maps each structural-lookup
/// failure to its error, resolves the field layout, and reads every element.
/// All-or-nothing: no partial section list is ever produced.
pub fn resolve_section_table(input: &RawSectionTable) -> (r: Result<
    (Vec<SectionDescriptor>, Vec<SectionHeaderRecord>),
    GenError,
>)
    requires
        input matches RawSectionTable::Resolved(a) ==> a.count <= 0xFFFF,
    ensures
        input is MissingSymbol ==> r == Err::<(Vec<SectionDescriptor>, Vec<SectionHeaderRecord>), GenError>(
            GenError::MissingSymbol(SymbolName::SectionHeaders),
        ),
        input is UnresolvedType ==> r == Err::<(Vec<SectionDescriptor>, Vec<SectionHeaderRecord>), GenError>(
            GenError::UnresolvedType,
        ),
        input is NotAStructure ==> r == Err::<(Vec<SectionDescriptor>, Vec<SectionHeaderRecord>), GenError>(
            GenError::NotAStructure,
        ),
        input matches RawSectionTable::Resolved(a) ==> ({
            let l = spec_layout_of(a.members@);
            &&& !spec_layout_complete(a.members@) ==> r == Err::<
                (Vec<SectionDescriptor>, Vec<SectionHeaderRecord>),
                GenError,
            >(GenError::MissingField(spec_first_missing_field(a.members@)))
            &&& spec_layout_complete(a.members@) ==> {
                &&& r is Ok <==> (forall|i: int|
                    0 <= i < a.count ==> #[trigger] elem_fits_at(a.data@.len() as int, a.element_width, l, i))
                &&& r is Err ==> r == Err::<
                    (Vec<SectionDescriptor>, Vec<SectionHeaderRecord>),
                    GenError,
                >(GenError::IoFailure)
                &&& r matches Ok(p) ==> p.0@.len() == a.count && p.1@.len() == a.count && (
                forall|i: int|
                    0 <= i < a.count ==> descriptor_matches(
                        #[trigger] p.0@[i],
                        a.data@,
                        i * a.element_width,
                        l,
                        i,
                    )) && (forall|i: int|
                    0 <= i < a.count ==> header_matches(#[trigger] p.1@[i], a.data@, i * a.element_width, l))
            }
        }),
{
    match input {
        RawSectionTable::MissingSymbol => Err(GenError::MissingSymbol(SymbolName::SectionHeaders)),
        RawSectionTable::UnresolvedType => Err(GenError::UnresolvedType),
        RawSectionTable::NotAStructure => Err(GenError::NotAStructure),
        RawSectionTable::Resolved(a) => {
            let layout = match resolve_layout(&a.members) {
                Ok(l) => l,
                Err(e) => {
                    return Err(e);
                },
            };
            parse_sections(&a.data, a.count, a.element_width, &layout)
        },
    }
}

} // verus!
