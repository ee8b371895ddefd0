use vstd::prelude::*;

verus! {

/// The well-known symbols that identity extraction and section-table
/// resolution look up in the analyzed binary.
#[derive(Clone, Copy, Debug, PartialEq, Eq, Structural)]
pub enum SymbolName {
    CoffHeader,
    PdbAge,
    PdbGuid,
    SectionHeaders,
}

/// The fields of one section-header element that the resolver must locate
/// in the host's recovered structure layout.
#[derive(Clone, Copy, Debug, PartialEq, Eq, Structural)]
pub enum FieldName {
    Name,
    VirtualSize,
    VirtualAddress,
    SizeOfRawData,
    PointerToRawData,
    PointerToRelocations,
    PointerToLineNumbers,
    NumberOfRelocations,
    NumberOfLineNumbers,
    Characteristics,
}

/// Everything that can abort a generation run.
///
/// `SectionNotFound` is kept for completeness of the taxonomy: the mapper
/// tracks sections by position, so its internal bookkeeping cannot lose one,
/// and no function of this crate produces the variant.
#[derive(Clone, Copy, Debug, PartialEq, Eq, Structural)]
pub enum GenError {
    MissingSymbol(SymbolName),
    MissingField(FieldName),
    UnresolvedType,
    NotAStructure,
    SectionNotFound,
    IoFailure,
}

} // verus!
