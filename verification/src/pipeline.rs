use vstd::prelude::*;
use vstd::bytes::spec_u32_from_le_bytes;

use crate::errors::{GenError, SymbolName};
use crate::identity::{extract_identity, ArtifactIdentity};
use crate::mapper::{
    flat_assigns, map_functions, module_matches, nonempty_positions, public_matches, FunctionRecord,
    ModuleGroup, PublicSymbol,
};
use crate::sections::{
    descriptor_matches, elem_fits_at, header_matches, resolve_section_table, spec_first_missing_field,
    spec_layout_complete, spec_layout_of, RawSectionTable, SectionDescriptor, SectionHeaderRecord,
};

verus! {

/// Everything one successful generation run hands to the downstream
/// container serializer, in dependency order: identity, ordered section
/// headers, one module per populated section, and the flat public table.
pub struct PdbModel {
    pub identity: ArtifactIdentity,
    pub sections: Vec<SectionDescriptor>,
    pub headers: Vec<SectionHeaderRecord>,
    pub modules: Vec<ModuleGroup>,
    pub publics: Vec<PublicSymbol>,
}

/// Whether the three identity reads came back and with the right widths.
pub open spec fn identity_inputs_ok(
    timestamp_bytes: Option<Vec<u8>>,
    age_bytes: Option<Vec<u8>>,
    guid_bytes: Option<Vec<u8>>,
) -> bool {
    &&& timestamp_bytes matches Some(t) && t@.len() == 4
    &&& age_bytes matches Some(a) && a@.len() == 4
    &&& guid_bytes matches Some(g) && g@.len() == 16
}

/// Runs the whole translation: identity extraction, section-table
/// resolution, and function-to-module mapping. All-or-nothing: any identity
/// or section failure aborts the run before any output exists; an unmatched
/// function range never does.
pub fn generate(
    timestamp_bytes: Option<Vec<u8>>,
    age_bytes: Option<Vec<u8>>,
    guid_bytes: Option<Vec<u8>>,
    table: &RawSectionTable,
    functions: &Vec<FunctionRecord>,
    image_base: u64,
) -> (r: Result<PdbModel, GenError>)
    requires
        table matches RawSectionTable::Resolved(a) ==> a.count <= 0xFFFF,
        forall|i: int| 0 <= i < functions@.len() ==> (#[trigger] functions@[i]).wf(),
    ensures
        timestamp_bytes is None ==> r == Err::<PdbModel, GenError>(
            GenError::MissingSymbol(SymbolName::CoffHeader),
        ),
        timestamp_bytes is Some && age_bytes is None ==> r == Err::<PdbModel, GenError>(
            GenError::MissingSymbol(SymbolName::PdbAge),
        ),
        timestamp_bytes is Some && age_bytes is Some && guid_bytes is None ==> r == Err::<
            PdbModel,
            GenError,
        >(GenError::MissingSymbol(SymbolName::PdbGuid)),
        timestamp_bytes is Some && age_bytes is Some && guid_bytes is Some && !identity_inputs_ok(
            timestamp_bytes,
            age_bytes,
            guid_bytes,
        ) ==> r == Err::<PdbModel, GenError>(GenError::IoFailure),
        identity_inputs_ok(timestamp_bytes, age_bytes, guid_bytes) ==> {
            &&& table is MissingSymbol ==> r == Err::<PdbModel, GenError>(
                GenError::MissingSymbol(SymbolName::SectionHeaders),
            )
            &&& table is UnresolvedType ==> r == Err::<PdbModel, GenError>(GenError::UnresolvedType)
            &&& table is NotAStructure ==> r == Err::<PdbModel, GenError>(GenError::NotAStructure)
            &&& table matches RawSectionTable::Resolved(a) ==> ({
                let l = spec_layout_of(a.members@);
                &&& !spec_layout_complete(a.members@) ==> r == Err::<PdbModel, GenError>(
                    GenError::MissingField(spec_first_missing_field(a.members@)),
                )
                &&& spec_layout_complete(a.members@) ==> {
                    &&& r is Ok <==> (forall|i: int|
                        0 <= i < a.count ==> #[trigger] elem_fits_at(
                            a.data@.len() as int,
                            a.element_width,
                            l,
                            i,
                        ))
                    &&& r is Err ==> r == Err::<PdbModel, GenError>(GenError::IoFailure)
                    &&& r matches Ok(m) ==> ({
                        let ps = nonempty_positions(functions@, m.sections@, image_base as int);
                        let flat = flat_assigns(functions@, m.sections@, image_base as int);
                        &&& m.identity.timestamp == spec_u32_from_le_bytes(
                            timestamp_bytes->Some_0@,
                        )
                        &&& m.identity.age == spec_u32_from_le_bytes(age_bytes->Some_0@)
                        &&& m.identity.guid@ == guid_bytes->Some_0@
                        &&& m.identity.wf()
                        &&& m.sections@.len() == a.count
                        &&& m.headers@.len() == a.count
                        &&& forall|i: int|
                            0 <= i < a.count ==> descriptor_matches(
                                #[trigger] m.sections@[i],
                                a.data@,
                                i * a.element_width,
                                l,
                                i,
                            )
                        &&& forall|i: int|
                            0 <= i < a.count ==> header_matches(
                                #[trigger] m.headers@[i],
                                a.data@,
                                i * a.element_width,
                                l,
                            )
                        &&& m.modules@.len() == ps.len()
                        &&& forall|t: int|
                            0 <= t < ps.len() ==> module_matches(
                                #[trigger] m.modules@[t],
                                functions@,
                                m.sections@,
                                image_base as int,
                                ps[t],
                            )
                        &&& m.publics@.len() == flat.len()
                        &&& forall|k: int|
                            0 <= k < flat.len() ==> public_matches(#[trigger] m.publics@[k], flat[k])
                    })
                }
            })
        },
{
    let identity = match extract_identity(timestamp_bytes, age_bytes, guid_bytes) {
        Ok(v) => v,
        Err(e) => {
            return Err(e);
        },
    };
    let (sections, headers) = match resolve_section_table(table) {
        Ok(v) => v,
        Err(e) => {
            return Err(e);
        },
    };
    let (modules, publics) = match map_functions(functions, &sections, image_base) {
        Ok(v) => v,
        Err(e) => {
            return Err(e);
        },
    };
    Ok(PdbModel { identity, sections, headers, modules, publics })
}

} // verus!
