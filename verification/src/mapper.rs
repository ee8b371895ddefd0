use vstd::prelude::*;

use crate::errors::GenError;
use crate::sections::SectionDescriptor;
use crate::text::{
    module_name, object_path, part_name, spec_module_name, spec_object_path, spec_part_name,
};

verus! {

/// One half-open `[start, end)` address range of a recovered function body.
pub struct AddressRange {
    pub start: u64,
    pub end: u64,
}

impl AddressRange {
    pub open spec fn wf(self) -> bool {
        self.start <= self.end
    }
}

/// A recovered function: its display name and its disjoint address ranges,
/// in the host's enumeration order. Read-only input to the mapper.
pub struct FunctionRecord {
    pub name: String,
    pub ranges: Vec<AddressRange>,
}

impl FunctionRecord {
    pub open spec fn wf(self) -> bool {
        forall|j: int| 0 <= j < self.ranges@.len() ==> (#[trigger] self.ranges@[j]).wf()
    }
}

/// The section-contribution descriptor attached to one module: the whole
/// containing section, with the checksum fields left zero.
pub struct SectionContribution {
    pub section_index: u16,
    pub offset: u32,
    pub size: u32,
    pub characteristics: u32,
    pub module_index: u16,
    pub data_crc: u32,
    pub reloc_crc: u32,
}

/// One record of a module's ordered symbol sequence. A procedure record's
/// `end` is the position of its matching end record within the same
/// sequence; the pairing is positional, not name-addressed.
pub enum SymbolEntry {
    Procedure {
        name: String,
        code_offset: u32,
        section_index: u16,
        code_size: u32,
        end: usize,
    },
    ProcedureEnd,
}

/// One synthetic compilation module: one per section that contains at least
/// one function range, carrying that section's contribution descriptor and
/// an ordered symbol sequence of matched procedure/end pairs.
pub struct ModuleGroup {
    pub name: String,
    pub object_path: String,
    pub section_index: u16,
    pub contribution: SectionContribution,
    pub symbols: Vec<SymbolEntry>,
}

/// One flat, moduleless index entry, mirrored for every procedure emitted.
pub struct PublicSymbol {
    pub name: String,
    pub offset: u32,
    pub section_index: u16,
    pub is_function: bool,
}

/// One function range placed into its containing section: the symbol name it
/// will carry, its section-relative offset, its code size, and the 1-based
/// index of the section. Specification-level shape of every emitted record.
pub struct PlacedRange {
    pub name: Seq<char>,
    pub offset: u32,
    pub size: u32,
    pub section_index: u16,
}

/// Whether `addr` falls inside the virtual-address range of section `s` of a
/// binary loaded at `image_base`.
pub open spec fn section_contains(s: SectionDescriptor, image_base: int, addr: int) -> bool {
    &&& image_base + s.virtual_address <= addr
    &&& addr < image_base + s.virtual_address + s.virtual_size
}

/// The first section at position `i` or later that contains `addr`.
pub open spec fn first_match_from(
    sections: Seq<SectionDescriptor>,
    image_base: int,
    addr: int,
    i: int,
) -> Option<int>
    decreases sections.len() - i when 0 <= i <= sections.len()
{
    if i >= sections.len() {
        None
    } else if section_contains(sections[i], image_base, addr) {
        Some(i)
    } else {
        first_match_from(sections, image_base, addr, i + 1)
    }
}

/// The position of the section containing `addr`, in discovery order, first
/// match winning.
pub open spec fn spec_first_match(sections: Seq<SectionDescriptor>, image_base: int, addr: int) -> Option<
    int,
> {
    first_match_from(sections, image_base, addr, 0)
}

proof fn lemma_first_match_from_props(
    sections: Seq<SectionDescriptor>,
    image_base: int,
    addr: int,
    i: int,
)
    requires
        0 <= i <= sections.len(),
    ensures
        first_match_from(sections, image_base, addr, i) matches Some(p) ==> i <= p
            < sections.len() && section_contains(sections[p], image_base, addr) && (forall|q: int|
            i <= q < p ==> !section_contains(#[trigger] sections[q], image_base, addr)),
        first_match_from(sections, image_base, addr, i) is None ==> (forall|q: int|
            i <= q < sections.len() ==> !section_contains(#[trigger] sections[q], image_base, addr)),
    decreases sections.len() - i,
{
    if i < sections.len() && !section_contains(sections[i], image_base, addr) {
        lemma_first_match_from_props(sections, image_base, addr, i + 1);
    }
}

/// First-match placement: the winning section contains the address and no
/// earlier section does.
pub proof fn lemma_first_match_props(sections: Seq<SectionDescriptor>, image_base: int, addr: int)
    ensures
        spec_first_match(sections, image_base, addr) matches Some(p) ==> 0 <= p < sections.len()
            && section_contains(sections[p], image_base, addr) && (forall|q: int|
            0 <= q < p ==> !section_contains(#[trigger] sections[q], image_base, addr)),
        spec_first_match(sections, image_base, addr) is None ==> (forall|q: int|
            0 <= q < sections.len() ==> !section_contains(#[trigger] sections[q], image_base, addr)),
{
    lemma_first_match_from_props(sections, image_base, addr, 0);
}

/// Finds the containing section for one absolute address, testing sections
/// in discovery order; the first match wins.
pub fn find_section(sections: &Vec<SectionDescriptor>, image_base: u64, addr: u64) -> (r: Option<
    usize,
>)
    ensures
        r is None ==> spec_first_match(sections@, image_base as int, addr as int) is None,
        r matches Some(p) ==> spec_first_match(sections@, image_base as int, addr as int) == Some(
            p as int,
        ),
{
    let mut i: usize = 0;
    while i < sections.len()
        invariant
            i <= sections@.len(),
            spec_first_match(sections@, image_base as int, addr as int) == first_match_from(
                sections@,
                image_base as int,
                addr as int,
                i as int,
            ),
        decreases sections@.len() - i,
    {
        let s = &sections[i];
        if addr >= image_base {
            let rel = addr - image_base;
            let va = s.virtual_address as u64;
            if rel >= va && rel - va < s.virtual_size as u64 {
                proof {
                    assert(section_contains(sections@[i as int], image_base as int, addr as int));
                }
                return Some(i);
            }
        }
        proof {
            assert(!section_contains(sections@[i as int], image_base as int, addr as int));
        }
        i = i + 1;
    }
    None
}

/// What the `j`-th range of function `f` becomes once placed: its possibly
/// suffixed name, the offset relative to its containing section, and the
/// low 32 bits of its byte size. Meaningful only when a section matched.
pub open spec fn spec_placed(
    f: FunctionRecord,
    sections: Seq<SectionDescriptor>,
    image_base: int,
    j: int,
) -> PlacedRange {
    let rng = f.ranges@[j];
    let p = spec_first_match(sections, image_base, rng.start as int)->Some_0;
    PlacedRange {
        name: spec_part_name(f.name@, j),
        offset: (rng.start - image_base - sections[p].virtual_address) as u32,
        size: (((rng.end - rng.start) % 0x100000000) as u32),
        section_index: sections[p].index,
    }
}

/// The placements that the first `j` ranges of `f` contribute to the section
/// at position `p`, in range-enumeration order.
pub open spec fn fn_assigns_upto(
    f: FunctionRecord,
    sections: Seq<SectionDescriptor>,
    image_base: int,
    p: int,
    j: int,
) -> Seq<PlacedRange>
    decreases j,
{
    if j <= 0 {
        Seq::empty()
    } else {
        fn_assigns_upto(f, sections, image_base, p, j - 1) + (if spec_first_match(
            sections,
            image_base,
            f.ranges@[j - 1].start as int,
        ) == Some(p) {
            seq![spec_placed(f, sections, image_base, j - 1)]
        } else {
            Seq::empty()
        })
    }
}

/// Everything function `f` contributes to the section at position `p`.
pub open spec fn fn_assigns(
    f: FunctionRecord,
    sections: Seq<SectionDescriptor>,
    image_base: int,
    p: int,
) -> Seq<PlacedRange> {
    fn_assigns_upto(f, sections, image_base, p, f.ranges@.len() as int)
}

/// What the first `n` functions contribute to the section at position `p`,
/// functions in enumeration order, each function's ranges in range order.
pub open spec fn assigns_upto(
    functions: Seq<FunctionRecord>,
    sections: Seq<SectionDescriptor>,
    image_base: int,
    p: int,
    n: int,
) -> Seq<PlacedRange>
    decreases n,
{
    if n <= 0 {
        Seq::empty()
    } else {
        assigns_upto(functions, sections, image_base, p, n - 1) + fn_assigns(
            functions[n - 1],
            sections,
            image_base,
            p,
        )
    }
}

/// The full placement list of the section at position `p`.
pub open spec fn section_assigns(
    functions: Seq<FunctionRecord>,
    sections: Seq<SectionDescriptor>,
    image_base: int,
    p: int,
) -> Seq<PlacedRange> {
    assigns_upto(functions, sections, image_base, p, functions.len() as int)
}

/// The placements of the first `plimit` sections, concatenated in section
/// order: the shape of the flat public-symbol table.
pub open spec fn flat_assigns_upto(
    functions: Seq<FunctionRecord>,
    sections: Seq<SectionDescriptor>,
    image_base: int,
    plimit: int,
) -> Seq<PlacedRange>
    decreases plimit,
{
    if plimit <= 0 {
        Seq::empty()
    } else {
        flat_assigns_upto(functions, sections, image_base, plimit - 1) + section_assigns(
            functions,
            sections,
            image_base,
            plimit - 1,
        )
    }
}

/// Every placement of the whole run, in emission order.
pub open spec fn flat_assigns(
    functions: Seq<FunctionRecord>,
    sections: Seq<SectionDescriptor>,
    image_base: int,
) -> Seq<PlacedRange> {
    flat_assigns_upto(functions, sections, image_base, sections.len() as int)
}

/// The positions, among the first `plimit` sections and in ascending order,
/// of the sections that received at least one placement.
pub open spec fn nonempty_upto(
    functions: Seq<FunctionRecord>,
    sections: Seq<SectionDescriptor>,
    image_base: int,
    plimit: int,
) -> Seq<int>
    decreases plimit,
{
    if plimit <= 0 {
        Seq::empty()
    } else {
        nonempty_upto(functions, sections, image_base, plimit - 1) + (if section_assigns(
            functions,
            sections,
            image_base,
            plimit - 1,
        ).len() > 0 {
            seq![plimit - 1]
        } else {
            Seq::empty()
        })
    }
}

/// The positions of the sections that get a module, one each, in ascending
/// order.
pub open spec fn nonempty_positions(
    functions: Seq<FunctionRecord>,
    sections: Seq<SectionDescriptor>,
    image_base: int,
) -> Seq<int> {
    nonempty_upto(functions, sections, image_base, sections.len() as int)
}

/// Whether `s` is the begin-procedure record for placement `a` whose end
/// record sits at position `end_pos`.
pub open spec fn is_procedure_for(s: SymbolEntry, a: PlacedRange, end_pos: int) -> bool {
    s matches SymbolEntry::Procedure { name, code_offset, section_index, code_size, end }
        && name@ == a.name && code_offset == a.offset && code_size == a.size && section_index
        == a.section_index && end == end_pos
}

/// Whether a symbol sequence is exactly the matched begin/end pairs of the
/// given placements, in order: the placement `k`'s begin record at `2k`, its
/// end record immediately after, and the begin record pointing at it.
pub open spec fn symbols_match(symbols: Seq<SymbolEntry>, assigns: Seq<PlacedRange>) -> bool {
    &&& symbols.len() == 2 * assigns.len()
    &&& forall|k: int|
        0 <= k < assigns.len() ==> is_procedure_for(symbols[2 * k], #[trigger] assigns[k], 2 * k + 1)
            && symbols[2 * k + 1] is ProcedureEnd
}

/// Whether module `m` is the one owed to the section at position `p`.
pub open spec fn module_matches(
    m: ModuleGroup,
    functions: Seq<FunctionRecord>,
    sections: Seq<SectionDescriptor>,
    image_base: int,
    p: int,
) -> bool {
    &&& m.name@ == spec_module_name(sections[p].name@)
    &&& m.object_path@ == spec_object_path(sections[p].name@)
    &&& m.section_index == sections[p].index
    &&& m.contribution == (SectionContribution {
        section_index: sections[p].index,
        offset: 0u32,
        size: sections[p].virtual_size,
        characteristics: sections[p].characteristics,
        module_index: 0u16,
        data_crc: 0u32,
        reloc_crc: 0u32,
    })
    &&& symbols_match(m.symbols@, section_assigns(functions, sections, image_base, p))
}

/// Whether one public-symbol entry mirrors placement `a`.
pub open spec fn public_matches(ps: PublicSymbol, a: PlacedRange) -> bool {
    &&& ps.name@ == a.name
    &&& ps.offset == a.offset
    &&& ps.section_index == a.section_index
    &&& ps.is_function
}

/// Partitions every recovered function range into the section containing its
/// start address (first match in discovery order; a range matching no
/// section is skipped without failing the run), and produces one module per
/// non-empty section plus the flat public-symbol table. Success is owed for
/// every input: position-based bookkeeping cannot lose a section.
pub fn map_functions(
    functions: &Vec<FunctionRecord>,
    sections: &Vec<SectionDescriptor>,
    image_base: u64,
) -> (r: Result<(Vec<ModuleGroup>, Vec<PublicSymbol>), GenError>)
    requires
        forall|i: int| 0 <= i < functions@.len() ==> (#[trigger] functions@[i]).wf(),
    ensures
        r is Ok,
        r matches Ok(out) ==> ({
            let ps = nonempty_positions(functions@, sections@, image_base as int);
            let flat = flat_assigns(functions@, sections@, image_base as int);
            &&& out.0@.len() == ps.len()
            &&& forall|t: int|
                0 <= t < ps.len() ==> module_matches(
                    #[trigger] out.0@[t],
                    functions@,
                    sections@,
                    image_base as int,
                    ps[t],
                )
            &&& out.1@.len() == flat.len()
            &&& forall|k: int| 0 <= k < flat.len() ==> public_matches(#[trigger] out.1@[k], flat[k])
        }),
{
    let ghost base = image_base as int;
    let mut modules: Vec<ModuleGroup> = Vec::new();
    let mut publics: Vec<PublicSymbol> = Vec::new();
    let mut p: usize = 0;
    while p < sections.len()
        invariant
            p <= sections@.len(),
            base == image_base as int,
            forall|i: int| 0 <= i < functions@.len() ==> (#[trigger] functions@[i]).wf(),
            modules@.len() == nonempty_upto(functions@, sections@, base, p as int).len(),
            forall|t: int|
                0 <= t < modules@.len() ==> module_matches(
                    #[trigger] modules@[t],
                    functions@,
                    sections@,
                    base,
                    nonempty_upto(functions@, sections@, base, p as int)[t],
                ),
            publics@.len() == flat_assigns_upto(functions@, sections@, base, p as int).len(),
            forall|k: int|
                0 <= k < publics@.len() ==> public_matches(
                    #[trigger] publics@[k],
                    flat_assigns_upto(functions@, sections@, base, p as int)[k],
                ),
        decreases sections@.len() - p,
    {
        let mut symbols: Vec<SymbolEntry> = Vec::new();
        let mut fi: usize = 0;
        while fi < functions.len()
            invariant
                p < sections@.len(),
                fi <= functions@.len(),
                base == image_base as int,
                forall|i: int| 0 <= i < functions@.len() ==> (#[trigger] functions@[i]).wf(),
                symbols_match(
                    symbols@,
                    assigns_upto(functions@, sections@, base, p as int, fi as int),
                ),
                publics@.len() == flat_assigns_upto(functions@, sections@, base, p as int).len()
                    + assigns_upto(functions@, sections@, base, p as int, fi as int).len(),
                forall|k: int|
                    0 <= k < publics@.len() ==> public_matches(
                        #[trigger] publics@[k],
                        (flat_assigns_upto(functions@, sections@, base, p as int) + assigns_upto(
                            functions@,
                            sections@,
                            base,
                            p as int,
                            fi as int,
                        ))[k],
                    ),
            decreases functions@.len() - fi,
        {
            let f = &functions[fi];
            let mut j: usize = 0;
            while j < f.ranges.len()
                invariant
                    p < sections@.len(),
                    fi < functions@.len(),
                    j <= f.ranges@.len(),
                    base == image_base as int,
                    *f == functions@[fi as int],
                    f.wf(),
                    symbols_match(
                        symbols@,
                        assigns_upto(functions@, sections@, base, p as int, fi as int)
                            + fn_assigns_upto(*f, sections@, base, p as int, j as int),
                    ),
                    publics@.len() == flat_assigns_upto(functions@, sections@, base, p as int).len()
                        + assigns_upto(functions@, sections@, base, p as int, fi as int).len()
                        + fn_assigns_upto(*f, sections@, base, p as int, j as int).len(),
                    forall|k: int|
                        0 <= k < publics@.len() ==> public_matches(
                            #[trigger] publics@[k],
                            (flat_assigns_upto(functions@, sections@, base, p as int)
                                + assigns_upto(functions@, sections@, base, p as int, fi as int)
                                + fn_assigns_upto(*f, sections@, base, p as int, j as int))[k],
                        ),
                decreases f.ranges@.len() - j,
            {
                let rng = &f.ranges[j];
                let ghost prev = assigns_upto(functions@, sections@, base, p as int, fi as int)
                    + fn_assigns_upto(*f, sections@, base, p as int, j as int);
                let ghost prev_flat = flat_assigns_upto(functions@, sections@, base, p as int)
                    + prev;
                match find_section(sections, image_base, rng.start) {
                    Some(q) if q == p => {
                        proof {
                            lemma_first_match_props(sections@, base, rng.start as int);
                        }
                        let s = &sections[p];
                        let rel = rng.start - image_base;
                        let off64 = rel - (s.virtual_address as u64);
                        let offset = off64 as u32;
                        let size = ((rng.end - rng.start) % 0x100000000u64) as u32;
                        let nm = part_name(&f.name, j);
                        let ghost placed = spec_placed(*f, sections@, base, j as int);
                        proof {
                            assert(placed.name == nm@);
                            assert(placed.offset == offset);
                            assert(placed.size == size);
                            assert(placed.section_index == s.index);
                        }
                        let proc_idx = symbols.len();
                        symbols.push(
                            SymbolEntry::Procedure {
                                name: nm.clone(),
                                code_offset: offset,
                                section_index: s.index,
                                code_size: size,
                                end: 0,
                            },
                        );
                        symbols.push(SymbolEntry::ProcedureEnd);
                        let end_pos = symbols.len() - 1;
                        symbols[proc_idx] = SymbolEntry::Procedure {
                            name: nm.clone(),
                            code_offset: offset,
                            section_index: s.index,
                            code_size: size,
                            end: end_pos,
                        };
                        publics.push(
                            PublicSymbol {
                                name: nm,
                                offset,
                                section_index: s.index,
                                is_function: true,
                            },
                        );
                        proof {
                            let cur = assigns_upto(functions@, sections@, base, p as int, fi as int)
                                + fn_assigns_upto(*f, sections@, base, p as int, j + 1);
                            assert(cur =~= prev.push(placed));
                            assert(end_pos == 2 * (prev.len() as int) + 1);
                            assert(symbols_match(symbols@, cur)) by {
                                assert(forall|k: int|
                                    0 <= k < prev.len() ==> #[trigger] cur[k] == prev[k]);
                                assert(symbols@.len() == 2 * cur.len());
                                assert(is_procedure_for(
                                    symbols@[2 * (prev.len() as int)],
                                    cur[prev.len() as int],
                                    2 * (prev.len() as int) + 1,
                                ));
                            }
                            let cur_flat = flat_assigns_upto(functions@, sections@, base, p as int)
                                + cur;
                            assert(cur_flat =~= prev_flat.push(placed));
                            assert(forall|k: int|
                                0 <= k < prev_flat.len() ==> #[trigger] cur_flat[k] == prev_flat[k]);
                        }
                    },
                    _ => {
                        proof {
                            assert(fn_assigns_upto(*f, sections@, base, p as int, j + 1) =~= fn_assigns_upto(
                                *f,
                                sections@,
                                base,
                                p as int,
                                j as int,
                            ));
                        }
                    },
                }
                j = j + 1;
            }
            proof {
                assert(fn_assigns_upto(*f, sections@, base, p as int, f.ranges@.len() as int)
                    == fn_assigns(*f, sections@, base, p as int));
                assert(assigns_upto(functions@, sections@, base, p as int, fi as int) + fn_assigns(
                    functions@[fi as int],
                    sections@,
                    base,
                    p as int,
                ) =~= assigns_upto(functions@, sections@, base, p as int, fi + 1));
            }
            fi = fi + 1;
        }
        let ghost sec_assigns = section_assigns(functions@, sections@, base, p as int);
        proof {
            assert(symbols_match(symbols@, sec_assigns));
            assert(flat_assigns_upto(functions@, sections@, base, p + 1) =~= flat_assigns_upto(
                functions@,
                sections@,
                base,
                p as int,
            ) + sec_assigns);
        }
        if symbols.len() > 0 {
            let s = &sections[p];
            let contribution = SectionContribution {
                section_index: s.index,
                offset: 0,
                size: s.virtual_size,
                characteristics: s.characteristics,
                module_index: 0,
                data_crc: 0,
                reloc_crc: 0,
            };
            let m = ModuleGroup {
                name: module_name(&s.name),
                object_path: object_path(&s.name),
                section_index: s.index,
                contribution,
                symbols,
            };
            modules.push(m);
            proof {
                assert(sec_assigns.len() > 0);
                assert(nonempty_upto(functions@, sections@, base, p + 1) =~= nonempty_upto(
                    functions@,
                    sections@,
                    base,
                    p as int,
                ).push(p as int));
            }
        } else {
            proof {
                assert(sec_assigns.len() == 0);
                assert(nonempty_upto(functions@, sections@, base, p + 1) =~= nonempty_upto(
                    functions@,
                    sections@,
                    base,
                    p as int,
                ));
            }
        }
        p = p + 1;
    }
    Ok((modules, publics))
}

} // verus!
