use vstd::prelude::*;

use crate::mapper::{
    assigns_upto, fn_assigns, fn_assigns_upto, lemma_first_match_props, module_matches,
    is_procedure_for, section_assigns, section_contains, spec_first_match, spec_placed,
    symbols_match, FunctionRecord,
    ModuleGroup, SymbolEntry,
};
use crate::sections::SectionDescriptor;
use crate::text::spec_part_name;

verus! {

proof fn lemma_fn_assigns_offsets(
    f: FunctionRecord,
    sections: Seq<SectionDescriptor>,
    image_base: int,
    p: int,
    j: int,
)
    requires
        0 <= p < sections.len(),
    ensures
        forall|k: int|
            0 <= k < fn_assigns_upto(f, sections, image_base, p, j).len() ==> {
                let a = #[trigger] fn_assigns_upto(f, sections, image_base, p, j)[k];
                a.offset < sections[p].virtual_size && a.section_index == sections[p].index
            },
    decreases j,
{
    if j > 0 {
        lemma_fn_assigns_offsets(f, sections, image_base, p, j - 1);
        let prev = fn_assigns_upto(f, sections, image_base, p, j - 1);
        let cur = fn_assigns_upto(f, sections, image_base, p, j);
        let rng = f.ranges@[j - 1];
        if spec_first_match(sections, image_base, rng.start as int) == Some(p) {
            lemma_first_match_props(sections, image_base, rng.start as int);
            assert(section_contains(sections[p], image_base, rng.start as int));
            let placed = spec_placed(f, sections, image_base, j - 1);
            assert(placed.offset < sections[p].virtual_size);
            assert(cur =~= prev.push(placed));
            assert forall|k: int| 0 <= k < cur.len() implies {
                let a = #[trigger] cur[k];
                a.offset < sections[p].virtual_size && a.section_index == sections[p].index
            } by {
                if k < prev.len() {
                    assert(cur[k] == prev[k]);
                } else {
                    assert(cur[k] == placed);
                }
            }
        } else {
            assert(cur =~= prev);
        }
    }
}

proof fn lemma_assigns_offsets(
    functions: Seq<FunctionRecord>,
    sections: Seq<SectionDescriptor>,
    image_base: int,
    p: int,
    n: int,
)
    requires
        0 <= p < sections.len(),
    ensures
        forall|k: int|
            0 <= k < assigns_upto(functions, sections, image_base, p, n).len() ==> {
                let a = #[trigger] assigns_upto(functions, sections, image_base, p, n)[k];
                a.offset < sections[p].virtual_size && a.section_index == sections[p].index
            },
    decreases n,
{
    if n > 0 {
        lemma_assigns_offsets(functions, sections, image_base, p, n - 1);
        lemma_fn_assigns_offsets(
            functions[n - 1],
            sections,
            image_base,
            p,
            functions[n - 1].ranges@.len() as int,
        );
        let prev = assigns_upto(functions, sections, image_base, p, n - 1);
        let tail = fn_assigns(functions[n - 1], sections, image_base, p);
        let cur = assigns_upto(functions, sections, image_base, p, n);
        assert(cur =~= prev + tail);
        assert forall|k: int| 0 <= k < cur.len() implies {
            let a = #[trigger] cur[k];
            a.offset < sections[p].virtual_size && a.section_index == sections[p].index
        } by {
            if k < prev.len() {
                assert(cur[k] == prev[k]);
            } else {
                assert(cur[k] == tail[k - prev.len()]);
            }
        }
    }
}

/// Every range placed into a section lies inside it: its section-relative
/// offset is below the section's virtual size (and non-negative, being
/// unsigned), and it carries that section's 1-based index.
pub proof fn lemma_offsets_within_section(
    functions: Seq<FunctionRecord>,
    sections: Seq<SectionDescriptor>,
    image_base: int,
    p: int,
)
    requires
        0 <= p < sections.len(),
    ensures
        forall|k: int|
            0 <= k < section_assigns(functions, sections, image_base, p).len() ==> {
                let a = #[trigger] section_assigns(functions, sections, image_base, p)[k];
                a.offset < sections[p].virtual_size && a.section_index == sections[p].index
            },
{
    lemma_assigns_offsets(functions, sections, image_base, p, functions.len() as int);
}

/// Begin/end pairing within a module's symbol sequence: every begin-procedure
/// record is immediately followed by its own end record and points at its
/// position, and every end record closes the begin record just before it.
pub proof fn lemma_procedure_end_pairing(
    m: ModuleGroup,
    functions: Seq<FunctionRecord>,
    sections: Seq<SectionDescriptor>,
    image_base: int,
    p: int,
)
    requires
        module_matches(m, functions, sections, image_base, p),
    ensures
        forall|idx: int|
            0 <= idx < m.symbols@.len() ==> ((#[trigger] m.symbols@[idx]) matches
                SymbolEntry::Procedure { end, .. } ==> idx + 1 < m.symbols@.len() && m.symbols@[idx
                + 1] is ProcedureEnd && end == idx + 1),
        forall|idx: int|
            0 <= idx < m.symbols@.len() ==> ((#[trigger] m.symbols@[idx]) is ProcedureEnd ==> idx
                >= 1 && (m.symbols@[idx - 1] matches SymbolEntry::Procedure { end, .. } && end
                == idx)),
{
    let a = section_assigns(functions, sections, image_base, p);
    assert(symbols_match(m.symbols@, a));
    assert forall|idx: int| 0 <= idx < m.symbols@.len() implies ((#[trigger] m.symbols@[idx])
        matches SymbolEntry::Procedure { end, .. } ==> idx + 1 < m.symbols@.len() && m.symbols@[idx
        + 1] is ProcedureEnd && end == idx + 1) && (m.symbols@[idx] is ProcedureEnd ==> idx >= 1
        && (m.symbols@[idx - 1] matches SymbolEntry::Procedure { end, .. } && end == idx)) by {
        let k = idx / 2;
        vstd::arithmetic::div_mod::lemma_fundamental_div_mod(idx, 2);
        assert(idx == 2 * k + idx % 2);
        assert(idx % 2 == 0 || idx % 2 == 1);
        assert(0 <= k < a.len());
        assert(is_procedure_for(m.symbols@[2 * k], a[k], 2 * k + 1));
        assert(m.symbols@[2 * k + 1] is ProcedureEnd);
        if idx % 2 == 0 {
            assert(idx == 2 * k);
        } else {
            assert(idx == 2 * k + 1);
        }
    }
}

proof fn lemma_fn_assigns_all_match(
    f: FunctionRecord,
    sections: Seq<SectionDescriptor>,
    image_base: int,
    p: int,
    j: int,
)
    requires
        0 <= j <= f.ranges@.len(),
        forall|i: int|
            0 <= i < j ==> spec_first_match(
                sections,
                image_base,
                (#[trigger] f.ranges@[i]).start as int,
            ) == Some(p),
    ensures
        fn_assigns_upto(f, sections, image_base, p, j).len() == j,
        forall|i: int|
            0 <= i < j ==> fn_assigns_upto(f, sections, image_base, p, j)[i].name
                == #[trigger] spec_part_name(f.name@, i),
    decreases j,
{
    if j > 0 {
        lemma_fn_assigns_all_match(f, sections, image_base, p, j - 1);
    }
}

proof fn lemma_assigns_upto_prefix(
    functions: Seq<FunctionRecord>,
    sections: Seq<SectionDescriptor>,
    image_base: int,
    p: int,
    m: int,
    n: int,
)
    requires
        0 <= m <= n <= functions.len(),
    ensures
        assigns_upto(functions, sections, image_base, p, m).len() <= assigns_upto(
            functions,
            sections,
            image_base,
            p,
            n,
        ).len(),
        forall|k: int|
            0 <= k < assigns_upto(functions, sections, image_base, p, m).len() ==> #[trigger] assigns_upto(
                functions,
                sections,
                image_base,
                p,
                n,
            )[k] == assigns_upto(functions, sections, image_base, p, m)[k],
    decreases n,
{
    if n > m {
        lemma_assigns_upto_prefix(functions, sections, image_base, p, m, n - 1);
    }
}

/// Split-range naming: when every range of one function lands in the section
/// at position `p`, that function contributes one placement per range, as a
/// contiguous block in range-enumeration order; the first keeps the display
/// name and later ones carry the numbered suffix.
pub proof fn lemma_split_function_names(
    functions: Seq<FunctionRecord>,
    sections: Seq<SectionDescriptor>,
    image_base: int,
    p: int,
    fi: int,
)
    requires
        0 <= fi < functions.len(),
        0 <= p < sections.len(),
        forall|j: int|
            0 <= j < functions[fi].ranges@.len() ==> spec_first_match(
                sections,
                image_base,
                (#[trigger] functions[fi].ranges@[j]).start as int,
            ) == Some(p),
    ensures
        ({
            let a = section_assigns(functions, sections, image_base, p);
            let before = assigns_upto(functions, sections, image_base, p, fi).len() as int;
            let n = functions[fi].ranges@.len() as int;
            &&& before + n <= a.len()
            &&& forall|j: int|
                0 <= j < n ==> a[before + j].name == #[trigger] spec_part_name(
                    functions[fi].name@,
                    j,
                )
            &&& spec_part_name(functions[fi].name@, 0) == functions[fi].name@
        }),
{
    let f = functions[fi];
    let n = f.ranges@.len() as int;
    let before = assigns_upto(functions, sections, image_base, p, fi).len() as int;
    lemma_fn_assigns_all_match(f, sections, image_base, p, n);
    assert(assigns_upto(functions, sections, image_base, p, fi + 1) == assigns_upto(
        functions,
        sections,
        image_base,
        p,
        fi,
    ) + fn_assigns(f, sections, image_base, p));
    lemma_assigns_upto_prefix(functions, sections, image_base, p, fi + 1, functions.len() as int);
    assert forall|j: int| 0 <= j < n implies section_assigns(functions, sections, image_base, p)[
        before + j
    ].name == #[trigger] spec_part_name(functions[fi].name@, j) by {
        assert(assigns_upto(functions, sections, image_base, p, fi + 1)[before + j]
            == fn_assigns(f, sections, image_base, p)[j]);
        assert(section_assigns(functions, sections, image_base, p)[before + j] == assigns_upto(
            functions,
            sections,
            image_base,
            p,
            fi + 1,
        )[before + j]);
    }
}

} // verus!
