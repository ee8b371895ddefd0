use pdbgen::mapper::{map_functions, AddressRange, FunctionRecord, SymbolEntry};
use pdbgen::sections::SectionDescriptor;

const IMAGE_BASE: u64 = 0x400000;

fn text_section() -> SectionDescriptor {
    SectionDescriptor {
        name: String::from(".text"),
        index: 1,
        virtual_address: 0x1000,
        virtual_size: 0x2000,
        characteristics: 0x60000020,
    }
}

fn data_section() -> SectionDescriptor {
    SectionDescriptor {
        name: String::from(".data"),
        index: 2,
        virtual_address: 0x4000,
        virtual_size: 0x800,
        characteristics: 0xC0000040,
    }
}

fn func(name: &str, ranges: &[(u64, u64)]) -> FunctionRecord {
    FunctionRecord {
        name: name.to_string(),
        ranges: ranges.iter().map(|&(s, e)| AddressRange { start: s, end: e }).collect(),
    }
}

fn expect_procedure(s: &SymbolEntry) -> (&String, u32, u16, u32, usize) {
    match s {
        SymbolEntry::Procedure { name, code_offset, section_index, code_size, end } => {
            (name, *code_offset, *section_index, *code_size, *end)
        },
        SymbolEntry::ProcedureEnd => panic!("expected a begin-procedure record"),
    }
}

#[test]
fn one_function_in_one_section() {
    let sections = vec![text_section()];
    let functions = vec![func("main", &[(IMAGE_BASE + 0x1200, IMAGE_BASE + 0x1210)])];
    let (modules, publics) = map_functions(&functions, &sections, IMAGE_BASE).unwrap();

    assert_eq!(modules.len(), 1);
    let m = &modules[0];
    assert_eq!(m.name, ".text_module");
    assert_eq!(m.object_path, "/fake/path/.text.obj");
    assert_eq!(m.section_index, 1);
    assert_eq!(m.contribution.section_index, 1);
    assert_eq!(m.contribution.offset, 0);
    assert_eq!(m.contribution.size, 0x2000);
    assert_eq!(m.contribution.characteristics, 0x60000020);
    assert_eq!(m.contribution.module_index, 0);
    assert_eq!(m.contribution.data_crc, 0);
    assert_eq!(m.contribution.reloc_crc, 0);

    assert_eq!(m.symbols.len(), 2);
    let (name, offset, sec, size, end) = expect_procedure(&m.symbols[0]);
    assert_eq!(name, "main");
    assert_eq!(offset, 0x200);
    assert_eq!(sec, 1);
    assert_eq!(size, 0x10);
    assert_eq!(end, 1);
    assert!(matches!(m.symbols[1], SymbolEntry::ProcedureEnd));

    assert_eq!(publics.len(), 1);
    assert_eq!(publics[0].name, "main");
    assert_eq!(publics[0].offset, 0x200);
    assert_eq!(publics[0].section_index, 1);
    assert!(publics[0].is_function);
}

#[test]
fn split_ranges_get_numbered_suffixes_in_order() {
    let sections = vec![text_section()];
    let functions = vec![func(
        "split",
        &[
            (IMAGE_BASE + 0x1100, IMAGE_BASE + 0x1120),
            (IMAGE_BASE + 0x1800, IMAGE_BASE + 0x1808),
            (IMAGE_BASE + 0x2000, IMAGE_BASE + 0x2004),
        ],
    )];
    let (modules, publics) = map_functions(&functions, &sections, IMAGE_BASE).unwrap();
    assert_eq!(modules.len(), 1);
    let m = &modules[0];
    assert_eq!(m.symbols.len(), 6);

    let (n0, o0, _, s0, e0) = expect_procedure(&m.symbols[0]);
    assert_eq!((n0.as_str(), o0, s0, e0), ("split", 0x100, 0x20, 1));
    let (n1, o1, _, s1, e1) = expect_procedure(&m.symbols[2]);
    assert_eq!((n1.as_str(), o1, s1, e1), ("split_part2", 0x800, 0x8, 3));
    let (n2, o2, _, s2, e2) = expect_procedure(&m.symbols[4]);
    assert_eq!((n2.as_str(), o2, s2, e2), ("split_part3", 0x1000, 0x4, 5));
    assert!(matches!(m.symbols[1], SymbolEntry::ProcedureEnd));
    assert!(matches!(m.symbols[3], SymbolEntry::ProcedureEnd));
    assert!(matches!(m.symbols[5], SymbolEntry::ProcedureEnd));

    let names: Vec<&str> = publics.iter().map(|p| p.name.as_str()).collect();
    assert_eq!(names, vec!["split", "split_part2", "split_part3"]);
}

#[test]
fn unmatched_range_is_skipped_without_failing_the_run() {
    let sections = vec![text_section()];
    let functions = vec![
        func(
            "partial",
            &[
                (IMAGE_BASE + 0x1100, IMAGE_BASE + 0x1104),
                // start address outside every section: skipped
                (IMAGE_BASE + 0x9000, IMAGE_BASE + 0x9004),
            ],
        ),
        func("after", &[(IMAGE_BASE + 0x1400, IMAGE_BASE + 0x1404)]),
    ];
    let r = map_functions(&functions, &sections, IMAGE_BASE);
    let (modules, publics) = r.unwrap();
    assert_eq!(modules.len(), 1);
    let m = &modules[0];
    assert_eq!(m.symbols.len(), 4);
    let (n0, ..) = expect_procedure(&m.symbols[0]);
    assert_eq!(n0, "partial");
    let (n1, ..) = expect_procedure(&m.symbols[2]);
    assert_eq!(n1, "after");
    assert_eq!(publics.len(), 2);
}

#[test]
fn functions_group_per_section() {
    let sections = vec![text_section(), data_section()];
    let functions = vec![
        func("in_data", &[(IMAGE_BASE + 0x4100, IMAGE_BASE + 0x4104)]),
        func("in_text", &[(IMAGE_BASE + 0x1100, IMAGE_BASE + 0x1104)]),
    ];
    let (modules, publics) = map_functions(&functions, &sections, IMAGE_BASE).unwrap();
    assert_eq!(modules.len(), 2);
    assert_eq!(modules[0].name, ".text_module");
    assert_eq!(modules[1].name, ".data_module");
    assert_eq!(modules[0].section_index, 1);
    assert_eq!(modules[1].section_index, 2);
    let (n, ..) = expect_procedure(&modules[0].symbols[0]);
    assert_eq!(n, "in_text");
    let (n, ..) = expect_procedure(&modules[1].symbols[0]);
    assert_eq!(n, "in_data");
    assert_eq!(publics.len(), 2);
}

#[test]
fn empty_sections_get_no_module() {
    let sections = vec![text_section(), data_section()];
    let functions = vec![func("only_text", &[(IMAGE_BASE + 0x1000, IMAGE_BASE + 0x1004)])];
    let (modules, _) = map_functions(&functions, &sections, IMAGE_BASE).unwrap();
    assert_eq!(modules.len(), 1);
    assert_eq!(modules[0].name, ".text_module");
}

#[test]
fn first_matching_section_wins() {
    let mut overlapping = text_section();
    overlapping.name = String::from(".overlap");
    overlapping.index = 2;
    // same virtual range as .text, tested second
    let sections = vec![text_section(), overlapping];
    let functions = vec![func("f", &[(IMAGE_BASE + 0x1100, IMAGE_BASE + 0x1104)])];
    let (modules, _) = map_functions(&functions, &sections, IMAGE_BASE).unwrap();
    assert_eq!(modules.len(), 1);
    assert_eq!(modules[0].name, ".text_module");
    assert_eq!(modules[0].section_index, 1);
}

#[test]
fn range_at_section_boundaries() {
    let sections = vec![text_section()];
    // starts exactly at the section start; one past the end is out
    let functions = vec![
        func("at_start", &[(IMAGE_BASE + 0x1000, IMAGE_BASE + 0x1004)]),
        func("past_end", &[(IMAGE_BASE + 0x3000, IMAGE_BASE + 0x3004)]),
    ];
    let (modules, publics) = map_functions(&functions, &sections, IMAGE_BASE).unwrap();
    assert_eq!(modules.len(), 1);
    assert_eq!(publics.len(), 1);
    let (n, o, ..) = expect_procedure(&modules[0].symbols[0]);
    assert_eq!(n, "at_start");
    assert_eq!(o, 0);
}

#[test]
fn no_functions_no_modules() {
    let sections = vec![text_section()];
    let functions: Vec<FunctionRecord> = vec![];
    let (modules, publics) = map_functions(&functions, &sections, IMAGE_BASE).unwrap();
    assert!(modules.is_empty());
    assert!(publics.is_empty());
}
