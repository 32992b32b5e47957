use func_compare::diff::compare_listings;
use func_compare::disasm::DisasmOpts;
use func_compare::report::{
    count_matching_functions, create_comparison_data, dual_function_report, get_orig_func, get_pathname,
    report_function_names, GenerateReportCommandInfo, GenerateReportError, GenerateReportOpts,
};
use func_compare::symbol_table::{get_pdb_funcs, RawFunction};
use func_compare::symbols::FunctionDefinition;

fn def(name: &str, addr: u64, size: Option<usize>) -> FunctionDefinition {
    FunctionDefinition { name: name.to_string(), addr, size }
}

fn raw(name: &str, start: u32, end: u32) -> RawFunction {
    RawFunction { name: Some(name.to_string()), start_rva: start, end_rva: Some(end), file: Some("x.cpp".to_string()) }
}

fn info(truncate: bool) -> GenerateReportCommandInfo {
    GenerateReportCommandInfo {
        report_opts: GenerateReportOpts {
            orig: "o.exe".to_string(),
            compare_file_path: "n.exe".to_string(),
            compare_pdb_file: "n.pdb".to_string(),
        },
        disasm_opts: DisasmOpts { print_adresses: false, show_mem_disp: true, show_imms: true },
        truncate_to_original: truncate,
    }
}

#[test]
fn names_are_unique_in_order() {
    let funcs = vec![def("b", 1, None), def("a", 2, None), def("b", 3, None)];
    let table = get_pdb_funcs(&vec![raw("c", 0xC10, 0xC20), raw("a@4", 0xC20, 0xC30)]).unwrap();
    let names = report_function_names(&funcs, &table);
    assert_eq!(names, vec!["b".to_string(), "a".to_string(), "c".to_string()]);
}

#[test]
fn last_definition_wins() {
    let funcs = vec![def("a", 1, None), def("b", 2, None), def("a", 3, None)];
    assert_eq!(get_orig_func(&funcs, "a"), Some(2));
    assert_eq!(get_orig_func(&funcs, "b"), Some(1));
    assert_eq!(get_orig_func(&funcs, "z"), None);
}

#[test]
fn page_names() {
    assert_eq!(get_pathname("foo"), "report/foo.html");
    assert_eq!(get_pathname("a<b>:c\"d/e\\f|g?h*"), "report/a_b__c_d_e_f_g_h_.html");
}

#[test]
fn comparison_data_and_reports() {
    let table = get_pdb_funcs(&vec![raw("f", 0xC10, 0xC14)]).unwrap();
    let orig = def("f", 0x401000, Some(4));
    let img = vec![0x90u8; 0x2000];
    let name = "f".to_string();
    let sym = table.get("f");
    let sides = create_comparison_data(&name, Some(&orig), sym, 0x400000, &info(false), &img, &img).unwrap();
    assert_eq!(sides.orig.as_ref().unwrap().bytes.len(), 4);
    assert_eq!(sides.new.as_ref().unwrap().addr, 0x400C10);
    let only_orig = create_comparison_data(&name, Some(&orig), None, 0x400000, &info(false), &img, &img).unwrap();
    assert!(only_orig.new.is_none());
    let unsized_orig = def("f", 0x401000, None);
    assert!(matches!(
        create_comparison_data(&name, Some(&unsized_orig), None, 0x400000, &info(false), &img, &img),
        Err(GenerateReportError::MissingSizeError(_))
    ));
    assert!(matches!(
        create_comparison_data(&name, None, sym, 0x400000, &info(true), &img, &img),
        Err(GenerateReportError::RequiredFunctionSizeNotFoundError(_))
    ));
    assert!(matches!(
        create_comparison_data(&name, Some(&orig), sym, 0x400000, &info(false), &img, &vec![0u8; 4]),
        Err(GenerateReportError::OutOfBoundsError(_))
    ));

    let same = compare_listings("nop\n".to_string(), "nop\n".to_string());
    let differ = compare_listings("nop\n".to_string(), "ret\n".to_string());
    let r1 = dual_function_report(&name, Some(&orig), sym, Some(same));
    assert_eq!(r1.file, "x.cpp");
    assert_eq!(r1.new_addr, Some(0x10));
    assert_eq!(r1.new_size, Some(4));
    assert_eq!(r1.orig_addr, Some(0x401000));
    assert_eq!(r1.orig_size, Some(4));
    let r2 = dual_function_report(&name, None, None, Some(differ));
    assert_eq!(r2.file, "");
    assert_eq!(r2.orig_addr, None);
    let r3 = dual_function_report(&name, Some(&orig), None, None);
    assert_eq!(count_matching_functions(&vec![r1, r2, r3]), 1);
}
