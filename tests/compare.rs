use std::collections::HashMap;
use func_compare::address_map::build_address_map;
use func_compare::disasm::{format_addrs, InstructionShape, OperandValue};
use func_compare::compare::{
    after_first_run, on_watch_event, run_disassemble, start_run, write_compare, CompareCommandInfo,
    CompareError, CompareOpts, WatchAction, WatchEvent,
};
use func_compare::diff::{compare_listings, summarize_changes, ChangeTag, LineChange};
use func_compare::disasm::DisasmOpts;
use func_compare::extract::{carve, function_sides, SliceError};
use func_compare::symbol_table::{get_pdb_funcs, RawFunction};
use func_compare::symbols::{FunctionDefinition, FunctionSymbol};

fn info(symbol: &str, truncate: bool, watch: bool) -> CompareCommandInfo {
    CompareCommandInfo {
        compare_opts: CompareOpts {
            orig: "orig.exe".to_string(),
            compare_file_path: "new.exe".to_string(),
            compare_pdb_file: "new.pdb".to_string(),
            debug_symbol: symbol.to_string(),
        },
        disasm_opts: DisasmOpts { print_adresses: false, show_mem_disp: true, show_imms: true },
        last_offset_size: None,
        enable_watcher: watch,
        truncate_to_original: truncate,
    }
}

fn def(name: &str, addr: u64, size: Option<usize>) -> FunctionDefinition {
    FunctionDefinition { name: name.to_string(), addr, size }
}

fn sym(offset: u64, size: usize) -> FunctionSymbol {
    FunctionSymbol { name: "f".to_string(), file: "f.cpp".to_string(), offset, size }
}

fn image(len: usize) -> Vec<u8> {
    (0..len).map(|i| (i % 251) as u8).collect()
}

#[test]
fn carve_takes_range() {
    let img = image(16);
    assert_eq!(carve(&img, 4, 3), vec![4, 5, 6]);
    assert_eq!(carve(&img, 16, 0), Vec::<u8>::new());
}

#[test]
fn truncation_clamps_rebuilt_side() {
    let orig = def("f", 0x401000, Some(0x10));
    let s = sym(0x20, 0x40);
    let orig_img = image(0x2000);
    let new_img = image(0x100);
    let name = "f".to_string();
    let sides = function_sides(&name, Some(&orig), Some(&s), 0x400000, true, &orig_img, &new_img).unwrap();
    let new = sides.new.unwrap();
    assert_eq!(new.bytes.len(), 0x10);
    assert_eq!(new.bytes, new_img[0x20..0x30].to_vec());
    assert_eq!(new.addr, 0x400C20);
    let o = sides.orig.unwrap();
    assert_eq!(o.bytes, orig_img[0x1000..0x1010].to_vec());
    assert_eq!(o.addr, 0x401000);

    let untruncated = function_sides(&name, Some(&orig), Some(&s), 0x400000, false, &orig_img, &new_img).unwrap();
    assert_eq!(untruncated.new.unwrap().bytes.len(), 0x40);
}

#[test]
fn truncation_without_reference_size_fails_first() {
    let orig = def("f", 0x401000, None);
    // out of bounds on both sides too: the size check comes first
    let s = sym(0x1000, 0x40);
    let name = "f".to_string();
    let r = function_sides(&name, Some(&orig), Some(&s), 0x400000, true, &Vec::new(), &Vec::new());
    assert!(matches!(r, Err(SliceError::RequiredSize(n)) if n == "f"));
    let r = function_sides(&name, None, Some(&s), 0x400000, true, &Vec::new(), &Vec::new());
    assert!(matches!(r, Err(SliceError::RequiredSize(_))));
}

#[test]
fn reference_size_falls_back_to_rebuilt() {
    let orig = def("f", 0x401000, None);
    let s = sym(0x10, 0x8);
    let name = "f".to_string();
    let orig_img = image(0x2000);
    let new_img = image(0x100);
    let sides = function_sides(&name, Some(&orig), Some(&s), 0x400000, false, &orig_img, &new_img).unwrap();
    assert_eq!(sides.orig.unwrap().bytes.len(), 8);
    let missing = function_sides(&name, Some(&orig), None, 0x400000, false, &orig_img, &new_img);
    assert!(matches!(missing, Err(SliceError::MissingSize(_))));
}

#[test]
fn out_of_bounds_ranges() {
    let name = "f".to_string();
    let img = image(0x100);
    let below = def("f", 0x300000, Some(4));
    assert!(matches!(
        function_sides(&name, Some(&below), None, 0x400000, false, &img, &img),
        Err(SliceError::OutOfBounds(_))
    ));
    let past = def("f", 0x4000FE, Some(4));
    assert!(matches!(
        function_sides(&name, Some(&past), None, 0x400000, false, &img, &img),
        Err(SliceError::OutOfBounds(_))
    ));
    let s = sym(0xF0, 0x20);
    assert!(matches!(
        function_sides(&name, None, Some(&s), 0x400000, false, &img, &img),
        Err(SliceError::OutOfBounds(_))
    ));
    let sides = function_sides(&name, None, None, 0x400000, false, &img, &img).unwrap();
    assert!(sides.orig.is_none() && sides.new.is_none());
}

#[test]
fn start_run_checks_config() {
    let funcs = vec![def("a", 0x401000, Some(4)), def("b", 0x401010, None), def("a", 0x402000, None)];
    let s = start_run(&info("a", true, false), &funcs).unwrap();
    assert_eq!(s.index, 0);
    assert!(!s.size_from_rebuilt);
    let s = start_run(&info("b", false, false), &funcs).unwrap();
    assert_eq!(s.index, 1);
    assert!(s.size_from_rebuilt);
    assert!(matches!(
        start_run(&info("b", true, false), &funcs),
        Err(CompareError::RequiredFunctionSizeNotFoundError(n)) if n == "b"
    ));
    assert!(matches!(start_run(&info("zzz", false, false), &funcs), Err(CompareError::ConfigSymbolNotFound)));
}

#[test]
fn write_compare_resolves_both_sides() {
    let records = vec![RawFunction {
        name: Some("f@4".to_string()),
        start_rva: 0x2C00,
        end_rva: Some(0x2C08),
        file: Some("f.cpp".to_string()),
    }];
    let table = get_pdb_funcs(&records).unwrap();
    let orig = def("f", 0x401000, Some(0x10));
    let orig_img = image(0x2000);
    let new_img = image(0x3000);
    let c = write_compare(&info("f", false, false), 0x400000, &orig, &table, &orig_img, &new_img).unwrap();
    assert_eq!(c.symbol.offset, 0x2000);
    assert_eq!(c.orig.bytes.len(), 0x10);
    assert_eq!(c.new.bytes, new_img[0x2000..0x2008].to_vec());
    assert_eq!(c.new.addr, 0x402C00);
    assert!(matches!(
        write_compare(&info("g", false, false), 0x400000, &orig, &table, &orig_img, &new_img),
        Err(CompareError::SymbolNotFound)
    ));
    let unsized_orig = def("f", 0x401000, None);
    assert!(matches!(
        write_compare(&info("f", true, false), 0x400000, &unsized_orig, &table, &orig_img, &new_img),
        Err(CompareError::RequiredFunctionSizeNotFoundError(_))
    ));
    assert!(matches!(
        write_compare(&info("f", false, false), 0x400000, &orig, &table, &orig_img, &image(4)),
        Err(CompareError::OutOfBoundsError(_))
    ));
}

#[test]
fn refresh_reports_deltas() {
    let mut i = info("f", false, true);
    let first = run_disassemble(&mut i, &sym(0x2000, 0x40), Some(0x30));
    assert_eq!(first, "Found f in f.cpp at 0x2000, size: 0x40; orig size: 0x30");
    assert_eq!(i.last_offset_size, Some((0x2000, 0x40)));
    let second = run_disassemble(&mut i, &sym(0x1FF0, 0x48), None);
    assert_eq!(second, "Found f in f.cpp at 0x1FF0 (-0x10), size: 0x48 (+0x8)");
    assert_eq!(i.last_offset_size, Some((0x1FF0, 0x48)));
}

#[test]
fn watch_decisions() {
    assert_eq!(after_first_run(&info("f", false, true)), WatchAction::Wait);
    assert_eq!(after_first_run(&info("f", false, false)), WatchAction::Done);
    assert_eq!(on_watch_event(WatchEvent::Created), WatchAction::Refresh);
    assert_eq!(on_watch_event(WatchEvent::Modified), WatchAction::Refresh);
    assert_eq!(on_watch_event(WatchEvent::Other), WatchAction::Wait);
    assert_eq!(on_watch_event(WatchEvent::Failed), WatchAction::Terminate);
}

#[test]
fn self_comparison_is_full_match() {
    let text = "push ebp\nmov ebp, esp\ncall foo\nret\n".to_string();
    let r = compare_listings(text.clone(), text.clone());
    assert!(r.is_full_match());
    assert_eq!(r.unified_diff, "");
    assert_eq!(r.equal_lines, 4);
    assert_eq!(r.deleted_lines, 0);
    assert_eq!(r.inserted_lines, 0);
    assert_eq!(r.orig_asm, text);
    let empty = compare_listings(String::new(), String::new());
    assert!(empty.is_full_match());
    assert_eq!(empty.diff_html, "");
}

#[test]
fn differing_listings() {
    let r = compare_listings("a\nb\nc\n".to_string(), "a\nx\nc\n".to_string());
    assert!(!r.is_full_match());
    assert_eq!(r.equal_lines, 2);
    assert_eq!(r.deleted_lines, 1);
    assert_eq!(r.inserted_lines, 1);
    assert!(r.unified_diff.contains("-b\n"));
    assert!(r.unified_diff.contains("+x\n"));
    assert_eq!(
        r.diff_html,
        "<tr><td>a\n</td><td>a\n</td></tr>\n<tr><td class=\"code-delete\">b\n</td><td></td></tr>\n<tr><td></td><td class=\"code-insert\">x\n</td></tr>\n<tr><td>c\n</td><td>c\n</td></tr>"
    );
}

#[test]
fn last_line_without_newline() {
    let r = compare_listings("a".to_string(), "".to_string());
    assert_eq!(r.deleted_lines, 1);
    assert_eq!(r.diff_html, "<tr><td class=\"code-delete\">a\n</td><td></td></tr>");
}

#[test]
fn summary_of_given_changes() {
    let changes = vec![
        LineChange { tag: ChangeTag::Equal, text: "nop\n".to_string() },
        LineChange { tag: ChangeTag::Insert, text: "ret".to_string() },
        LineChange { tag: ChangeTag::Delete, text: "int3\r".to_string() },
    ];
    let s = summarize_changes(&changes);
    assert_eq!(s.equal_lines, 1);
    assert_eq!(s.inserted_lines, 1);
    assert_eq!(s.deleted_lines, 1);
    assert_eq!(
        s.diff_html,
        "<tr><td>nop\n</td><td>nop\n</td></tr>\n<tr><td></td><td class=\"code-insert\">ret\n</td></tr>\n<tr><td class=\"code-delete\">int3\r</td><td></td></tr>"
    );
    assert_eq!(summarize_changes(&Vec::new()).diff_html, "");
}

#[test]
fn end_to_end_call_scenario() {
    // reference function at 0x00401000, size 0x10: call +0x0B, four nops, ret
    let mut orig_img = vec![0xCCu8; 0x2000];
    let body = [0xE8u8, 0x0B, 0x00, 0x00, 0x00, 0x90, 0x90, 0x90, 0x90, 0xC3];
    orig_img[0x1000..0x1000 + body.len()].copy_from_slice(&body);
    let orig = def("caller", 0x0040_1000, Some(0x10));
    let name = "caller".to_string();
    let sides = function_sides(&name, Some(&orig), None, 0x0040_0000, false, &orig_img, &Vec::new()).unwrap();
    let bytes = sides.orig.unwrap().bytes;
    assert_eq!(bytes.len(), 0x10);
    assert_eq!(&bytes[..body.len()], &body);

    let shape = InstructionShape { opcode: bytes[0], modrm_reg: 0, length: 5 };
    let imm = u32::from_le_bytes([bytes[1], bytes[2], bytes[3], bytes[4]]) as i32 as i64 as u64;
    let op = OperandValue::Immediate { value: imm, is_signed: true, is_relative: true, size: 32 };
    let o = DisasmOpts { print_adresses: false, show_mem_disp: true, show_imms: true };

    let unknown: HashMap<u64, FunctionDefinition> = build_address_map(&vec![orig.clone()]);
    assert_eq!(format_addrs(shape, op, 0x0040_1000, o, &unknown), "0x401010");
    let known = build_address_map(&vec![orig.clone(), def("callee(void)", 0x0040_1010, None)]);
    assert_eq!(format_addrs(shape, op, 0x0040_1000, o, &known), "callee");

    // the rebuilt side: relative offset 0x2000 is 0x00402C00 in its own space
    let records = vec![RawFunction { name: Some("caller".to_string()), start_rva: 0x2C00, end_rva: Some(0x2C10), file: None }];
    let table = get_pdb_funcs(&records).unwrap();
    assert_eq!(table.get("caller").unwrap().as_function_definition().addr, 0x0040_2C00);
}
