use std::collections::HashMap;

use func_compare::diff::compare_listings;
use func_compare::disasm::{
    cleanup_name, compute_call_target, format_addrs, render_listing, void_format_disp,
    void_format_imms, DisasmOpts, FormattedInstruction, InstructionShape, OperandValue,
};
use func_compare::symbols::{FunctionDefinition, FunctionSymbol};

fn opts(show_ip: bool, show_mem_disp: bool, show_imms: bool) -> DisasmOpts {
    DisasmOpts { print_adresses: show_ip, show_mem_disp, show_imms }
}

fn call_shape() -> InstructionShape {
    InstructionShape { opcode: 0xE8, modrm_reg: 0, length: 5 }
}

fn call_imm(value: u64) -> OperandValue {
    OperandValue::Immediate { value, is_signed: true, is_relative: true, size: 32 }
}

fn def(name: &str, addr: u64) -> FunctionDefinition {
    FunctionDefinition { name: name.to_string(), addr, size: None }
}

#[test]
fn options_from_flags() {
    assert_eq!(DisasmOpts::from_flags(true, true, false), opts(true, false, true));
    assert_eq!(DisasmOpts::from_flags(false, false, true), opts(false, true, false));
}

#[test]
fn call_into_unknown_target_shows_address() {
    // call +0x0B at 0x401000: 0x401000 + 5 + 0x0B
    let map: HashMap<u64, FunctionDefinition> = HashMap::new();
    assert_eq!(compute_call_target(0x401000, 5, 0x0B), 0x401010);
    let text = format_addrs(call_shape(), call_imm(0x0B), 0x401000, opts(false, true, true), &map);
    assert_eq!(text, "0x401010");
}

#[test]
fn call_into_known_target_shows_name() {
    let mut map = HashMap::new();
    map.insert(0x401010, def("target(int)", 0x401010));
    let text = format_addrs(call_shape(), call_imm(0x0B), 0x401000, opts(false, true, true), &map);
    assert_eq!(text, "target");
}

#[test]
fn backward_call_wraps_signed_offset() {
    let mut map = HashMap::new();
    map.insert(0x400FF0, def("back", 0x400FF0));
    // -0x15 as 64-bit two's complement
    let imm = (-0x15i64) as u64;
    assert_eq!(compute_call_target(0x401000, 5, imm), 0x400FF0);
    let text = format_addrs(call_shape(), call_imm(imm), 0x401000, opts(false, true, true), &map);
    assert_eq!(text, "back");
}

#[test]
fn rebuilt_side_call_resolves_in_its_own_map() {
    let sym = FunctionSymbol { name: "callee".to_string(), file: String::new(), offset: 0x2010, size: 4 };
    let mut map = HashMap::new();
    let (addr, d) = sym.as_function_definition_pair();
    map.insert(addr, d);
    let text = format_addrs(call_shape(), call_imm(0x0B), 0x402C00, opts(false, true, true), &map);
    assert_eq!(text, "callee");
}

#[test]
fn memory_operands() {
    let map: HashMap<u64, FunctionDefinition> = HashMap::new();
    let mov = InstructionShape { opcode: 0x8B, modrm_reg: 0, length: 6 };
    let indirect = InstructionShape { opcode: 0xFF, modrm_reg: 2, length: 6 };
    let far = InstructionShape { opcode: 0xFF, modrm_reg: 3, length: 6 };
    let push = InstructionShape { opcode: 0xFF, modrm_reg: 6, length: 6 };
    let mem = OperandValue::Memory { has_displacement: true, displacement: 0x4A3F10, size: 32 };
    let none = OperandValue::Memory { has_displacement: false, displacement: 0, size: 32 };
    let o = opts(false, true, true);
    assert_eq!(format_addrs(mov, mem, 0x401000, o, &map), "0x4A3F10");
    assert_eq!(format_addrs(indirect, mem, 0x401000, o, &map), "<indir_fn>");
    assert_eq!(format_addrs(far, mem, 0x401000, o, &map), "<indir_fn>");
    assert_eq!(format_addrs(push, mem, 0x401000, o, &map), "0x4A3F10");
    assert_eq!(format_addrs(mov, none, 0x401000, o, &map), "<indir_addr>");
    let neg = OperandValue::Memory { has_displacement: true, displacement: -8, size: 32 };
    assert_eq!(format_addrs(mov, neg, 0x401000, o, &map), "0xFFFFFFFFFFFFFFF8");
}

#[test]
fn other_immediates() {
    let map: HashMap<u64, FunctionDefinition> = HashMap::new();
    let jmp = InstructionShape { opcode: 0xEB, modrm_reg: 0, length: 2 };
    let rel = OperandValue::Immediate { value: 0x10, is_signed: true, is_relative: true, size: 8 };
    let back = OperandValue::Immediate { value: (-6i64) as u64, is_signed: true, is_relative: true, size: 8 };
    let abs = OperandValue::Immediate { value: 0x20, is_signed: false, is_relative: false, size: 32 };
    assert_eq!(format_addrs(jmp, rel, 0x401000, opts(false, true, true), &map), "$+0x10");
    assert_eq!(format_addrs(jmp, back, 0x401000, opts(false, true, true), &map), "$-0x6");
    assert_eq!(format_addrs(jmp, abs, 0x401000, opts(false, true, true), &map), "+0x20");
    assert_eq!(format_addrs(jmp, abs, 0x401000, opts(false, true, false), &map), "<imm_addr>");
    assert_eq!(format_addrs(jmp, OperandValue::Other, 0x401000, opts(false, true, true), &map), "");
}

#[test]
fn placeholders() {
    let neg = OperandValue::Memory { has_displacement: true, displacement: -8, size: 32 };
    let pos = OperandValue::Memory { has_displacement: true, displacement: 8, size: 16 };
    let none = OperandValue::Memory { has_displacement: false, displacement: 0, size: 32 };
    assert_eq!(void_format_disp(neg), "-<disp32>");
    assert_eq!(void_format_disp(pos), "+<disp16>");
    assert_eq!(void_format_disp(none), "");
    assert_eq!(void_format_imms(32), "<imm32>");
    assert_eq!(void_format_imms(8), "<imm8>");
}

#[test]
fn cleanup_strips_suffix() {
    assert_eq!(cleanup_name("foo(int)"), "foo");
    assert_eq!(cleanup_name("bar"), "bar");
    assert_eq!(cleanup_name("(x)"), "");
}

fn lines(texts: &[(u64, &str)]) -> Vec<FormattedInstruction> {
    texts.iter().map(|(ip, t)| FormattedInstruction { ip: *ip, text: t.to_string() }).collect()
}

#[test]
fn listing_lines() {
    let l = lines(&[(0x401000, "call 0x401010"), (0x401005, "nop")]);
    assert_eq!(render_listing(&l, opts(false, true, true)), "call 0x401010\nnop\n");
    assert_eq!(
        render_listing(&l, opts(true, true, true)),
        "401000: call 0x401010\n401005: nop\n"
    );
    assert_eq!(render_listing(&Vec::new(), opts(true, true, true)), "");
}

#[test]
fn listing_is_deterministic() {
    let l = lines(&[(0x401000, "push ebp"), (0x401001, "mov ebp, esp")]);
    let o = opts(true, false, false);
    assert_eq!(render_listing(&l, o), render_listing(&l, o));
}

#[test]
fn hidden_immediates_compare_equal() {
    let map: HashMap<u64, FunctionDefinition> = HashMap::new();
    let mov = InstructionShape { opcode: 0xB8, modrm_reg: 0, length: 5 };
    let o = opts(false, true, false);
    let a = OperandValue::Immediate { value: 0x1234, is_signed: false, is_relative: false, size: 32 };
    let b = OperandValue::Immediate { value: 0x9999, is_signed: false, is_relative: false, size: 32 };
    let ta = format!("mov eax, {}", format_addrs(mov, a, 0x401000, o, &map));
    let tb = format!("mov eax, {}", format_addrs(mov, b, 0x402C00, o, &map));
    assert_eq!(ta, tb);
    let pa = format!("push {}", void_format_imms(32));
    let pb = format!("push {}", void_format_imms(32));
    let la = render_listing(&lines(&[(0x401000, ta.as_str()), (0x401005, pa.as_str())]), o);
    let lb = render_listing(&lines(&[(0x402C00, tb.as_str()), (0x402C05, pb.as_str())]), o);
    let r = compare_listings(la, lb);
    assert!(r.is_full_match());
    assert_eq!(r.unified_diff, "");

    let shown = opts(false, true, true);
    let sa = format_addrs(mov, a, 0x401000, shown, &map);
    let sb = format_addrs(mov, b, 0x401000, shown, &map);
    assert_ne!(sa, sb);
}

#[test]
fn hidden_displacements() {
    let map: HashMap<u64, FunctionDefinition> = HashMap::new();
    let mov = InstructionShape { opcode: 0x8B, modrm_reg: 0, length: 6 };
    let call = InstructionShape { opcode: 0xFF, modrm_reg: 2, length: 6 };
    let a = OperandValue::Memory { has_displacement: true, displacement: 0x4A3F10, size: 32 };
    let b = OperandValue::Memory { has_displacement: true, displacement: 0x5B0000, size: 32 };
    let hidden = opts(false, false, true);
    assert_eq!(format_addrs(mov, a, 0x401000, hidden, &map), "<indir_addr>");
    assert_eq!(format_addrs(mov, b, 0x401000, hidden, &map), "<indir_addr>");
    assert_eq!(void_format_disp(a), void_format_disp(b));
    assert_eq!(format_addrs(call, a, 0x401000, hidden, &map), "<indir_fn>");
}

#[test]
fn call_target_wraps_at_32_bits() {
    assert_eq!(compute_call_target(0xFFFF_FFF0, 5, 0x20), 0x15);
    assert_eq!(compute_call_target(0x401000, 5, u64::MAX), 0x401004);
}
