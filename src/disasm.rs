//! The selective disassembly formatter: the operand texts that replace the
//! decoder's own, so that addresses that differ between two binaries do not
//! show as differences, and direct call targets show as function names.

use vstd::prelude::*;
use std::collections::HashMap;
use crate::numfmt::{
    decimal_digits, format_hex, format_plus_hex, format_signed_hex, hex_digits, hex_text,
    push_decimal, push_hex_digits, signed_hex_text,
};
use crate::symbols::FunctionDefinition;

verus! {

broadcast use vstd::std_specs::hash::group_hash_axioms;

/// What a listing shows and hides; the same options apply to both sides of
/// a comparison.
#[derive(Debug, Clone, Copy, PartialEq, Eq, Structural)]
pub struct DisasmOpts {
    /// Prefix each line with its instruction address.
    pub print_adresses: bool,
    /// Show memory displacements.
    pub show_mem_disp: bool,
    /// Show immediate values.
    pub show_imms: bool,
}

impl DisasmOpts {
    /// The options that the command-line switches select.
    pub fn from_flags(show_ip: bool, no_mem_disp: bool, no_imms: bool) -> (r: DisasmOpts)
        ensures
            r == (DisasmOpts {
                print_adresses: show_ip,
                show_mem_disp: !no_mem_disp,
                show_imms: !no_imms,
            }),
    {
        DisasmOpts { print_adresses: show_ip, show_mem_disp: !no_mem_disp, show_imms: !no_imms }
    }
}

/// Failure to produce a listing.
#[derive(Debug)]
pub enum DisasmError {
    /// Writing the listing failed.
    IoError(String),
    /// The decoder or formatter failed, with its status code.
    ZydisError(u32),
}

/// The parts of a decoded instruction that operand formatting reads.
#[derive(Debug, Clone, Copy, PartialEq, Eq, Structural)]
pub struct InstructionShape {
    /// The primary opcode byte.
    pub opcode: u8,
    /// The reg field of the ModRM byte.
    pub modrm_reg: u8,
    /// The instruction's length in bytes.
    pub length: u8,
}

/// A decoded operand, as far as operand formatting reads it.
#[derive(Debug, Clone, Copy, PartialEq, Eq, Structural)]
pub enum OperandValue {
    Memory { has_displacement: bool, displacement: i64, size: u16 },
    Immediate { value: u64, is_signed: bool, is_relative: bool, size: u16 },
    Other,
}

/// Opcode of a direct near call with a relative target.
pub const DIRECT_CALL_OPCODE: u8 = 0xE8;

/// Opcode of the group whose reg fields 2 and 3 are indirect calls.
pub const INDIRECT_GROUP_OPCODE: u8 = 0xFF;

/// The target of a direct call at `ip` in 32-bit code: the address after
/// the instruction plus the immediate's bits, modulo 2^32.
pub open spec fn call_target(ip: u64, length: u8, value: u64) -> u64 {
    ((ip + length + value) % 0x1_0000_0000int) as u64
}

/// The bits of a `u64` read as a two's complement signed value.
pub open spec fn as_signed(v: u64) -> int {
    if v > 0x7FFF_FFFF_FFFF_FFFF {
        v - 0x1_0000_0000_0000_0000int
    } else {
        v as int
    }
}

/// The bits of an `i64` read as an unsigned value.
pub open spec fn as_unsigned(v: i64) -> nat {
    if v < 0 {
        (v + 0x1_0000_0000_0000_0000int) as nat
    } else {
        v as nat
    }
}

/// A name up to its first `(`.
pub open spec fn before_paren(s: Seq<char>) -> Seq<char>
    decreases s.len(),
{
    if s.len() == 0 || s[0] == '(' {
        Seq::empty()
    } else {
        seq![s[0]] + before_paren(s.drop_first())
    }
}

/// The text of an immediate with its sign: signed values as `+0x..` or
/// `-0x..`, unsigned ones as `+0x..`.
pub open spec fn immediate_value_text(value: u64, is_signed: bool) -> Seq<char> {
    if is_signed {
        signed_hex_text(as_signed(value))
    } else {
        seq!['+'] + hex_text(value as nat)
    }
}

/// An indirect call or jump through memory (`FF /2`, `FF /3`).
pub open spec fn is_indirect_call(insn: InstructionShape) -> bool {
    insn.opcode == INDIRECT_GROUP_OPCODE && (insn.modrm_reg == 2 || insn.modrm_reg == 3)
}

/// What stands for an address operand: a memory operand's displacement
/// (hidden behind `<indir_fn>` for indirect calls, `<indir_addr>` when there
/// is none or displacements are hidden), the name of a direct call's target when `fn_map` knows it (else
/// its address), and for other immediates the relative delta after `$`, or
/// the absolute value (`<imm_addr>` when immediates are hidden).
pub open spec fn address_operand_text(
    insn: InstructionShape,
    op: OperandValue,
    ip: u64,
    opts: DisasmOpts,
    fn_map: Map<u64, FunctionDefinition>,
) -> Seq<char> {
    match op {
        OperandValue::Memory { has_displacement, displacement, .. } => {
            if !has_displacement {
                "<indir_addr>"@
            } else if is_indirect_call(insn) {
                "<indir_fn>"@
            } else if !opts.show_mem_disp {
                "<indir_addr>"@
            } else {
                hex_text(as_unsigned(displacement))
            }
        },
        OperandValue::Immediate { value, is_signed, is_relative, .. } => {
            if insn.opcode == DIRECT_CALL_OPCODE {
                let target = call_target(ip, insn.length, value);
                if fn_map.contains_key(target) {
                    before_paren(fn_map[target].name@)
                } else {
                    hex_text(target as nat)
                }
            } else if is_relative {
                "$"@ + immediate_value_text(value, is_signed)
            } else if !opts.show_imms {
                "<imm_addr>"@
            } else {
                immediate_value_text(value, is_signed)
            }
        },
        OperandValue::Other => Seq::empty(),
    }
}

/// What follows a memory operand's base and index when displacements are
/// hidden: the displacement's sign and `<dispN>`, N being the operand width.
pub open spec fn displacement_placeholder_text(op: OperandValue) -> Seq<char> {
    match op {
        OperandValue::Memory { has_displacement, displacement, size } => {
            if has_displacement {
                (if displacement < 0 {
                    "-"@
                } else {
                    "+"@
                }) + "<disp"@ + decimal_digits(size as nat) + ">"@
            } else {
                Seq::empty()
            }
        },
        _ => Seq::empty(),
    }
}

/// What stands for an immediate when immediates are hidden: `<immN>`, N
/// being the operand width.
pub open spec fn immediate_placeholder_text(size: u16) -> Seq<char> {
    "<imm"@ + decimal_digits(size as nat) + ">"@
}

proof fn lemma_before_paren_prefix(s: Seq<char>, i: int)
    requires
        0 <= i <= s.len(),
        forall|j: int| 0 <= j < i ==> s[j] != '(',
        i == s.len() || s[i] == '(',
    ensures
        before_paren(s) == s.subrange(0, i),
    decreases i,
{
    if i == 0 {
        assert(s.subrange(0, 0) =~= Seq::<char>::empty());
    } else {
        let t = s.drop_first();
        assert forall|j: int| 0 <= j < i - 1 implies t[j] != '(' by {
            assert(t[j] == s[j + 1]);
        }
        lemma_before_paren_prefix(t, i - 1);
        assert(s.subrange(0, i) =~= seq![s[0]] + t.subrange(0, i - 1));
    }
}

/// A name up to its first `(`: the disambiguation suffix of a symbol name
/// removed.
pub fn cleanup_name(name: &str) -> (r: String)
    ensures
        r@ == before_paren(name@),
{
    let n = name.unicode_len();
    let mut i: usize = 0;
    while i < n && name.get_char(i) != '('
        invariant
            n == name@.len(),
            i <= n,
            forall|j: int| 0 <= j < i ==> name@[j] != '(',
        decreases n - i,
    {
        i = i + 1;
    }
    proof {
        lemma_before_paren_prefix(name@, i as int);
    }
    String::from_str(name.substring_char(0, i))
}

/// The immediate's text with its sign, as [`immediate_value_text`] says.
fn format_immediate_value(value: u64, is_signed: bool) -> (r: String)
    ensures
        r@ == immediate_value_text(value, is_signed),
{
    if is_signed {
        let s: i64 = if value <= 0x7FFF_FFFF_FFFF_FFFF {
            value as i64
        } else {
            ((value - 0x8000_0000_0000_0000u64) as i64) + i64::MIN
        };
        format_signed_hex(s)
    } else {
        format_plus_hex(value)
    }
}

/// The direct call target of [`call_target`].
pub fn compute_call_target(ip: u64, length: u8, value: u64) -> (r: u64)
    ensures
        r == call_target(ip, length, value),
{
    let m: u64 = 0x1_0000_0000;
    let a = ip % m;
    let b = value % m;
    proof {
        vstd::arithmetic::div_mod::lemma_add_mod_noop(ip as int + length as int, value as int, m as int);
        vstd::arithmetic::div_mod::lemma_add_mod_noop(ip as int, length as int, m as int);
        vstd::arithmetic::div_mod::lemma_add_mod_noop(a as int + length as int, b as int, m as int);
        vstd::arithmetic::div_mod::lemma_add_mod_noop(a as int, length as int, m as int);
        vstd::arithmetic::div_mod::lemma_mod_twice(ip as int, m as int);
        vstd::arithmetic::div_mod::lemma_mod_twice(value as int, m as int);
    }
    (a + length as u64 + b) % m
}

/// The text that stands for an address operand, as
/// [`address_operand_text`] says.
pub fn format_addrs(
    insn: InstructionShape,
    op: OperandValue,
    ip: u64,
    opts: DisasmOpts,
    fn_map: &HashMap<u64, FunctionDefinition>,
) -> (r: String)
    ensures
        r@ == address_operand_text(insn, op, ip, opts, fn_map@),
{
    match op {
        OperandValue::Memory { has_displacement, displacement, .. } => {
            if !has_displacement {
                String::from_str("<indir_addr>")
            } else if insn.opcode == INDIRECT_GROUP_OPCODE && (insn.modrm_reg == 2
                || insn.modrm_reg == 3) {
                String::from_str("<indir_fn>")
            } else if !opts.show_mem_disp {
                String::from_str("<indir_addr>")
            } else {
                let bits: u64 = if displacement < 0 {
                    (displacement as i128 + 0x1_0000_0000_0000_0000i128) as u64
                } else {
                    displacement as u64
                };
                format_hex(bits)
            }
        },
        OperandValue::Immediate { value, is_signed, is_relative, .. } => {
            if insn.opcode == DIRECT_CALL_OPCODE {
                let target = compute_call_target(ip, insn.length, value);
                match fn_map.get(&target) {
                    Some(func) => cleanup_name(func.name.as_str()),
                    None => format_hex(target),
                }
            } else if is_relative {
                let mut r = String::from_str("$");
                let v = format_immediate_value(value, is_signed);
                r.append(v.as_str());
                r
            } else if !opts.show_imms {
                String::from_str("<imm_addr>")
            } else {
                format_immediate_value(value, is_signed)
            }
        },
        OperandValue::Other => String::new(),
    }
}

/// The text that follows a memory operand when displacements are hidden,
/// as [`displacement_placeholder_text`] says.
pub fn void_format_disp(op: OperandValue) -> (r: String)
    ensures
        r@ == displacement_placeholder_text(op),
{
    match op {
        OperandValue::Memory { has_displacement, displacement, size } => {
            if has_displacement {
                let mut r = if displacement < 0 {
                    String::from_str("-")
                } else {
                    String::from_str("+")
                };
                r.append("<disp");
                push_decimal(&mut r, size as u64);
                r.append(">");
                r
            } else {
                String::new()
            }
        },
        _ => String::new(),
    }
}

/// The text that stands for an immediate when immediates are hidden.
pub fn void_format_imms(size: u16) -> (r: String)
    ensures
        r@ == immediate_placeholder_text(size),
{
    let mut r = String::from_str("<imm");
    push_decimal(&mut r, size as u64);
    r.append(">");
    r
}

/// One decoded and formatted instruction: its address and its text.
pub struct FormattedInstruction {
    pub ip: u64,
    pub text: String,
}

/// One listing line: the address in uppercase hexadecimal and `: ` when
/// addresses are shown, the instruction text, a newline.
pub open spec fn line_text(ip: u64, text: Seq<char>, opts: DisasmOpts) -> Seq<char> {
    (if opts.print_adresses {
        hex_digits(ip as nat) + ": "@
    } else {
        Seq::empty()
    }) + text + "\n"@
}

/// The listing of a sequence of instructions, one line each, in order.
pub open spec fn listing_text(lines: Seq<FormattedInstruction>, opts: DisasmOpts) -> Seq<char>
    decreases lines.len(),
{
    if lines.len() == 0 {
        Seq::empty()
    } else {
        listing_text(lines.drop_last(), opts) + line_text(
            lines.last().ip,
            lines.last().text@,
            opts,
        )
    }
}

/// The listing text of formatted instructions, one line each.
pub fn render_listing(lines: &Vec<FormattedInstruction>, opts: DisasmOpts) -> (r: String)
    ensures
        r@ == listing_text(lines@, opts),
{
    let mut out = String::new();
    let mut i: usize = 0;
    while i < lines.len()
        invariant
            i <= lines@.len(),
            out@ == listing_text(lines@.subrange(0, i as int), opts),
        decreases lines@.len() - i,
    {
        let ghost before = out@;
        let line = &lines[i];
        if opts.print_adresses {
            push_hex_digits(&mut out, line.ip);
            out.append(": ");
        }
        out.append(line.text.as_str());
        out.append("\n");
        proof {
            let next = lines@.subrange(0, i as int + 1);
            assert(next.drop_last() =~= lines@.subrange(0, i as int));
            assert(out@ =~= before + line_text(line.ip, line.text@, opts));
        }
        i = i + 1;
    }
    assert(lines@.subrange(0, lines@.len() as int) =~= lines@);
    out
}

/// Rendering is a function of its inputs: two listings of the same
/// instructions under the same options are the same text.
pub proof fn lemma_render_deterministic(
    a: Seq<FormattedInstruction>,
    b: Seq<FormattedInstruction>,
    opts: DisasmOpts,
    ra: Seq<char>,
    rb: Seq<char>,
)
    requires
        a == b,
        ra == listing_text(a, opts),
        rb == listing_text(b, opts),
    ensures
        ra == rb,
{
}

/// A direct call whose target the address map knows shows the target's
/// name up to its first `(`, never an address.
pub proof fn lemma_known_call_target_named(
    insn: InstructionShape,
    op: OperandValue,
    ip: u64,
    opts: DisasmOpts,
    fn_map: Map<u64, FunctionDefinition>,
)
    requires
        insn.opcode == DIRECT_CALL_OPCODE,
        op is Immediate,
        fn_map.contains_key(call_target(ip, insn.length, op->value)),
    ensures
        address_operand_text(insn, op, ip, opts, fn_map) == before_paren(
            fn_map[call_target(ip, insn.length, op->value)].name@,
        ),
{
}

/// A direct call whose target the address map does not know shows the
/// target address as `0x` and uppercase hexadecimal digits.
pub proof fn lemma_unknown_call_target_hex(
    insn: InstructionShape,
    op: OperandValue,
    ip: u64,
    opts: DisasmOpts,
    fn_map: Map<u64, FunctionDefinition>,
)
    requires
        insn.opcode == DIRECT_CALL_OPCODE,
        op is Immediate,
        !fn_map.contains_key(call_target(ip, insn.length, op->value)),
    ensures
        address_operand_text(insn, op, ip, opts, fn_map) == hex_text(
            call_target(ip, insn.length, op->value) as nat,
        ),
{
}

/// With immediates hidden, two absolute immediates that differ only in
/// value show the same text (the immediate placeholder of
/// [`void_format_imms`] reads the operand width alone).
pub proof fn lemma_hidden_immediates_agree(
    insn: InstructionShape,
    v1: u64,
    v2: u64,
    is_signed: bool,
    size: u16,
    ip: u64,
    opts: DisasmOpts,
    fn_map: Map<u64, FunctionDefinition>,
)
    requires
        !opts.show_imms,
        insn.opcode != DIRECT_CALL_OPCODE,
    ensures
        address_operand_text(
            insn,
            OperandValue::Immediate { value: v1, is_signed, is_relative: false, size },
            ip,
            opts,
            fn_map,
        ) == address_operand_text(
            insn,
            OperandValue::Immediate { value: v2, is_signed, is_relative: false, size },
            ip,
            opts,
            fn_map,
        ),
{
}

/// With displacements hidden, two memory operands that differ only in a
/// displacement of the same sign show the same text, through the address
/// hook and through the displacement placeholder.
pub proof fn lemma_hidden_displacements_agree(
    insn: InstructionShape,
    d1: i64,
    d2: i64,
    size: u16,
    ip: u64,
    opts: DisasmOpts,
    fn_map: Map<u64, FunctionDefinition>,
)
    requires
        !opts.show_mem_disp,
        (d1 < 0) == (d2 < 0),
    ensures
        address_operand_text(
            insn,
            OperandValue::Memory { has_displacement: true, displacement: d1, size },
            ip,
            opts,
            fn_map,
        ) == address_operand_text(
            insn,
            OperandValue::Memory { has_displacement: true, displacement: d2, size },
            ip,
            opts,
            fn_map,
        ),
        displacement_placeholder_text(
            OperandValue::Memory { has_displacement: true, displacement: d1, size },
        ) == displacement_placeholder_text(
            OperandValue::Memory { has_displacement: true, displacement: d2, size },
        ),
{
}

} // verus!
