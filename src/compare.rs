//! The single-function comparison command: finding the function on both
//! sides, taking its bytes, and reporting where it was found on each
//! refresh.

use vstd::prelude::*;
use crate::disasm::{DisasmError, DisasmOpts};
use crate::extract::{
    function_sides, rebuilt_in_bounds, reference_in_bounds, reference_len, rebuilt_len,
    FunctionBytes, SliceError,
};
use crate::numfmt::{format_delta, format_hex, hex_text, signed_hex_text};
use crate::symbol_table::{PdbError, SymbolTable};
use crate::symbols::{FunctionDefinition, FunctionSymbol, SymbolModel, PDB_SEGMENT_OFFSET};
use crate::text::str_eq;

verus! {

/// The files and function a comparison is about.
#[derive(Debug)]
pub struct CompareOpts {
    /// The reference binary.
    pub orig: String,
    /// The rebuilt binary.
    pub compare_file_path: String,
    /// The rebuilt binary's debug file.
    pub compare_pdb_file: String,
    /// The function to compare.
    pub debug_symbol: String,
}

/// A single-function comparison, and the address and size at which the
/// previous refresh found the function.
#[derive(Debug)]
pub struct CompareCommandInfo {
    pub compare_opts: CompareOpts,
    pub disasm_opts: DisasmOpts,
    pub last_offset_size: Option<(u64, usize)>,
    pub enable_watcher: bool,
    pub truncate_to_original: bool,
}

/// Why a comparison failed.
#[derive(Debug)]
pub enum CompareError {
    PdbError(PdbError),
    /// The function is not declared in the configuration.
    ConfigSymbolNotFound,
    /// The function is not in the debug file.
    SymbolNotFound,
    IoError(String),
    DisasmError(DisasmError),
    NotifyError(String),
    /// Truncation was asked for but the reference function has no size.
    RequiredFunctionSizeNotFoundError(String),
    /// No side gives the reference function a size.
    MissingSizeError(String),
    /// The function's range lies outside a binary image.
    OutOfBoundsError(String),
}

/// The index of the first definition named `name`.
pub open spec fn is_first_named(funcs: Seq<FunctionDefinition>, name: Seq<char>, i: int) -> bool {
    &&& 0 <= i < funcs.len()
    &&& funcs[i].name@ == name
    &&& forall|j: int| 0 <= j < i ==> (#[trigger] funcs[j]).name@ != name
}

/// The first definition named `name`.
pub fn find_orig_function(funcs: &Vec<FunctionDefinition>, name: &str) -> (r: Option<usize>)
    ensures
        match r {
            Some(i) => is_first_named(funcs@, name@, i as int),
            None => forall|j: int| 0 <= j < funcs@.len() ==> (#[trigger] funcs@[j]).name@ != name@,
        },
{
    let mut i: usize = 0;
    while i < funcs.len()
        invariant
            i <= funcs@.len(),
            forall|j: int| 0 <= j < i ==> (#[trigger] funcs@[j]).name@ != name@,
        decreases funcs@.len() - i,
    {
        if str_eq(funcs[i].name.as_str(), name) {
            return Some(i);
        }
        i = i + 1;
    }
    None
}

/// The reference function a comparison run starts from.
pub struct RunStart {
    /// Its index in the configuration.
    pub index: usize,
    /// It declares no size, so the rebuilt function's size stands in.
    pub size_from_rebuilt: bool,
}

/// Finds the compared function in the configuration and checks that a
/// size can be had for it: a missing size fails under truncation and is
/// borrowed from the rebuilt side otherwise.
pub fn start_run(info: &CompareCommandInfo, funcs: &Vec<FunctionDefinition>) -> (r: Result<RunStart, CompareError>)
    ensures
        match r {
            Ok(s) => is_first_named(funcs@, info.compare_opts.debug_symbol@, s.index as int)
                && s.size_from_rebuilt == (funcs@[s.index as int].size is None)
                && !(info.truncate_to_original && funcs@[s.index as int].size is None),
            Err(CompareError::ConfigSymbolNotFound) => forall|j: int|
                0 <= j < funcs@.len() ==> (#[trigger] funcs@[j]).name@ != info.compare_opts.debug_symbol@,
            Err(CompareError::RequiredFunctionSizeNotFoundError(n)) => exists|i: int|
                is_first_named(funcs@, info.compare_opts.debug_symbol@, i) && funcs@[i].size is None
                    && info.truncate_to_original && n@ == info.compare_opts.debug_symbol@,
            Err(_) => false,
        },
{
    match find_orig_function(funcs, info.compare_opts.debug_symbol.as_str()) {
        None => Err(CompareError::ConfigSymbolNotFound),
        Some(i) => {
            let orig_fn = &funcs[i];
            if orig_fn.size.is_none() {
                if info.truncate_to_original {
                    return Err(CompareError::RequiredFunctionSizeNotFoundError(orig_fn.name.clone()));
                }
            }
            Ok(RunStart { index: i, size_from_rebuilt: orig_fn.size.is_none() })
        },
    }
}

/// A function found on both sides, with its bytes from each.
pub struct ComparedFunction {
    pub symbol: FunctionSymbol,
    pub orig: FunctionBytes,
    pub new: FunctionBytes,
}

/// Finds the compared function in the debug file's symbols and takes its
/// bytes from both images: from the reference image at `addr - base`
/// (its declared size, else the rebuilt size), from the rebuilt image at
/// the symbol's offset (the reference size under truncation, else its own).
pub fn write_compare(
    info: &CompareCommandInfo,
    orig_addr_offset: u64,
    orig_fn: &FunctionDefinition,
    pdb_funcs: &SymbolTable,
    orig_image: &Vec<u8>,
    compare_image: &Vec<u8>,
) -> (r: Result<ComparedFunction, CompareError>)
    requires
        pdb_funcs.wf(),
    ensures
        ({
            let name = info.compare_opts.debug_symbol@;
            let t = info.truncate_to_original;
            let o = Some(orig_fn@);
            match r {
                Err(CompareError::SymbolNotFound) => !pdb_funcs@.contains_key(name),
                Err(CompareError::RequiredFunctionSizeNotFoundError(n)) => n@ == name && pdb_funcs@.contains_key(
                    name,
                ) && t && orig_fn.size is None,
                Err(CompareError::OutOfBoundsError(n)) => n@ == name && pdb_funcs@.contains_key(name) && !(t
                    && orig_fn.size is None) && !(reference_in_bounds(
                    orig_fn@,
                    Some(pdb_funcs@[name]),
                    orig_addr_offset,
                    orig_image@.len() as int,
                ) && rebuilt_in_bounds(pdb_funcs@[name], o, t, compare_image@.len() as int)),
                Ok(c) => {
                    let s = pdb_funcs@[name];
                    &&& pdb_funcs@.contains_key(name)
                    &&& c.symbol@ == s
                    &&& !(t && orig_fn.size is None)
                    &&& reference_in_bounds(orig_fn@, Some(s), orig_addr_offset, orig_image@.len() as int)
                    &&& rebuilt_in_bounds(s, o, t, compare_image@.len() as int)
                    &&& c.orig.addr == orig_fn.addr
                    &&& c.orig.bytes@ == orig_image@.subrange(
                        orig_fn.addr - orig_addr_offset,
                        orig_fn.addr - orig_addr_offset + reference_len(orig_fn@, Some(s)),
                    )
                    &&& c.new.addr == s.offset + PDB_SEGMENT_OFFSET
                    &&& c.new.bytes@ == compare_image@.subrange(
                        s.offset as int,
                        s.offset + rebuilt_len(s, o, t),
                    )
                },
                Err(_) => false,
            }
        }),
{
    let sym = match pdb_funcs.get(info.compare_opts.debug_symbol.as_str()) {
        Some(s) => s,
        None => return Err(CompareError::SymbolNotFound),
    };
    match function_sides(
        &info.compare_opts.debug_symbol,
        Some(orig_fn),
        Some(sym),
        orig_addr_offset,
        info.truncate_to_original,
        orig_image,
        compare_image,
    ) {
        Ok(sides) => match (sides.orig, sides.new) {
            (Some(orig), Some(new)) => Ok(ComparedFunction { symbol: sym.clone(), orig, new }),
            // Both functions were given, so both sides are there; the
            // contract of `function_sides` rules this arm out.
            _ => Err(CompareError::SymbolNotFound),
        },
        Err(SliceError::RequiredSize(n)) => Err(CompareError::RequiredFunctionSizeNotFoundError(n)),
        Err(SliceError::MissingSize(n)) => Err(CompareError::MissingSizeError(n)),
        Err(SliceError::OutOfBounds(n)) => Err(CompareError::OutOfBoundsError(n)),
    }
}

/// The line that reports where a refresh found the function: its address
/// and size, each with its change since the previous refresh when there
/// was one, and the reference size when it is declared.
pub open spec fn found_text(
    name: Seq<char>,
    s: SymbolModel,
    last: Option<(u64, usize)>,
    orig_size: Option<usize>,
) -> Seq<char> {
    "Found "@ + name + " in "@ + s.file + " at "@ + hex_text(s.offset as nat) + match last {
        Some((old_addr, old_size)) => " ("@ + signed_hex_text(s.offset - old_addr) + "), size: "@
            + hex_text(s.size as nat) + " ("@ + signed_hex_text(s.size - old_size) + ")"@,
        None => ", size: "@ + hex_text(s.size as nat),
    } + match orig_size {
        Some(o) => "; orig size: "@ + hex_text(o as nat),
        None => Seq::empty(),
    }
}

/// Reports where this refresh found the function and remembers its
/// address and size for the next one.
pub fn run_disassemble(info: &mut CompareCommandInfo, sym: &FunctionSymbol, orig_size: Option<usize>) -> (r: String)
    ensures
        r@ == found_text(
            old(info).compare_opts.debug_symbol@,
            sym@,
            old(info).last_offset_size,
            orig_size,
        ),
        final(info).last_offset_size == Some((sym.offset, sym.size)),
        final(info).compare_opts == old(info).compare_opts,
        final(info).disasm_opts == old(info).disasm_opts,
        final(info).enable_watcher == old(info).enable_watcher,
        final(info).truncate_to_original == old(info).truncate_to_original,
{
    let mut r = String::from_str("Found ");
    r.append(info.compare_opts.debug_symbol.as_str());
    r.append(" in ");
    r.append(sym.file.as_str());
    r.append(" at ");
    let at = format_hex(sym.offset);
    r.append(at.as_str());
    match info.last_offset_size {
        Some((old_addr, old_size)) => {
            r.append(" (");
            let d = format_delta(sym.offset, old_addr);
            r.append(d.as_str());
            r.append("), size: ");
            let sz = format_hex(sym.size as u64);
            r.append(sz.as_str());
            r.append(" (");
            let ds = format_delta(sym.size as u64, old_size as u64);
            r.append(ds.as_str());
            r.append(")");
        },
        None => {
            r.append(", size: ");
            let sz = format_hex(sym.size as u64);
            r.append(sz.as_str());
        },
    }
    match orig_size {
        Some(o) => {
            r.append("; orig size: ");
            let os = format_hex(o as u64);
            r.append(os.as_str());
        },
        None => {},
    }
    info.last_offset_size = Some((sym.offset, sym.size));
    r
}

/// What the watcher reported about the debug file.
#[derive(Debug, Clone, Copy, PartialEq, Eq, Structural)]
pub enum WatchEvent {
    Created,
    Modified,
    Other,
    Failed,
}

/// What the refresh loop does next.
#[derive(Debug, Clone, Copy, PartialEq, Eq, Structural)]
pub enum WatchAction {
    /// Compare again.
    Refresh,
    /// Wait for the next event.
    Wait,
    /// The run is over.
    Done,
    /// The watcher failed: end the process.
    Terminate,
}

/// After the first comparison: wait for changes when watching, else stop.
pub fn after_first_run(info: &CompareCommandInfo) -> (r: WatchAction)
    ensures
        r == (if info.enable_watcher {
            WatchAction::Wait
        } else {
            WatchAction::Done
        }),
{
    if info.enable_watcher {
        WatchAction::Wait
    } else {
        WatchAction::Done
    }
}

/// A created or modified debug file is compared again, a watcher failure
/// ends the process, anything else is waited out.
pub fn on_watch_event(event: WatchEvent) -> (r: WatchAction)
    ensures
        r == match event {
            WatchEvent::Created | WatchEvent::Modified => WatchAction::Refresh,
            WatchEvent::Other => WatchAction::Wait,
            WatchEvent::Failed => WatchAction::Terminate,
        },
{
    match event {
        WatchEvent::Created | WatchEvent::Modified => WatchAction::Refresh,
        WatchEvent::Other => WatchAction::Wait,
        WatchEvent::Failed => WatchAction::Terminate,
    }
}

} // verus!
