//! The full-listing command: every function that the configuration
//! declares, from either binary, with a head before each.

use vstd::prelude::*;
use crate::disasm::{DisasmError, DisasmOpts};
use crate::extract::carve;
use crate::numfmt::{hex_text, push_hex};
use crate::symbol_table::{
    all_named_ranges_valid, get_pdb_funcs, symbols_of, PdbError, RawFunction, SymbolTable,
};
use crate::symbols::{ComparerConfig, FunctionDefinition, FunctionSymbol, SymbolModel, PDB_SEGMENT_OFFSET};
use crate::text::str_eq;

verus! {

/// A full listing of one binary.
#[derive(Debug)]
pub struct GenerateFullCommandInfo {
    /// The binary to list.
    pub file_path: String,
    /// List the reference binary rather than the rebuilt one.
    pub orig_file: bool,
    pub disasm_opts: DisasmOpts,
    pub truncate_to_original: bool,
}

#[derive(Debug)]
pub enum GenerateFullCommandError {
    PdbError(PdbError),
    IoError(String),
    DisasmError(DisasmError),
    /// The function's offset or size lies outside the binary.
    FunctionDefSizeWrong(String),
    /// Truncation was asked for but the reference function has no size.
    RequiredFunctionSizeNotFoundError(String),
}

/// A function's part of a listing: its head, its bytes and their address.
pub struct ListingSection {
    pub head: String,
    pub bytes: Vec<u8>,
    pub addr: u64,
}

/// What a listing holds for one configured function: a note for the user
/// and a section, or the error that made the sweep skip the function.
pub struct ListingEntry {
    pub note: Option<String>,
    pub section: Option<ListingSection>,
    pub error: Option<GenerateFullCommandError>,
}

/// A full listing: one entry per configured function, in order, then notes
/// on the rebuilt functions that the configuration does not declare.
pub struct FullListing {
    pub entries: Vec<ListingEntry>,
    pub trailing_notes: Vec<String>,
}

/// The head of a function's section: a blank line, then `;`, `; <name>`,
/// `; size: 0x..`, `;` and another blank line.
pub open spec fn head_text(size: usize, name: Seq<char>) -> Seq<char> {
    "\n;\n; "@ + name + "\n; size: "@ + hex_text(size as nat) + "\n;\n\n"@
}

/// The head of a function's section, as [`head_text`] says.
pub fn write_function_head(size: usize, name: &str) -> (r: String)
    ensures
        r@ == head_text(size, name@),
{
    let mut r = String::from_str("\n;\n; ");
    r.append(name);
    r.append("\n; size: ");
    push_hex(&mut r, size as u64);
    r.append("\n;\n\n");
    r
}

fn quoted_note(prefix: &str, name: &str, suffix: &str) -> (r: String)
    ensures
        r@ == prefix@ + name@ + suffix@,
{
    let mut r = String::from_str(prefix);
    r.append(name);
    r.append(suffix);
    r
}

pub open spec fn skip_note(name: Seq<char>) -> Seq<char> {
    "Note: Skipping '"@ + name + "' because no size was defined."@
}

pub open spec fn not_in_pdb_note(name: Seq<char>) -> Seq<char> {
    "WARN: Function '"@ + name + "' was not found in the PDB."@
}

pub open spec fn not_in_config_note(name: Seq<char>) -> Seq<char> {
    "WARN: Function '"@ + name + "' was not found in the config."@
}

/// A reference function's range lies inside the image.
pub open spec fn orig_in_bounds(f: FunctionDefinition, s: usize, base: u64, image_len: int) -> bool {
    f.addr >= base && f.addr - base + s <= image_len
}

/// The entry of a reference function: a note when it has no size, an
/// out-of-bounds error when its range leaves the image, else its section at
/// `addr - base`.
pub open spec fn orig_entry_matches(e: ListingEntry, f: FunctionDefinition, base: u64, image: Seq<u8>) -> bool {
    match f.size {
        None => {
            &&& e.section is None
            &&& e.error is None
            &&& e.note matches Some(n) && n@ == skip_note(f.name@)
        },
        Some(s) => {
            &&& e.note is None
            &&& if orig_in_bounds(f, s, base, image.len() as int) {
                &&& e.error is None
                &&& e.section matches Some(sec) && sec.head@ == head_text(s, f.name@) && sec.addr == f.addr
                    && sec.bytes@ == image.subrange(f.addr - base, f.addr - base + s)
            } else {
                &&& e.section is None
                &&& e.error matches Some(GenerateFullCommandError::FunctionDefSizeWrong(n)) && n@ == f.name@
            }
        },
    }
}

/// The listing of the reference binary's configured functions: an entry
/// for each, in order.
pub open spec fn orig_listing(cfg: &ComparerConfig, bytes: Seq<u8>, l: FullListing) -> bool {
    &&& l.entries@.len() == cfg.func@.len()
    &&& l.trailing_notes@.len() == 0
    &&& forall|i: int|
        0 <= i < cfg.func@.len() ==> orig_entry_matches(
            #[trigger] l.entries@[i],
            cfg.func@[i],
            cfg.address_offset,
            bytes,
        )
}

/// The listing of the reference binary's configured functions. A function
/// that cannot be listed is reported in its entry and skipped.
pub fn generate_full_orig(cfg: &ComparerConfig, bytes: &Vec<u8>) -> (r: FullListing)
    ensures
        orig_listing(cfg, bytes@, r),
{
    let base = cfg.address_offset;
    let mut entries: Vec<ListingEntry> = Vec::new();
    let mut i: usize = 0;
    while i < cfg.func.len()
        invariant
            i <= cfg.func@.len(),
            base == cfg.address_offset,
            entries@.len() == i,
            forall|j: int|
                0 <= j < i ==> orig_entry_matches(#[trigger] entries@[j], cfg.func@[j], base, bytes@),
        decreases cfg.func@.len() - i,
    {
        let func = &cfg.func[i];
        let entry = match func.size {
            None => ListingEntry {
                note: Some(quoted_note("Note: Skipping '", func.name.as_str(), "' because no size was defined.")),
                section: None,
                error: None,
            },
            Some(size) => {
                if func.addr < base || func.addr - base > bytes.len() as u64 || size > bytes.len()
                    - (func.addr - base) as usize {
                    ListingEntry {
                        note: None,
                        section: None,
                        error: Some(GenerateFullCommandError::FunctionDefSizeWrong(func.name.clone())),
                    }
                } else {
                    let offset = (func.addr - base) as usize;
                    let head = write_function_head(size, func.name.as_str());
                    let sec = ListingSection { head, bytes: carve(bytes, offset, size), addr: func.addr };
                    ListingEntry { note: None, section: Some(sec), error: None }
                }
            },
        };
        let ghost before = entries@;
        let ghost e = entry;
        assert(orig_entry_matches(e, cfg.func@[i as int], base, bytes@));
        entries.push(entry);
        i = i + 1;
        assert forall|j: int| 0 <= j < i implies orig_entry_matches(
            #[trigger] entries@[j],
            cfg.func@[j],
            base,
            bytes@,
        ) by {
            if j < i - 1 {
                assert(entries@[j] == before[j]);
            } else {
                assert(entries@[j] == e);
            }
        }
    }
    FullListing { entries, trailing_notes: Vec::new() }
}

/// An earlier configured function has the same name, so the symbol was
/// already used.
pub open spec fn name_taken(funcs: Seq<FunctionDefinition>, i: int) -> bool {
    exists|j: int| 0 <= j < i && (#[trigger] funcs[j]).name@ == funcs[i].name@
}

/// The configured function finds its rebuilt symbol.
pub open spec fn pdb_found(funcs: Seq<FunctionDefinition>, i: int, t: Map<Seq<char>, SymbolModel>) -> bool {
    t.contains_key(funcs[i].name@) && !name_taken(funcs, i)
}

/// The number of bytes listed for a found function: the reference size
/// under truncation, else the symbol's size.
pub open spec fn pdb_listed_len(f: FunctionDefinition, s: SymbolModel, truncate: bool) -> int {
    if truncate {
        f.size->0 as int
    } else {
        s.size as int
    }
}

/// A found function's range lies inside the image and its address fits.
pub open spec fn pdb_in_bounds(f: FunctionDefinition, s: SymbolModel, truncate: bool, image_len: int) -> bool {
    s.offset + pdb_listed_len(f, s, truncate) <= image_len && s.offset + PDB_SEGMENT_OFFSET <= u64::MAX
}

/// The entry of a configured function in the rebuilt listing: a warning
/// when its symbol is missing (or already used); an error when truncation
/// is asked for and it has no reference size, or when its range leaves the
/// image; else its section at the symbol's offset under a head with the
/// symbol's size.
pub open spec fn pdb_entry_matches(
    e: ListingEntry,
    funcs: Seq<FunctionDefinition>,
    i: int,
    t: Map<Seq<char>, SymbolModel>,
    truncate: bool,
    image: Seq<u8>,
) -> bool {
    let f = funcs[i];
    if pdb_found(funcs, i, t) {
        let s = t[f.name@];
        &&& e.note is None
        &&& if truncate && f.size is None {
            &&& e.section is None
            &&& e.error matches Some(GenerateFullCommandError::RequiredFunctionSizeNotFoundError(n)) && n@
                == f.name@
        } else if !pdb_in_bounds(f, s, truncate, image.len() as int) {
            &&& e.section is None
            &&& e.error matches Some(GenerateFullCommandError::FunctionDefSizeWrong(n)) && n@ == f.name@
        } else {
            &&& e.error is None
            &&& e.section matches Some(sec) && sec.head@ == head_text(s.size, f.name@) && sec.addr
                == s.offset + PDB_SEGMENT_OFFSET && sec.bytes@ == image.subrange(
                s.offset as int,
                s.offset + pdb_listed_len(f, s, truncate),
            )
        }
    } else {
        &&& e.section is None
        &&& e.error is None
        &&& e.note matches Some(n) && n@ == not_in_pdb_note(f.name@)
    }
}

/// Some configured function has the name.
pub open spec fn configured(funcs: Seq<FunctionDefinition>, name: Seq<char>) -> bool {
    exists|j: int| 0 <= j < funcs.len() && (#[trigger] funcs[j]).name@ == name
}

/// The notes on the table's symbols whose names no configured function
/// has, in the table's order, each naming the symbol as recorded.
pub open spec fn leftover_notes(
    es: Seq<(String, FunctionSymbol)>,
    funcs: Seq<FunctionDefinition>,
) -> Seq<Seq<char>>
    decreases es.len(),
{
    if es.len() == 0 {
        Seq::empty()
    } else {
        leftover_notes(es.drop_last(), funcs) + (if configured(funcs, es.last().0@) {
            Seq::empty()
        } else {
            seq![not_in_config_note(es.last().1.name@)]
        })
    }
}

fn is_configured(funcs: &Vec<FunctionDefinition>, name: &str) -> (r: bool)
    ensures
        r == configured(funcs@, name@),
{
    let mut j: usize = 0;
    while j < funcs.len()
        invariant
            j <= funcs@.len(),
            forall|k: int| 0 <= k < j ==> (#[trigger] funcs@[k]).name@ != name@,
        decreases funcs@.len() - j,
    {
        if str_eq(funcs[j].name.as_str(), name) {
            return true;
        }
        j = j + 1;
    }
    false
}

fn is_name_taken(funcs: &Vec<FunctionDefinition>, i: usize) -> (r: bool)
    requires
        i < funcs@.len(),
    ensures
        r == name_taken(funcs@, i as int),
{
    let mut j: usize = 0;
    while j < i
        invariant
            i < funcs@.len(),
            j <= i,
            forall|k: int| 0 <= k < j ==> (#[trigger] funcs@[k]).name@ != funcs@[i as int].name@,
        decreases i - j,
    {
        if funcs[j].name == funcs[i].name {
            return true;
        }
        j = j + 1;
    }
    false
}

/// The listing of the rebuilt binary's configured functions: an entry for
/// each, in order, and notes on the undeclared symbols.
pub open spec fn pdb_listing(
    cfg: &ComparerConfig,
    pdb_funcs: &SymbolTable,
    truncate: bool,
    bytes: Seq<u8>,
    l: FullListing,
) -> bool {
    &&& l.entries@.len() == cfg.func@.len()
    &&& forall|i: int|
        0 <= i < cfg.func@.len() ==> pdb_entry_matches(
            #[trigger] l.entries@[i],
            cfg.func@,
            i,
            pdb_funcs@,
            truncate,
            bytes,
        )
    &&& l.trailing_notes@.map_values(|n: String| n@) == leftover_notes(pdb_funcs.entry_seq(), cfg.func@)
}

/// The listing of the rebuilt binary's functions, in the configuration's
/// order, with notes on what is missing on either side. A function that
/// cannot be listed is reported in its entry and skipped.
pub fn generate_full_pdb(
    cfg: &ComparerConfig,
    pdb_funcs: &SymbolTable,
    truncate: bool,
    bytes: &Vec<u8>,
) -> (r: FullListing)
    requires
        pdb_funcs.wf(),
    ensures
        pdb_listing(cfg, pdb_funcs, truncate, bytes@, r),
{
    let mut entries: Vec<ListingEntry> = Vec::new();
    let mut i: usize = 0;
    while i < cfg.func.len()
        invariant
            pdb_funcs.wf(),
            i <= cfg.func@.len(),
            entries@.len() == i,
            forall|j: int|
                0 <= j < i ==> pdb_entry_matches(#[trigger] entries@[j], cfg.func@, j, pdb_funcs@, truncate, bytes@),
        decreases cfg.func@.len() - i,
    {
        let func = &cfg.func[i];
        let taken = is_name_taken(&cfg.func, i);
        let found = if taken {
            None
        } else {
            pdb_funcs.get(func.name.as_str())
        };
        let entry = match found {
            None => {
                assert(!pdb_found(cfg.func@, i as int, pdb_funcs@));
                ListingEntry {
                    note: Some(quoted_note("WARN: Function '", func.name.as_str(), "' was not found in the PDB.")),
                    section: None,
                    error: None,
                }
            },
            Some(pdb_func) => {
                assert(pdb_found(cfg.func@, i as int, pdb_funcs@));
                if truncate && func.size.is_none() {
                    ListingEntry {
                        note: None,
                        section: None,
                        error: Some(GenerateFullCommandError::RequiredFunctionSizeNotFoundError(func.name.clone())),
                    }
                } else {
                    let size = match func.size {
                        Some(s) => if truncate {
                            s
                        } else {
                            pdb_func.size
                        },
                        None => pdb_func.size,
                    };
                    if pdb_func.offset > bytes.len() as u64 || size > bytes.len() - pdb_func.offset as usize
                        || pdb_func.offset > u64::MAX - PDB_SEGMENT_OFFSET {
                        ListingEntry {
                            note: None,
                            section: None,
                            error: Some(GenerateFullCommandError::FunctionDefSizeWrong(func.name.clone())),
                        }
                    } else {
                        let head = write_function_head(pdb_func.size, func.name.as_str());
                        let sec = ListingSection {
                            head,
                            bytes: carve(bytes, pdb_func.offset as usize, size),
                            addr: pdb_func.offset + PDB_SEGMENT_OFFSET,
                        };
                        ListingEntry { note: None, section: Some(sec), error: None }
                    }
                }
            },
        };
        let ghost before = entries@;
        let ghost e = entry;
        assert(pdb_entry_matches(e, cfg.func@, i as int, pdb_funcs@, truncate, bytes@));
        entries.push(entry);
        i = i + 1;
        assert forall|j: int| 0 <= j < i implies pdb_entry_matches(
            #[trigger] entries@[j],
            cfg.func@,
            j,
            pdb_funcs@,
            truncate,
            bytes@,
        ) by {
            if j < i - 1 {
                assert(entries@[j] == before[j]);
            } else {
                assert(entries@[j] == e);
            }
        }
    }
    let mut notes: Vec<String> = Vec::new();
    let mut k: usize = 0;
    while k < pdb_funcs.len()
        invariant
            k <= pdb_funcs.entry_seq().len(),
            notes@.map_values(|n: String| n@) == leftover_notes(pdb_funcs.entry_seq().subrange(0, k as int), cfg.func@),
        decreases pdb_funcs.entry_seq().len() - k,
    {
        let (key, sym) = pdb_funcs.entry(k);
        let ghost before = notes@;
        if !is_configured(&cfg.func, key.as_str()) {
            notes.push(quoted_note("WARN: Function '", sym.name.as_str(), "' was not found in the config."));
        }
        proof {
            let es = pdb_funcs.entry_seq();
            assert(es.subrange(0, k as int + 1).drop_last() =~= es.subrange(0, k as int));
            assert(notes@.map_values(|n: String| n@) =~= leftover_notes(es.subrange(0, k as int + 1), cfg.func@));
        }
        k = k + 1;
    }
    assert(pdb_funcs.entry_seq().subrange(0, pdb_funcs.entry_seq().len() as int) =~= pdb_funcs.entry_seq());
    FullListing { entries, trailing_notes: notes }
}

/// The full listing that the command asks for: of the reference binary,
/// or of the rebuilt binary with the symbols that its debug records give.
/// Only unusable debug records fail the whole command.
pub fn run(
    info: &GenerateFullCommandInfo,
    cfg: &ComparerConfig,
    bytes: &Vec<u8>,
    pdb_records: &Vec<RawFunction>,
) -> (r: Result<FullListing, GenerateFullCommandError>)
    ensures
        info.orig_file ==> (r matches Ok(l) && orig_listing(cfg, bytes@, l)),
        !info.orig_file ==> match r {
            Ok(l) => all_named_ranges_valid(pdb_records@) && exists|t: SymbolTable|
                t.wf() && t@ == symbols_of(pdb_records@) && pdb_listing(
                    cfg,
                    &t,
                    info.truncate_to_original,
                    bytes@,
                    l,
                ),
            Err(e) => e is PdbError && !all_named_ranges_valid(pdb_records@),
        },
{
    if info.orig_file {
        Ok(generate_full_orig(cfg, bytes))
    } else {
        match get_pdb_funcs(pdb_records) {
            Err(e) => Err(GenerateFullCommandError::PdbError(e)),
            Ok(t) => {
                let l = generate_full_pdb(cfg, &t, info.truncate_to_original, bytes);
                assert(pdb_listing(cfg, &t, info.truncate_to_original, bytes@, l));
                Ok(l)
            },
        }
    }
}

} // verus!
