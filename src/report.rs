//! Data of the comparison report: which functions it covers, the bytes
//! each one is compared on, what is known of it on each side, and the name
//! of its page.

use vstd::prelude::*;
use itertools::Itertools;
use crate::diff::CompareResult;
use crate::disasm::{DisasmError, DisasmOpts};
use crate::extract::{
    definition_model, function_sides, sides_in_bounds, sides_taken, size_missing, symbol_model,
    truncation_unsized, FunctionSides, SliceError,
};
use crate::symbol_table::{PdbError, SymbolTable};
use crate::symbols::{FunctionDefinition, FunctionSymbol};
use crate::text::{push_char, str_eq};

verus! {

/// The files a report compares.
#[derive(Debug)]
pub struct GenerateReportOpts {
    pub orig: String,
    pub compare_file_path: String,
    pub compare_pdb_file: String,
}

/// A report over every function of both binaries.
#[derive(Debug)]
pub struct GenerateReportCommandInfo {
    pub report_opts: GenerateReportOpts,
    pub disasm_opts: DisasmOpts,
    pub truncate_to_original: bool,
}

#[derive(Debug)]
pub enum GenerateReportError {
    PdbError(PdbError),
    IoError(String),
    DisasmError(DisasmError),
    /// Truncation was asked for but the reference function has no size.
    RequiredFunctionSizeNotFoundError(String),
    /// No side gives the reference function a size.
    MissingSizeError(String),
    /// The function's range lies outside a binary image.
    OutOfBoundsError(String),
    TemplateError(String),
    FromUtf8Error(String),
    RenderError(String),
}

/// Names with repeats removed, each kept where it first comes.
pub open spec fn first_occurrences(s: Seq<Seq<char>>) -> Seq<Seq<char>>
    decreases s.len(),
{
    if s.len() == 0 {
        Seq::empty()
    } else {
        let d = first_occurrences(s.drop_last());
        if d.contains(s.last()) {
            d
        } else {
            d.push(s.last())
        }
    }
}

pub open spec fn names_of(v: Seq<String>) -> Seq<Seq<char>> {
    v.map_values(|s: String| s@)
}

/// Relies on `itertools::Itertools::unique`: items already produced are
/// left out, and the others keep their order.
#[verifier::external_body]
fn unique_names(names: Vec<String>) -> (r: Vec<String>)
    ensures
        names_of(r@) == first_occurrences(names_of(names@)),
{
    names.into_iter().unique().collect()
}

/// The names of the configured functions, then those of the debug file's
/// symbols.
pub open spec fn all_names(funcs: Seq<FunctionDefinition>, es: Seq<(String, FunctionSymbol)>) -> Seq<Seq<char>> {
    funcs.map_values(|f: FunctionDefinition| f.name@) + es.map_values(|e: (String, FunctionSymbol)| e.0@)
}

/// The functions a report covers: every configured function and every
/// symbol of the debug file, each name once, in that order.
pub fn report_function_names(funcs: &Vec<FunctionDefinition>, pdb_funcs: &SymbolTable) -> (r: Vec<String>)
    ensures
        names_of(r@) == first_occurrences(all_names(funcs@, pdb_funcs.entry_seq())),
{
    let mut names: Vec<String> = Vec::new();
    let mut i: usize = 0;
    while i < funcs.len()
        invariant
            i <= funcs@.len(),
            names@.len() == i,
            forall|j: int| 0 <= j < i ==> (#[trigger] names@[j])@ == funcs@[j].name@,
        decreases funcs@.len() - i,
    {
        names.push(funcs[i].name.clone());
        i = i + 1;
    }
    let ghost es = pdb_funcs.entry_seq();
    let ghost nf = funcs@.len();
    let mut k: usize = 0;
    while k < pdb_funcs.len()
        invariant
            es == pdb_funcs.entry_seq(),
            nf == funcs@.len(),
            k <= es.len(),
            names@.len() == nf + k,
            forall|j: int| 0 <= j < nf ==> (#[trigger] names@[j])@ == funcs@[j].name@,
            forall|j: int| 0 <= j < k ==> (#[trigger] names@[nf + j])@ == es[j].0@,
        decreases es.len() - k,
    {
        let (key, _) = pdb_funcs.entry(k);
        names.push(key.clone());
        assert(names@[nf + k]@ == es[k as int].0@);
        k = k + 1;
    }
    assert forall|j: int| 0 <= j < names@.len() implies names_of(names@)[j] == all_names(
        funcs@,
        es,
    )[j] by {
        if j >= nf {
            assert(names@[nf + (j - nf)] == names@[j]);
        }
    }
    assert(names_of(names@) =~= all_names(funcs@, es));
    unique_names(names)
}

/// The index of the last definition named `name`.
pub open spec fn is_last_named(funcs: Seq<FunctionDefinition>, name: Seq<char>, i: int) -> bool {
    &&& 0 <= i < funcs.len()
    &&& funcs[i].name@ == name
    &&& forall|j: int| i < j < funcs.len() ==> (#[trigger] funcs[j]).name@ != name
}

/// The definition a name stands for in the report: the last one with that
/// name.
pub fn get_orig_func(funcs: &Vec<FunctionDefinition>, name: &str) -> (r: Option<usize>)
    ensures
        match r {
            Some(i) => is_last_named(funcs@, name@, i as int),
            None => forall|j: int| 0 <= j < funcs@.len() ==> (#[trigger] funcs@[j]).name@ != name@,
        },
{
    let mut i: usize = funcs.len();
    while i > 0
        invariant
            i <= funcs@.len(),
            forall|j: int| i <= j < funcs@.len() ==> (#[trigger] funcs@[j]).name@ != name@,
        decreases i,
    {
        if str_eq(funcs[i - 1].name.as_str(), name) {
            return Some(i - 1);
        }
        i = i - 1;
    }
    None
}

/// Takes the bytes a report compares a function on, from each side that
/// has it, as [`function_sides`] says.
pub fn create_comparison_data(
    fn_name: &String,
    orig_fn: Option<&FunctionDefinition>,
    pdb_fn: Option<&FunctionSymbol>,
    base: u64,
    info: &GenerateReportCommandInfo,
    orig_image: &Vec<u8>,
    new_image: &Vec<u8>,
) -> (r: Result<FunctionSides, GenerateReportError>)
    ensures
        ({
            let o = definition_model(orig_fn);
            let p = symbol_model(pdb_fn);
            let t = info.truncate_to_original;
            match r {
                Err(GenerateReportError::RequiredFunctionSizeNotFoundError(n)) => n@ == fn_name@
                    && truncation_unsized(o, p, t),
                Err(GenerateReportError::MissingSizeError(n)) => n@ == fn_name@ && !truncation_unsized(o, p, t)
                    && size_missing(o, p),
                Err(GenerateReportError::OutOfBoundsError(n)) => n@ == fn_name@ && !truncation_unsized(o, p, t)
                    && !size_missing(o, p) && !sides_in_bounds(
                    o,
                    p,
                    base,
                    t,
                    orig_image@.len() as int,
                    new_image@.len() as int,
                ),
                Ok(sides) => sides_taken(o, p, base, t, orig_image@, new_image@, sides),
                Err(_) => false,
            }
        }),
{
    match function_sides(fn_name, orig_fn, pdb_fn, base, info.truncate_to_original, orig_image, new_image) {
        Ok(sides) => Ok(sides),
        Err(SliceError::RequiredSize(n)) => Err(GenerateReportError::RequiredFunctionSizeNotFoundError(n)),
        Err(SliceError::MissingSize(n)) => Err(GenerateReportError::MissingSizeError(n)),
        Err(SliceError::OutOfBounds(n)) => Err(GenerateReportError::OutOfBoundsError(n)),
    }
}

/// What the report shows of one function.
pub struct DualFunctionReport {
    pub fn_name: String,
    /// The rebuilt function's source file, empty when it has none.
    pub file: String,
    pub new_addr: Option<u64>,
    pub new_size: Option<usize>,
    pub orig_addr: Option<u64>,
    pub orig_size: Option<usize>,
    pub compare_result: Option<CompareResult>,
}

/// What the report shows of a function from what each side knows of it.
pub fn dual_function_report(
    fn_name: &String,
    orig_fn: Option<&FunctionDefinition>,
    pdb_fn: Option<&FunctionSymbol>,
    compare_result: Option<CompareResult>,
) -> (r: DualFunctionReport)
    ensures
        r.fn_name@ == fn_name@,
        r.file@ == match pdb_fn {
            Some(s) => s.file@,
            None => Seq::<char>::empty(),
        },
        r.new_addr == match pdb_fn {
            Some(s) => Some(s.offset),
            None => None::<u64>,
        },
        r.new_size == match pdb_fn {
            Some(s) => Some(s.size),
            None => None::<usize>,
        },
        r.orig_addr == match orig_fn {
            Some(f) => Some(f.addr),
            None => None::<u64>,
        },
        r.orig_size == match orig_fn {
            Some(f) => f.size,
            None => None::<usize>,
        },
        r.compare_result == compare_result,
{
    DualFunctionReport {
        fn_name: fn_name.clone(),
        file: match pdb_fn {
            Some(s) => s.file.clone(),
            None => String::new(),
        },
        new_addr: match pdb_fn {
            Some(s) => Some(s.offset),
            None => None,
        },
        new_size: match pdb_fn {
            Some(s) => Some(s.size),
            None => None,
        },
        orig_addr: match orig_fn {
            Some(f) => Some(f.addr),
            None => None,
        },
        orig_size: match orig_fn {
            Some(f) => f.size,
            None => None,
        },
        compare_result,
    }
}

/// The characters that cannot stand in a file name.
pub open spec fn is_reserved_path_char(c: char) -> bool {
    c == '<' || c == '>' || c == ':' || c == '"' || c == '/' || c == '\\' || c == '|' || c == '?'
        || c == '*'
}

/// A name with each reserved character replaced by `_`.
pub open spec fn sanitized(s: Seq<char>) -> Seq<char> {
    s.map_values(|c: char| if is_reserved_path_char(c) { '_' } else { c })
}

/// The page of a function: `report/<name>.html`, with each character that
/// cannot stand in a file name replaced by `_`.
pub fn get_pathname(path: &str) -> (r: String)
    ensures
        r@ == "report/"@ + sanitized(path@) + ".html"@,
{
    let mut r = String::from_str("report/");
    let ghost start = r@;
    let n = path.unicode_len();
    let mut i: usize = 0;
    while i < n
        invariant
            n == path@.len(),
            i <= n,
            r@ == start + sanitized(path@.subrange(0, i as int)),
        decreases n - i,
    {
        let c = path.get_char(i);
        let d = if c == '<' || c == '>' || c == ':' || c == '"' || c == '/' || c == '\\' || c == '|'
            || c == '?' || c == '*' {
            '_'
        } else {
            c
        };
        push_char(&mut r, d);
        i = i + 1;
        assert(sanitized(path@.subrange(0, i as int)) =~= sanitized(path@.subrange(0, i - 1)).push(d));
    }
    assert(path@.subrange(0, n as int) =~= path@);
    r.append(".html");
    r
}

/// How many of the reports show a full match.
pub open spec fn full_match_count(rs: Seq<DualFunctionReport>) -> nat
    decreases rs.len(),
{
    if rs.len() == 0 {
        0
    } else {
        full_match_count(rs.drop_last()) + (if rs.last().compare_result matches Some(c) && c.full_match() {
            1nat
        } else {
            0nat
        })
    }
}

/// The number of functions whose listings match fully.
pub fn count_matching_functions(reports: &Vec<DualFunctionReport>) -> (r: usize)
    ensures
        r == full_match_count(reports@),
{
    let mut count: usize = 0;
    let mut i: usize = 0;
    while i < reports.len()
        invariant
            i <= reports@.len(),
            count == full_match_count(reports@.subrange(0, i as int)),
            count <= i,
        decreases reports@.len() - i,
    {
        let ghost next = reports@.subrange(0, i as int + 1);
        assert(next.drop_last() =~= reports@.subrange(0, i as int));
        match &reports[i].compare_result {
            Some(c) => {
                if c.is_full_match() {
                    count = count + 1;
                }
            },
            None => {},
        }
        i = i + 1;
    }
    assert(reports@.subrange(0, reports@.len() as int) =~= reports@);
    count
}

} // verus!
