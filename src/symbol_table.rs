//! The name-keyed table of the rebuilt binary's function symbols, and its
//! extraction from the function records of a debug file.

use vstd::prelude::*;
use crate::symbols::{FunctionSymbol, SymbolModel, PDB_RVA_PREAMBLE};
use crate::text::str_eq;
use crate::address_map::addresses_fit;

verus! {

/// A function record of a debug file, as the debug-format reader hands it
/// over: raw name, relative address range and the first mapped source file.
pub struct RawFunction {
    pub name: Option<String>,
    pub start_rva: u32,
    pub end_rva: Option<u32>,
    pub file: Option<String>,
}

/// Failure to read the function symbols of a debug file.
#[derive(Debug)]
pub enum PdbError {
    /// The debug file could not be found or opened.
    Io(String),
    /// The debug information could not be parsed.
    Addr2Line(String),
    /// The debug container is malformed.
    Pdb(String),
    /// A named function's address range lies before the code or ends before
    /// it starts.
    InvalidFunctionRange(String),
}

pub open spec fn is_name_separator(c: char) -> bool {
    c == '@' || c == '('
}

/// The run of non-separator characters at the start of `s`.
pub open spec fn leading_run(s: Seq<char>) -> Seq<char>
    decreases s.len(),
{
    if s.len() == 0 || is_name_separator(s[0]) {
        Seq::empty()
    } else {
        seq![s[0]] + leading_run(s.drop_first())
    }
}

/// The leftmost maximal run of characters other than `@` and `(`; empty when
/// `s` holds no such character.
pub open spec fn first_run(s: Seq<char>) -> Seq<char>
    decreases s.len(),
{
    if s.len() == 0 {
        Seq::empty()
    } else if is_name_separator(s[0]) {
        first_run(s.drop_first())
    } else {
        leading_run(s)
    }
}

/// The display name of a decorated symbol name: its first run of characters
/// other than `@` and `(`, or the name itself when it has none.
pub open spec fn demangled_name(s: Seq<char>) -> Seq<char> {
    if first_run(s).len() == 0 {
        s
    } else {
        first_run(s)
    }
}

proof fn lemma_leading_run_of_base(base: Seq<char>, tail: Seq<char>)
    requires
        forall|i: int| 0 <= i < base.len() ==> !is_name_separator(#[trigger] base[i]),
        tail.len() == 0 || is_name_separator(tail[0]),
    ensures
        leading_run(base + tail) == base,
    decreases base.len(),
{
    if base.len() == 0 {
        assert(base + tail =~= tail);
    } else {
        let rest = base.drop_first();
        assert forall|i: int| 0 <= i < rest.len() implies !is_name_separator(#[trigger] rest[i]) by {
            assert(rest[i] == base[i + 1]);
        }
        lemma_leading_run_of_base(rest, tail);
        assert((base + tail).drop_first() =~= rest + tail);
        assert(!is_name_separator(base[0]));
        assert(seq![base[0]] + rest =~= base);
    }
}

/// A decorated name, a non-empty base free of `@` and `(` followed by `@`
/// or `(` and anything, shows as its base (`foo@@YAXXZ(int)` as `foo`).
pub proof fn lemma_demangle_decorated(base: Seq<char>, sep: char, rest: Seq<char>)
    requires
        base.len() > 0,
        forall|i: int| 0 <= i < base.len() ==> !is_name_separator(#[trigger] base[i]),
        is_name_separator(sep),
    ensures
        demangled_name(base + seq![sep] + rest) == base,
{
    let tail = seq![sep] + rest;
    assert(base + seq![sep] + rest =~= base + tail);
    lemma_leading_run_of_base(base, tail);
    assert((base + tail)[0] == base[0]);
}

/// The address range of a record is usable: it starts after the preamble
/// and does not end before it starts.
pub open spec fn valid_range(r: RawFunction) -> bool {
    &&& r.start_rva >= PDB_RVA_PREAMBLE
    &&& (r.end_rva matches Some(e) ==> e >= r.start_rva)
}

pub open spec fn unknown_file() -> Seq<char> {
    seq!['U', 'N', 'K', 'N', 'O', 'W', 'N']
}

/// The symbol that a named record with a usable range stands for.
pub open spec fn symbol_model_of(r: RawFunction) -> SymbolModel {
    SymbolModel {
        name: r.name->0@,
        file: match r.file {
            Some(f) => f@,
            None => unknown_file(),
        },
        offset: (r.start_rva - PDB_RVA_PREAMBLE) as u64,
        size: (match r.end_rva {
            Some(e) => e - r.start_rva,
            None => 0,
        }) as usize,
    }
}

/// Every named record has a usable range.
pub open spec fn all_named_ranges_valid(rs: Seq<RawFunction>) -> bool {
    forall|i: int| 0 <= i < rs.len() && (#[trigger] rs[i]).name is Some ==> valid_range(rs[i])
}

/// The table that the records give: each named record under its demangled
/// name, a later record replacing an earlier one of the same name; nameless
/// records are skipped.
pub open spec fn symbols_of(rs: Seq<RawFunction>) -> Map<Seq<char>, SymbolModel>
    decreases rs.len(),
{
    if rs.len() == 0 {
        Map::empty()
    } else {
        let t = symbols_of(rs.drop_last());
        let r = rs.last();
        if r.name is Some {
            t.insert(demangled_name(r.name->0@), symbol_model_of(r))
        } else {
            t
        }
    }
}

/// Every symbol that records with usable ranges give lies below 2^32.
pub proof fn lemma_symbols_of_offsets(rs: Seq<RawFunction>)
    requires
        all_named_ranges_valid(rs),
    ensures
        forall|k: Seq<char>| #[trigger]
            symbols_of(rs).contains_key(k) ==> symbols_of(rs)[k].offset <= u32::MAX,
    decreases rs.len(),
{
    if rs.len() > 0 {
        let d = rs.drop_last();
        assert forall|i: int| 0 <= i < d.len() && (#[trigger] d[i]).name is Some implies valid_range(
            d[i],
        ) by {
            assert(d[i] == rs[i]);
        }
        lemma_symbols_of_offsets(d);
        let r = rs.last();
        assert(r == rs[rs.len() - 1]);
        assert forall|k: Seq<char>| #[trigger]
            symbols_of(rs).contains_key(k) implies symbols_of(rs)[k].offset <= u32::MAX by {
            if r.name is Some && k == demangled_name(r.name->0@) {
                assert(valid_range(r));
            } else {
                assert(symbols_of(d).contains_key(k));
            }
        }
    }
}

/// A single named record gives a table with one name, its demangled name,
/// filed with the record's symbol.
pub proof fn lemma_single_record(r: RawFunction)
    requires
        r.name is Some,
    ensures
        symbols_of(seq![r]).dom() == set![demangled_name(r.name->0@)],
        symbols_of(seq![r])[demangled_name(r.name->0@)] == symbol_model_of(r),
{
    let rs = seq![r];
    assert(rs.drop_last() =~= Seq::<RawFunction>::empty());
    assert(symbols_of(rs.drop_last()) == Map::<Seq<char>, SymbolModel>::empty());
    assert(rs.last() == r);
    assert(symbols_of(rs).dom() =~= set![demangled_name(r.name->0@)]);
}

/// The map that a list of entries gives, later entries replacing earlier ones.
pub open spec fn map_of(es: Seq<(String, FunctionSymbol)>) -> Map<Seq<char>, SymbolModel>
    decreases es.len(),
{
    if es.len() == 0 {
        Map::empty()
    } else {
        map_of(es.drop_last()).insert(es.last().0@, es.last().1@)
    }
}

pub open spec fn keys_distinct(es: Seq<(String, FunctionSymbol)>) -> bool {
    forall|i: int, j: int| 0 <= i < j < es.len() ==> (#[trigger] es[i]).0@ != (#[trigger] es[j]).0@
}

proof fn lemma_map_of_index(es: Seq<(String, FunctionSymbol)>, i: int)
    requires
        keys_distinct(es),
        0 <= i < es.len(),
    ensures
        map_of(es).contains_key(es[i].0@),
        map_of(es)[es[i].0@] == es[i].1@,
    decreases es.len(),
{
    if i < es.len() - 1 {
        let d = es.drop_last();
        assert(d[i] == es[i]);
        assert forall|a: int, b: int| 0 <= a < b < d.len() implies (#[trigger] d[a]).0@ != (
        #[trigger] d[b]).0@ by {
            assert(d[a] == es[a] && d[b] == es[b]);
        }
        lemma_map_of_index(d, i);
        assert(es[i].0@ != es[es.len() - 1].0@);
    }
}

proof fn lemma_map_of_absent(es: Seq<(String, FunctionSymbol)>, k: Seq<char>)
    requires
        forall|i: int| 0 <= i < es.len() ==> (#[trigger] es[i]).0@ != k,
    ensures
        !map_of(es).contains_key(k),
    decreases es.len(),
{
    if es.len() > 0 {
        let d = es.drop_last();
        assert forall|i: int| 0 <= i < d.len() implies (#[trigger] d[i]).0@ != k by {
            assert(d[i] == es[i]);
        }
        lemma_map_of_absent(d, k);
        assert(es[es.len() - 1].0@ != k);
    }
}

proof fn lemma_map_of_update(es: Seq<(String, FunctionSymbol)>, i: int, e: (String, FunctionSymbol))
    requires
        keys_distinct(es),
        0 <= i < es.len(),
        e.0@ == es[i].0@,
    ensures
        map_of(es.update(i, e)) == map_of(es).insert(e.0@, e.1@),
    decreases es.len(),
{
    let u = es.update(i, e);
    let d = es.drop_last();
    if i == es.len() - 1 {
        assert(u.drop_last() =~= d);
        assert(map_of(u) =~= map_of(es).insert(e.0@, e.1@));
    } else {
        assert(u.drop_last() =~= d.update(i, e));
        assert forall|a: int, b: int| 0 <= a < b < d.len() implies (#[trigger] d[a]).0@ != (
        #[trigger] d[b]).0@ by {
            assert(d[a] == es[a] && d[b] == es[b]);
        }
        lemma_map_of_update(d, i, e);
        assert(es[i].0@ != es[es.len() - 1].0@);
        assert(map_of(u) =~= map_of(es).insert(e.0@, e.1@));
    }
}

/// Function symbols keyed by demangled name, each name at most once.
pub struct SymbolTable {
    entries: Vec<(String, FunctionSymbol)>,
}

impl View for SymbolTable {
    type V = Map<Seq<char>, SymbolModel>;

    closed spec fn view(&self) -> Map<Seq<char>, SymbolModel> {
        map_of(self.entries@)
    }
}

impl SymbolTable {
    /// The entries in the order in which their names first came.
    pub closed spec fn entry_seq(&self) -> Seq<(String, FunctionSymbol)> {
        self.entries@
    }

    pub closed spec fn wf(&self) -> bool {
        keys_distinct(self.entries@)
    }

    /// Each entry is found under its name, and nothing else is found.
    pub proof fn lemma_entries(&self)
        requires
            self.wf(),
        ensures
            forall|i: int|
                0 <= i < self.entry_seq().len() ==> self@.contains_key(
                    (#[trigger] self.entry_seq()[i]).0@,
                ) && self@[self.entry_seq()[i].0@] == self.entry_seq()[i].1@,
            forall|k: Seq<char>|
                self@.contains_key(k) ==> exists|i: int|
                    0 <= i < self.entry_seq().len() && (#[trigger] self.entry_seq()[i]).0@ == k,
            forall|i: int, j: int|
                0 <= i < j < self.entry_seq().len() ==> (#[trigger] self.entry_seq()[i]).0@ != (
                #[trigger] self.entry_seq()[j]).0@,
    {
        assert forall|i: int| 0 <= i < self.entry_seq().len() implies self@.contains_key(
            (#[trigger] self.entry_seq()[i]).0@,
        ) && self@[self.entry_seq()[i].0@] == self.entry_seq()[i].1@ by {
            lemma_map_of_index(self.entries@, i);
        }
        assert forall|k: Seq<char>| self@.contains_key(k) implies exists|i: int|
            0 <= i < self.entry_seq().len() && (#[trigger] self.entry_seq()[i]).0@ == k by {
            if !(exists|i: int|
                0 <= i < self.entry_seq().len() && (#[trigger] self.entry_seq()[i]).0@ == k) {
                assert forall|i: int| 0 <= i < self.entries@.len() implies (
                #[trigger] self.entries@[i]).0@ != k by {
                    assert(self.entry_seq()[i] == self.entries@[i]);
                }
                lemma_map_of_absent(self.entries@, k);
            }
        }
    }

    pub fn new() -> (r: Self)
        ensures
            r.wf(),
            r@ == Map::<Seq<char>, SymbolModel>::empty(),
            r.entry_seq().len() == 0,
    {
        SymbolTable { entries: Vec::new() }
    }

    pub fn len(&self) -> (r: usize)
        ensures
            r == self.entry_seq().len(),
    {
        self.entries.len()
    }

    /// The `i`-th entry: its name and its symbol.
    pub fn entry(&self, i: usize) -> (r: (&String, &FunctionSymbol))
        requires
            i < self.entry_seq().len(),
        ensures
            *r.0 == self.entry_seq()[i as int].0,
            *r.1 == self.entry_seq()[i as int].1,
    {
        (&self.entries[i].0, &self.entries[i].1)
    }

    fn position(&self, name: &str) -> (r: Option<usize>)
        requires
            self.wf(),
        ensures
            match r {
                Some(i) => i < self.entries@.len() && self.entries@[i as int].0@ == name@,
                None => forall|i: int|
                    0 <= i < self.entries@.len() ==> (#[trigger] self.entries@[i]).0@ != name@,
            },
    {
        let mut i: usize = 0;
        while i < self.entries.len()
            invariant
                i <= self.entries@.len(),
                forall|j: int| 0 <= j < i ==> (#[trigger] self.entries@[j]).0@ != name@,
            decreases self.entries@.len() - i,
        {
            if str_eq(self.entries[i].0.as_str(), name) {
                return Some(i);
            }
            i = i + 1;
        }
        None
    }

    /// The symbol filed under `name`.
    pub fn get(&self, name: &str) -> (r: Option<&FunctionSymbol>)
        requires
            self.wf(),
        ensures
            match r {
                Some(s) => self@.contains_key(name@) && s@ == self@[name@],
                None => !self@.contains_key(name@),
            },
    {
        match self.position(name) {
            Some(i) => {
                proof {
                    lemma_map_of_index(self.entries@, i as int);
                }
                Some(&self.entries[i].1)
            },
            None => {
                proof {
                    lemma_map_of_absent(self.entries@, name@);
                }
                None
            },
        }
    }

    /// Files `sym` under `name`, replacing what was filed there before.
    pub fn insert(&mut self, name: String, sym: FunctionSymbol)
        requires
            old(self).wf(),
        ensures
            final(self).wf(),
            final(self)@ == old(self)@.insert(name@, sym@),
    {
        match self.position(name.as_str()) {
            Some(i) => {
                let ghost before = self.entries@;
                let e = (name, sym);
                proof {
                    lemma_map_of_update(before, i as int, e);
                }
                self.entries.set(i, e);
                assert(self.entries@ == before.update(i as int, e));
                assert forall|a: int, b: int| 0 <= a < b < self.entries@.len() implies (
                #[trigger] self.entries@[a]).0@ != (#[trigger] self.entries@[b]).0@ by {
                    assert(before[a].0@ == self.entries@[a].0@);
                    assert(before[b].0@ == self.entries@[b].0@);
                }
            },
            None => {
                let ghost before = self.entries@;
                self.entries.push((name, sym));
                assert(self.entries@.drop_last() =~= before);
                assert forall|a: int, b: int| 0 <= a < b < self.entries@.len() implies (
                #[trigger] self.entries@[a]).0@ != (#[trigger] self.entries@[b]).0@ by {
                    if b < before.len() {
                        assert(before[a] == self.entries@[a] && before[b] == self.entries@[b]);
                    } else {
                        assert(before[a] == self.entries@[a]);
                    }
                }
            },
        }
    }
}

} // verus!

verus! {

/// Relies on `regex::Regex::new` and `regex::Regex::find`: for the pattern
/// `[^@(]+` the leftmost match is the first maximal run of characters other
/// than `@` and `(`, and there is no match when there is no such character.
#[verifier::external_body]
fn find_name_run(pattern: &str, name: &str) -> (r: Option<String>)
    requires
        pattern@ == seq!['[', '^', '@', '(', ']', '+'],
    ensures
        match r {
            Some(s) => s@ == first_run(name@) && s@.len() > 0,
            None => first_run(name@).len() == 0,
        },
{
    match regex::Regex::new(pattern) {
        Ok(re) => re.find(name).map(|m| m.as_str().to_string()),
        Err(_) => None,
    }
}

/// The display name of a decorated symbol name (`foo@@YAXXZ(int)` gives
/// `foo`): its first run of characters other than `@` and `(`, or the name
/// unchanged when it has none.
pub fn demangle_function_name(name: String) -> (r: String)
    ensures
        r@ == demangled_name(name@),
{
    let pattern = "[^@(]+";
    proof {
        reveal_strlit("[^@(]+");
    }
    assert(pattern@ =~= seq!['[', '^', '@', '(', ']', '+']);
    match find_name_run(pattern, name.as_str()) {
        Some(run) => run,
        None => name,
    }
}

/// The symbol of a named record with a usable range.
pub fn to_function_symbol(data: &RawFunction) -> (r: FunctionSymbol)
    requires
        data.name is Some,
        valid_range(*data),
    ensures
        r@ == symbol_model_of(*data),
{
    let name = match &data.name {
        Some(n) => n.clone(),
        None => String::new(),
    };
    let file = match &data.file {
        Some(f) => f.clone(),
        None => {
            proof {
                reveal_strlit("UNKNOWN");
            }
            String::from_str("UNKNOWN")
        },
    };
    let size: u32 = match data.end_rva {
        Some(e) => e - data.start_rva,
        None => 0,
    };
    let r = FunctionSymbol {
        name,
        file,
        offset: (data.start_rva - PDB_RVA_PREAMBLE) as u64,
        size: size as usize,
    };
    assert(r@.file =~= symbol_model_of(*data).file);
    r
}

/// The function symbols of a debug file's records, keyed by demangled name:
/// nameless records are skipped and a later record replaces an earlier one
/// of the same name. Fails when a named record's range is unusable.
pub fn get_pdb_funcs(records: &Vec<RawFunction>) -> (r: Result<SymbolTable, PdbError>)
    ensures
        match r {
            Ok(t) => all_named_ranges_valid(records@) && t.wf() && t@ == symbols_of(records@)
                && addresses_fit(t@),
            Err(e) => !all_named_ranges_valid(records@) && e is InvalidFunctionRange,
        },
{
    let mut table = SymbolTable::new();
    let mut i: usize = 0;
    while i < records.len()
        invariant
            i <= records@.len(),
            table.wf(),
            table@ == symbols_of(records@.subrange(0, i as int)),
            all_named_ranges_valid(records@.subrange(0, i as int)),
        decreases records@.len() - i,
    {
        let rec = &records[i];
        let ghost pre = records@.subrange(0, i as int);
        let ghost next = records@.subrange(0, i as int + 1);
        assert(next.drop_last() =~= pre);
        assert(next.last() == records@[i as int]);
        match &rec.name {
            Some(raw_name) => {
                let bad_end = match rec.end_rva {
                    Some(e) => e < rec.start_rva,
                    None => false,
                };
                if rec.start_rva < PDB_RVA_PREAMBLE || bad_end {
                    assert(!valid_range(records@[i as int]));
                    return Err(PdbError::InvalidFunctionRange(raw_name.clone()));
                }
                let sym = to_function_symbol(rec);
                let key = demangle_function_name(raw_name.clone());
                table.insert(key, sym);
            },
            None => {},
        }
        assert forall|j: int| 0 <= j < next.len() && (#[trigger] next[j]).name is Some implies valid_range(
            next[j],
        ) by {
            if j < i {
                assert(next[j] == pre[j]);
            }
        }
        i = i + 1;
    }
    assert(records@.subrange(0, records@.len() as int) =~= records@);
    proof {
        lemma_symbols_of_offsets(records@);
    }
    Ok(table)
}

} // verus!
