//! The address maps of the two binaries, used to name call targets. Each
//! binary has its own: addresses mean something only in their own binary.

use vstd::prelude::*;
use std::collections::HashMap;
use crate::symbol_table::SymbolTable;
use crate::symbols::{
    definition_of, DefinitionModel, FunctionDefinition, FunctionSymbol, SymbolModel,
    PDB_SEGMENT_OFFSET,
};

verus! {

broadcast use vstd::std_specs::hash::group_hash_axioms;

/// The definitions of an address map, as plain values.
pub open spec fn map_models(m: Map<u64, FunctionDefinition>) -> Map<u64, DefinitionModel> {
    m.map_values(|d: FunctionDefinition| d@)
}

/// The reference binary's map: each definition at its configured address,
/// a later definition replacing an earlier one at the same address.
pub open spec fn definitions_address_map(defs: Seq<FunctionDefinition>) -> Map<
    u64,
    DefinitionModel,
>
    decreases defs.len(),
{
    if defs.len() == 0 {
        Map::empty()
    } else {
        definitions_address_map(defs.drop_last()).insert(defs.last().addr, defs.last()@)
    }
}

/// The rebuilt binary's map: each symbol at its offset plus
/// [`PDB_SEGMENT_OFFSET`], in the table's order, a later symbol replacing an
/// earlier one at the same address.
pub open spec fn symbols_address_map(es: Seq<(String, FunctionSymbol)>) -> Map<
    u64,
    DefinitionModel,
>
    decreases es.len(),
{
    if es.len() == 0 {
        Map::empty()
    } else {
        let d = definition_of(es.last().1@);
        symbols_address_map(es.drop_last()).insert(d.addr, d)
    }
}

/// Every symbol's absolute address fits in 64 bits.
pub open spec fn addresses_fit(m: Map<Seq<char>, SymbolModel>) -> bool {
    forall|k: Seq<char>| #[trigger]
        m.contains_key(k) ==> m[k].offset + PDB_SEGMENT_OFFSET <= u64::MAX
}

/// The reference binary's address map of its configured definitions.
pub fn build_address_map(defs: &Vec<FunctionDefinition>) -> (r: HashMap<u64, FunctionDefinition>)
    ensures
        map_models(r@) == definitions_address_map(defs@),
{
    let mut m: HashMap<u64, FunctionDefinition> = HashMap::new();
    let mut i: usize = 0;
    while i < defs.len()
        invariant
            i <= defs@.len(),
            map_models(m@) == definitions_address_map(defs@.subrange(0, i as int)),
        decreases defs@.len() - i,
    {
        let d = defs[i].clone();
        let ghost before = m@;
        m.insert(d.addr, d);
        proof {
            let next = defs@.subrange(0, i as int + 1);
            assert(next.drop_last() =~= defs@.subrange(0, i as int));
            assert(map_models(m@) =~= map_models(before).insert(defs@[i as int].addr, defs@[i as int]@));
        }
        i = i + 1;
    }
    assert(defs@.subrange(0, defs@.len() as int) =~= defs@);
    m
}

/// The rebuilt binary's address map of its function symbols.
pub fn get_pdb_fn_map(pdb_funcs: &SymbolTable) -> (r: HashMap<u64, FunctionDefinition>)
    requires
        pdb_funcs.wf(),
        addresses_fit(pdb_funcs@),
    ensures
        map_models(r@) == symbols_address_map(pdb_funcs.entry_seq()),
{
    proof {
        pdb_funcs.lemma_entries();
    }
    let mut m: HashMap<u64, FunctionDefinition> = HashMap::new();
    let mut i: usize = 0;
    while i < pdb_funcs.len()
        invariant
            pdb_funcs.wf(),
            addresses_fit(pdb_funcs@),
            forall|j: int|
                0 <= j < pdb_funcs.entry_seq().len() ==> pdb_funcs@.contains_key(
                    (#[trigger] pdb_funcs.entry_seq()[j]).0@,
                ) && pdb_funcs@[pdb_funcs.entry_seq()[j].0@] == pdb_funcs.entry_seq()[j].1@,
            i <= pdb_funcs.entry_seq().len(),
            map_models(m@) == symbols_address_map(pdb_funcs.entry_seq().subrange(0, i as int)),
        decreases pdb_funcs.entry_seq().len() - i,
    {
        let (_, sym) = pdb_funcs.entry(i);
        proof {
            let k = pdb_funcs.entry_seq()[i as int].0@;
            assert(pdb_funcs@.contains_key(k));
        }
        let (addr, def) = sym.as_function_definition_pair();
        let ghost before = m@;
        m.insert(addr, def);
        proof {
            let es = pdb_funcs.entry_seq();
            let next = es.subrange(0, i as int + 1);
            assert(next.drop_last() =~= es.subrange(0, i as int));
            assert(map_models(m@) =~= map_models(before).insert(addr, definition_of(sym@)));
        }
        i = i + 1;
    }
    assert(pdb_funcs.entry_seq().subrange(0, pdb_funcs.entry_seq().len() as int)
        =~= pdb_funcs.entry_seq());
    m
}

} // verus!
