//! Function symbols of the rebuilt binary, as read from its debug file, and
//! function definitions of the reference binary.

use vstd::prelude::*;

verus! {

/// Correction from the debug file's relative addresses to the addresses the
/// rebuilt binary shows.
pub const PDB_SEGMENT_OFFSET: u64 = 0x0040_0C00;

/// Reserved header region that precedes the code in the debug file's
/// relative address space.
pub const PDB_RVA_PREAMBLE: u32 = 0xC00;

/// A function of the reference binary, as its configuration declares it.
pub struct FunctionDefinition {
    pub name: String,
    /// Absolute virtual address in the reference binary.
    pub addr: u64,
    /// Size in bytes, when it is known.
    pub size: Option<usize>,
}

/// The configuration of the reference binary: the correction from its
/// virtual addresses to file offsets, and its declared functions.
pub struct ComparerConfig {
    pub address_offset: u64,
    pub func: Vec<FunctionDefinition>,
}

/// What a [`FunctionDefinition`] holds, as plain values.
pub struct DefinitionModel {
    pub name: Seq<char>,
    pub addr: u64,
    pub size: Option<usize>,
}

impl View for FunctionDefinition {
    type V = DefinitionModel;

    open spec fn view(&self) -> DefinitionModel {
        DefinitionModel { name: self.name@, addr: self.addr, size: self.size }
    }
}

impl Clone for FunctionDefinition {
    fn clone(&self) -> (r: Self)
        ensures
            r@ == self@,
    {
        FunctionDefinition { name: self.name.clone(), addr: self.addr, size: self.size }
    }
}

/// A function of the rebuilt binary, as its debug file records it.
pub struct FunctionSymbol {
    /// The name as recorded, decorations included.
    pub name: String,
    /// Best-effort source file, `UNKNOWN` when unresolved.
    pub file: String,
    /// File-relative address, before the segment correction.
    pub offset: u64,
    pub size: usize,
}

/// What a [`FunctionSymbol`] holds, as plain values.
pub struct SymbolModel {
    pub name: Seq<char>,
    pub file: Seq<char>,
    pub offset: u64,
    pub size: usize,
}

impl View for FunctionSymbol {
    type V = SymbolModel;

    open spec fn view(&self) -> SymbolModel {
        SymbolModel { name: self.name@, file: self.file@, offset: self.offset, size: self.size }
    }
}

impl Clone for FunctionSymbol {
    fn clone(&self) -> (r: Self)
        ensures
            r@ == self@,
    {
        FunctionSymbol {
            name: self.name.clone(),
            file: self.file.clone(),
            offset: self.offset,
            size: self.size,
        }
    }
}

/// The definition that a symbol stands for in the rebuilt binary's
/// address space.
pub open spec fn definition_of(s: SymbolModel) -> DefinitionModel {
    DefinitionModel {
        name: s.name,
        addr: (s.offset + PDB_SEGMENT_OFFSET) as u64,
        size: Some(s.size),
    }
}

impl FunctionSymbol {
    /// The symbol as a definition at its absolute address
    /// (`offset + PDB_SEGMENT_OFFSET`), with its size.
    pub fn as_function_definition(&self) -> (r: FunctionDefinition)
        requires
            self.offset + PDB_SEGMENT_OFFSET <= u64::MAX,
        ensures
            r@ == definition_of(self@),
    {
        FunctionDefinition {
            addr: self.offset + PDB_SEGMENT_OFFSET,
            name: self.name.clone(),
            size: Some(self.size),
        }
    }

    /// The definition of [`Self::as_function_definition`] keyed by its address.
    pub fn as_function_definition_pair(&self) -> (r: (u64, FunctionDefinition))
        requires
            self.offset + PDB_SEGMENT_OFFSET <= u64::MAX,
        ensures
            r.1@ == definition_of(self@),
            r.0 == r.1.addr,
    {
        let func = self.as_function_definition();
        (func.addr, func)
    }
}

} // verus!
