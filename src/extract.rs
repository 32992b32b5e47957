//! Carving a function's bytes out of each binary's image: which range to
//! take on each side, and the checks that come before any byte is taken.

use vstd::prelude::*;
use crate::symbols::{
    DefinitionModel, FunctionDefinition, FunctionSymbol, SymbolModel, PDB_SEGMENT_OFFSET,
};

verus! {

/// Why a function's bytes could not be taken.
#[derive(Debug)]
pub enum SliceError {
    /// Neither side declares a size for the reference function.
    MissingSize(String),
    /// Truncation to the reference size was asked for, but the reference
    /// function declares no size.
    RequiredSize(String),
    /// The range lies outside the binary image.
    OutOfBounds(String),
}

/// A function's bytes and the virtual address they start at.
pub struct FunctionBytes {
    pub bytes: Vec<u8>,
    pub addr: u64,
}

/// The bytes of a function on each side that has it.
pub struct FunctionSides {
    pub orig: Option<FunctionBytes>,
    pub new: Option<FunctionBytes>,
}

/// Truncation is asked for on a rebuilt function whose reference size is
/// not declared.
pub open spec fn truncation_unsized(
    orig_fn: Option<DefinitionModel>,
    pdb_fn: Option<SymbolModel>,
    truncate: bool,
) -> bool {
    truncate && pdb_fn is Some && (orig_fn is None || orig_fn->0.size is None)
}

/// A reference function declares no size and the rebuilt side has none to
/// lend.
pub open spec fn size_missing(orig_fn: Option<DefinitionModel>, pdb_fn: Option<SymbolModel>) -> bool {
    orig_fn matches Some(f) && f.size is None && pdb_fn is None
}

/// The length taken from the reference binary: its declared size, else the
/// rebuilt function's size.
pub open spec fn reference_len(f: DefinitionModel, pdb_fn: Option<SymbolModel>) -> int {
    match f.size {
        Some(s) => s as int,
        None => pdb_fn->0.size as int,
    }
}

/// The length taken from the rebuilt binary: the reference size under
/// truncation, else the rebuilt function's own size.
pub open spec fn rebuilt_len(s: SymbolModel, orig_fn: Option<DefinitionModel>, truncate: bool) -> int {
    if truncate {
        orig_fn->0.size->0 as int
    } else {
        s.size as int
    }
}

/// The reference range `[addr - base, addr - base + len)` lies inside an
/// image of `image_len` bytes.
pub open spec fn reference_in_bounds(
    f: DefinitionModel,
    pdb_fn: Option<SymbolModel>,
    base: u64,
    image_len: int,
) -> bool {
    f.addr >= base && f.addr - base + reference_len(f, pdb_fn) <= image_len
}

/// The rebuilt range lies inside an image of `image_len` bytes, and its
/// address fits in 64 bits.
pub open spec fn rebuilt_in_bounds(
    s: SymbolModel,
    orig_fn: Option<DefinitionModel>,
    truncate: bool,
    image_len: int,
) -> bool {
    s.offset + rebuilt_len(s, orig_fn, truncate) <= image_len && s.offset + PDB_SEGMENT_OFFSET
        <= u64::MAX
}

/// Both present sides lie inside their images.
pub open spec fn sides_in_bounds(
    orig_fn: Option<DefinitionModel>,
    pdb_fn: Option<SymbolModel>,
    base: u64,
    truncate: bool,
    orig_len: int,
    new_len: int,
) -> bool {
    &&& (orig_fn matches Some(f) ==> reference_in_bounds(f, pdb_fn, base, orig_len))
    &&& (pdb_fn matches Some(s) ==> rebuilt_in_bounds(s, orig_fn, truncate, new_len))
}

/// The model of a definition that may be absent.
pub open spec fn definition_model(f: Option<&FunctionDefinition>) -> Option<DefinitionModel> {
    match f {
        Some(d) => Some(d@),
        None => None,
    }
}

/// The model of a symbol that may be absent.
pub open spec fn symbol_model(s: Option<&FunctionSymbol>) -> Option<SymbolModel> {
    match s {
        Some(x) => Some(x@),
        None => None,
    }
}

/// The sides were taken as they should be: the checks passed, the
/// reference side holds `[addr - base, addr - base + reference_len)` of its
/// image at `addr`, the rebuilt side holds
/// `[offset, offset + rebuilt_len)` of its image at
/// `offset + PDB_SEGMENT_OFFSET`, and an absent function has no side.
pub open spec fn sides_taken(
    o: Option<DefinitionModel>,
    p: Option<SymbolModel>,
    base: u64,
    truncate: bool,
    orig_image: Seq<u8>,
    new_image: Seq<u8>,
    sides: FunctionSides,
) -> bool {
    &&& !truncation_unsized(o, p, truncate)
    &&& !size_missing(o, p)
    &&& sides_in_bounds(o, p, base, truncate, orig_image.len() as int, new_image.len() as int)
    &&& match o {
        Some(f) => sides.orig matches Some(b) && b.addr == f.addr && b.bytes@ == orig_image.subrange(
            f.addr - base,
            f.addr - base + reference_len(f, p),
        ),
        None => sides.orig is None,
    }
    &&& match p {
        Some(s) => sides.new matches Some(b) && b.addr == s.offset + PDB_SEGMENT_OFFSET && b.bytes@
            == new_image.subrange(s.offset as int, s.offset + rebuilt_len(s, o, truncate)),
        None => sides.new is None,
    }
}

/// The bytes `[offset, offset + len)` of `image`.
pub fn carve(image: &Vec<u8>, offset: usize, len: usize) -> (r: Vec<u8>)
    requires
        offset + len <= image@.len(),
    ensures
        r@ == image@.subrange(offset as int, offset + len),
{
    let n = image.len();
    let mut r: Vec<u8> = Vec::with_capacity(len);
    let mut i: usize = 0;
    while i < len
        invariant
            offset + len <= image@.len(),
            n == image@.len(),
            i <= len,
            r@ == image@.subrange(offset as int, offset + i),
        decreases len - i,
    {
        r.push(image[offset + i]);
        i = i + 1;
        assert(r@ =~= image@.subrange(offset as int, offset + i));
    }
    r
}

/// Takes the bytes of a function from each side that has it: from the
/// reference image at `addr - base`, from the rebuilt image at the symbol's
/// offset. The truncation check comes before anything else, then the size
/// check, then the bounds of each side.
pub fn function_sides(
    name: &String,
    orig_fn: Option<&FunctionDefinition>,
    pdb_fn: Option<&FunctionSymbol>,
    base: u64,
    truncate: bool,
    orig_image: &Vec<u8>,
    new_image: &Vec<u8>,
) -> (r: Result<FunctionSides, SliceError>)
    ensures
        ({
            let o = definition_model(orig_fn);
            let p = symbol_model(pdb_fn);
            match r {
                Err(SliceError::RequiredSize(n)) => n@ == name@ && truncation_unsized(o, p, truncate),
                Err(SliceError::MissingSize(n)) => n@ == name@ && !truncation_unsized(o, p, truncate)
                    && size_missing(o, p),
                Err(SliceError::OutOfBounds(n)) => n@ == name@ && !truncation_unsized(o, p, truncate)
                    && !size_missing(o, p) && !sides_in_bounds(
                    o,
                    p,
                    base,
                    truncate,
                    orig_image@.len() as int,
                    new_image@.len() as int,
                ),
                Ok(sides) => sides_taken(o, p, base, truncate, orig_image@, new_image@, sides),
            }
        }),
{
    // The truncation policy is checked before any range is looked at.
    let mut trunc_len: usize = 0;
    if truncate && pdb_fn.is_some() {
        match orig_fn {
            Some(f) => match f.size {
                Some(s) => trunc_len = s,
                None => return Err(SliceError::RequiredSize(name.clone())),
            },
            None => return Err(SliceError::RequiredSize(name.clone())),
        }
    }
    let mut orig_range: Option<(usize, usize, u64)> = None;
    match orig_fn {
        Some(f) => {
            let len: usize = match f.size {
                Some(s) => s,
                None => match pdb_fn {
                    Some(p) => p.size,
                    None => return Err(SliceError::MissingSize(name.clone())),
                },
            };
            if f.addr < base || f.addr - base > orig_image.len() as u64 || len > orig_image.len()
                - (f.addr - base) as usize {
                return Err(SliceError::OutOfBounds(name.clone()));
            }
            orig_range = Some(((f.addr - base) as usize, len, f.addr));
        },
        None => {},
    }
    let mut new_range: Option<(usize, usize, u64)> = None;
    match pdb_fn {
        Some(s) => {
            let len: usize = if truncate {
                trunc_len
            } else {
                s.size
            };
            if s.offset > new_image.len() as u64 || len > new_image.len() - s.offset as usize
                || s.offset > u64::MAX - PDB_SEGMENT_OFFSET {
                return Err(SliceError::OutOfBounds(name.clone()));
            }
            new_range = Some((s.offset as usize, len, s.offset + PDB_SEGMENT_OFFSET));
        },
        None => {},
    }
    let orig = match orig_range {
        Some((off, len, addr)) => Some(FunctionBytes { bytes: carve(orig_image, off, len), addr }),
        None => None,
    };
    let new = match new_range {
        Some((off, len, addr)) => Some(FunctionBytes { bytes: carve(new_image, off, len), addr }),
        None => None,
    };
    Ok(FunctionSides { orig, new })
}

} // verus!
