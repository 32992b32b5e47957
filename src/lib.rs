//! Per-function comparison of a reference binary against a rebuilt binary
//! whose debug information is known.

pub mod numfmt;
pub mod text;
pub mod symbols;
pub mod symbol_table;
pub mod disasm;
pub mod address_map;
pub mod diff;
pub mod extract;
pub mod compare;
pub mod generate_full;
pub mod report;
