//! Normalises the quoting of plain string literals in a parsed Python module:
//! every `"` in a reachable literal becomes `'`, and nothing else changes.
pub mod laws;
pub mod literal;
pub mod reach;
pub mod traverse;
pub mod tree;
