//! Case-insensitive comparison of UTF-16 code units, following the one-unit
//! to one-unit upper-case mapping of a native platform.
//!
//! A fold table is built from case-folding records (each accepted record maps
//! its folded unit back to its original unit) with a list of corrections laid
//! over it. A unit that is not a key of the table folds to itself.

pub mod parse;
pub mod table;
pub mod data;
pub mod discovery;

pub use data::gen_mappings;
pub use discovery::{closest_candidate, gen_os_map, mapping_diff};
pub use parse::try_gen_mappings;
pub use table::{compare_str, Casefold};
