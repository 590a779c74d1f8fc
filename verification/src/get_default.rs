//! Per-option preset defaults below the store layer.
//!
//! A hook between the store lookups and the compiled-in defaults held
//! by the option struct. No option declares such a default today, so
//! every lookup here misses and the struct's value stands; the setters
//! still consult this layer, so giving an option one later cannot
//! change their shape.

use vstd::prelude::*;
use crate::options::OptionStruct;

verus! {

/// The string-typed preset default of an option: none is declared.
pub fn _string(option_name: &str, opt: &OptionStruct) -> (r: Option<String>)
    ensures
        r is None,
{
    None
}

/// The bool-typed preset default of an option: none is declared.
pub fn _bool(option_name: &str, opt: &OptionStruct) -> (r: Option<bool>)
    ensures
        r is None,
{
    None
}

/// The unsigned-integer preset default of an option: none is declared.
pub fn _usize(option_name: &str, opt: &OptionStruct) -> (r: Option<usize>)
    ensures
        r is None,
{
    None
}

} // verus!
