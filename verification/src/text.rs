//! String helpers for verified code.

use vstd::prelude::*;

verus! {

/// Decides whether two string slices hold the same characters.
pub fn str_eq(a: &str, b: &str) -> (r: bool)
    ensures
        r == (a@ == b@),
{
    let sa: String = a.to_string();
    let sb: String = b.to_string();
    sa == sb
}

/// Clones an optional string, keeping its presence and characters.
pub fn clone_opt_string(value: &Option<String>) -> (r: Option<String>)
    ensures
        r.deep_view() == value.deep_view(),
{
    match value {
        Some(s) => Some(s.clone()),
        None => None,
    }
}

} // verus!
