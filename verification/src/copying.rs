//! Copies of owned values whose content is known to the verifier.

use vstd::prelude::*;
use std::collections::HashMap;

verus! {

/// A copy of a list of strings.
pub fn copy_strings(list: &Vec<String>) -> (copy: Vec<String>)
    ensures
        copy.deep_view() == list.deep_view(),
{
    let copy = list.clone();
    assert(copy.deep_view() =~= list.deep_view());
    copy
}

/// A copy of an optional string.
pub fn copy_optional_string(value: &Option<String>) -> (copy: Option<String>)
    ensures
        copy.deep_view() == value.deep_view(),
{
    match value {
        Some(text) => Some(text.clone()),
        None => None,
    }
}

/// A copy of a byte string.
pub fn copy_bytes(bytes: &Vec<u8>) -> (copy: Vec<u8>)
    ensures
        copy@ == bytes@,
{
    let copy = bytes.clone();
    assert(copy@ =~= bytes@);
    copy
}

/// A copy of a map from strings to strings.
pub fn copy_string_map(map: &HashMap<String, String>) -> (copy: HashMap<String, String>)
    ensures
        copy.deep_view() == map.deep_view(),
{
    let copy = map.clone();
    proof {
        reveal(vstd::std_specs::hash::hash_map_deep_view_impl);
        assert(copy.deep_view() =~= map.deep_view());
    }
    copy
}

} // verus!
