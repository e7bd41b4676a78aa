//! Stepping an index within a vector's bounds.
use vstd::prelude::*;

verus! {

/// The index after `index`, where it is still inside `vec`.
pub fn next_index<T>(vec: &Vec<T>, index: usize) -> (r: Option<usize>)
    ensures
        r == (if index + 1 < vec@.len() {
            Some((index + 1) as usize)
        } else {
            None
        }),
{
    if index < vec.len() && index < vec.len() - 1 {
        return Some(index + 1);
    }
    None
}

/// The index before `index`, where there is one.
pub fn prev_index<T>(vec: &Vec<T>, index: usize) -> (r: Option<usize>)
    ensures
        r == (if index == 0 {
            None
        } else {
            Some((index - 1) as usize)
        }),
{
    if index == 0 {
        return None;
    }
    Some(index - 1)
}

} // verus!
