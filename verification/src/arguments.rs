//! Validation of the configured direction sequence.
//!
//! Each character of the sequence names the approach direction of one
//! agent, case-insensitively; any other character makes the whole
//! configuration invalid.

use vstd::prelude::*;
use crate::direction::spec_valid_direction_char;

verus! {

/// True exactly when `c` is an accepted direction symbol.
pub fn valid_direction_char(c: char) -> (r: bool)
    ensures
        r == spec_valid_direction_char(c),
{
    match c {
        'N' | 'n' | 'S' | 's' | 'E' | 'e' | 'W' | 'w' => true,
        _ => false,
    }
}

/// Check a direction sequence: `None` when every character is a valid
/// direction symbol, otherwise the index of the first invalid one.
pub fn validate_sequence(chars: &Vec<char>) -> (r: Option<usize>)
    ensures
        r is None <==> (forall|i: int|
            0 <= i < chars@.len() ==> spec_valid_direction_char(#[trigger] chars@[i])),
        r matches Some(i) ==> i < chars@.len() && !spec_valid_direction_char(chars@[i as int])
            && (forall|j: int| 0 <= j < i ==> spec_valid_direction_char(#[trigger] chars@[j])),
{
    let mut idx: usize = 0;
    while idx < chars.len()
        invariant
            idx <= chars@.len(),
            forall|j: int| 0 <= j < idx ==> spec_valid_direction_char(#[trigger] chars@[j]),
        decreases chars@.len() - idx,
    {
        if !valid_direction_char(chars[idx]) {
            return Some(idx);
        }
        idx = idx + 1;
    }
    None
}

} // verus!
