use vstd::prelude::*;

verus! {

/// Password length used when the caller does not ask for one.
pub const DEFAULT_PASS_LEN: usize = 16;

/// Number of characters in the alphabet when every class is enabled.
pub const ESTIMATED_ALPHABET_CAPACITY: usize = 76;

/// Ceiling on the number of candidates drawn before generation gives up.
pub const MAX_CONVERGENCE_ITERATIONS: usize = 150000;

/// The symbols that make up the special-character class, in canonical order.
pub const SPECIAL_CHARS: [char; 14] = [
    '!', '#', '$', '%', '&', '*', ']', '[', '(', ')', '{', '}', '+', '-',
];

} // verus!
