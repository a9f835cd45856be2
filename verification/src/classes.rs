use vstd::prelude::*;
use crate::constants::SPECIAL_CHARS;

verus! {

/// One of the four character classes that a password is made of.
#[derive(Clone, Copy, Debug, PartialEq, Eq, Structural)]
pub enum CharClass {
    /// The symbols of [`SPECIAL_CHARS`].
    Special,
    /// The letters `A` to `Z`.
    Upper,
    /// The letters `a` to `z`.
    Lower,
    /// The digits `0` to `9`.
    Digit,
}

/// The `count` consecutive characters that start at `first`.
pub open spec fn char_run(first: char, count: nat) -> Seq<char> {
    Seq::new(count, |i: int| (first as int + i) as char)
}

/// Whether the code of `c` is one of the `count` codes that start at that of
/// `first`.
pub open spec fn in_run(first: char, count: nat, c: char) -> bool {
    let lo = first as int;
    let code = c as int;
    lo <= code && code < lo + count
}

/// A character lies in a run exactly when its code lies between the run's
/// first code and its last.
pub proof fn lemma_char_run_contains(first: char, count: nat, c: char)
    requires
        first as int + count <= 0xD800,
    ensures
        char_run(first, count).contains(c) <==> in_run(first, count, c),
{
    let run = char_run(first, count);
    if run.contains(c) {
        let i = choose|i: int| 0 <= i < run.len() && run[i] == c;
        assert(run[i] == (first as int + i) as char);
    }
    if in_run(first, count, c) {
        let i = c as int - first as int;
        assert(run[i] == c);
    }
}

impl CharClass {
    /// The characters of the class, in canonical order.
    pub open spec fn members(self) -> Seq<char> {
        match self {
            CharClass::Special => SPECIAL_CHARS@,
            CharClass::Upper => char_run('A', 26),
            CharClass::Lower => char_run('a', 26),
            CharClass::Digit => char_run('0', 10),
        }
    }

    /// Whether `c` belongs to the class.
    pub open spec fn has(self, c: char) -> bool {
        self.members().contains(c)
    }

    /// Computes [`CharClass::has`].
    pub fn contains(self, c: char) -> (b: bool)
        ensures
            b == self.has(c),
    {
        match self {
            CharClass::Special => {
                let mut found = false;
                let mut i: usize = 0;
                while i < SPECIAL_CHARS.len()
                    invariant
                        i <= SPECIAL_CHARS@.len(),
                        found == (exists|j: int| 0 <= j < i && SPECIAL_CHARS@[j] == c),
                    decreases SPECIAL_CHARS@.len() - i,
                {
                    if SPECIAL_CHARS[i] == c {
                        found = true;
                    }
                    i += 1;
                }
                found
            },
            CharClass::Upper => {
                proof {
                    lemma_class_bounds(c);
                }
                'A' <= c && c <= 'Z'
            },
            CharClass::Lower => {
                proof {
                    lemma_class_bounds(c);
                }
                'a' <= c && c <= 'z'
            },
            CharClass::Digit => {
                proof {
                    lemma_class_bounds(c);
                }
                '0' <= c && c <= '9'
            },
        }
    }
}

/// The letters and the digits are the characters between the first and the
/// last of their class.
pub proof fn lemma_class_bounds(c: char)
    ensures
        CharClass::Upper.has(c) <==> 'A' <= c <= 'Z',
        CharClass::Lower.has(c) <==> 'a' <= c <= 'z',
        CharClass::Digit.has(c) <==> '0' <= c <= '9',
{
    lemma_char_run_contains('A', 26, c);
    lemma_char_run_contains('a', 26, c);
    lemma_char_run_contains('0', 10, c);
}

/// No character belongs to two classes.
pub proof fn lemma_classes_disjoint(a: CharClass, b: CharClass, c: char)
    requires
        a.has(c),
        b.has(c),
    ensures
        a == b,
{
    lemma_class_bounds(c);
    if SPECIAL_CHARS@.contains(c) {
        let i = choose|i: int| 0 <= i < SPECIAL_CHARS@.len() && SPECIAL_CHARS@[i] == c;
        assert(SPECIAL_CHARS@.len() == 14);
    }
}

} // verus!
