use vstd::prelude::*;
use rand::rngs::StdRng;
use crate::classes::{char_run, CharClass};
use crate::config::Configurator;
use crate::constants::{ESTIMATED_ALPHABET_CAPACITY, SPECIAL_CHARS};
use crate::random::{generate_seed, rng_from_seed, sample_between};

verus! {

/// What `class` contributes to the alphabet of `config`: all of its characters
/// if it is allowed, nothing otherwise.
pub open spec fn class_part(config: &Configurator, class: CharClass) -> Seq<char> {
    if config.allows(class) {
        class.members()
    } else {
        Seq::empty()
    }
}

/// The alphabet of `config`: the characters of the allowed classes, class after
/// class, in the order special, uppercase, lowercase, digits.
pub open spec fn alphabet_of(config: &Configurator) -> Seq<char> {
    class_part(config, CharClass::Special) + class_part(config, CharClass::Upper) + class_part(
        config,
        CharClass::Lower,
    ) + class_part(config, CharClass::Digit)
}

/// The characters to draw from, and the generator that picks among them.
pub struct Alphabet {
    /// The characters; a character that occurs twice is drawn twice as often.
    pub chars: Vec<char>,
    /// The generator that every draw advances.
    pub rng: StdRng,
}

/// Appends the `count` characters that start at `first` to `chars`.
fn push_run(chars: &mut Vec<char>, first: u8, count: u8)
    requires
        first as int + count as int <= 128,
    ensures
        final(chars)@ == old(chars)@ + char_run(first as char, count as nat),
{
    let mut i: u8 = 0;
    while i < count
        invariant
            i <= count,
            first as int + count as int <= 128,
            chars@ == old(chars)@ + char_run(first as char, i as nat),
        decreases count - i,
    {
        chars.push((first + i) as char);
        i += 1;
    }
}

/// Appends the special characters to `chars` if `config` allows them.
pub fn mixin_special_chars(config: &Configurator, chars: &mut Vec<char>)
    ensures
        final(chars)@ == old(chars)@ + class_part(config, CharClass::Special),
{
    if config.allow_special {
        let mut i: usize = 0;
        while i < SPECIAL_CHARS.len()
            invariant
                i <= SPECIAL_CHARS@.len(),
                chars@ == old(chars)@ + SPECIAL_CHARS@.take(i as int),
            decreases SPECIAL_CHARS@.len() - i,
        {
            chars.push(SPECIAL_CHARS[i]);
            i += 1;
        }
        assert(SPECIAL_CHARS@.take(i as int) == SPECIAL_CHARS@);
    }
}

/// Appends the letters `A` to `Z` to `chars` if `config` allows uppercase.
pub fn mixin_uppercase_letters(config: &Configurator, chars: &mut Vec<char>)
    ensures
        final(chars)@ == old(chars)@ + class_part(config, CharClass::Upper),
{
    if config.allow_upper {
        push_run(chars, 'A' as u8, 26);
    }
}

/// Appends the letters `a` to `z` to `chars` if `config` allows lowercase.
pub fn mixin_lowercase_letters(config: &Configurator, chars: &mut Vec<char>)
    ensures
        final(chars)@ == old(chars)@ + class_part(config, CharClass::Lower),
{
    if config.allow_lower {
        push_run(chars, 'a' as u8, 26);
    }
}

/// Appends the digits `0` to `9` to `chars` if `config` allows digits.
pub fn mixin_numbers(config: &Configurator, chars: &mut Vec<char>)
    ensures
        final(chars)@ == old(chars)@ + class_part(config, CharClass::Digit),
{
    if config.allow_digits {
        push_run(chars, '0' as u8, 10);
    }
}

impl Alphabet {
    /// Whether there is a character to draw.
    pub open spec fn wf(&self) -> bool {
        self.chars@.len() > 0
    }

    /// The alphabet of `config`, with a generator seeded from the operating
    /// system's entropy.
    pub fn new(config: &Configurator) -> (alphabet: Alphabet)
        requires
            config.allows_any(),
        ensures
            alphabet.chars@ == alphabet_of(config),
            alphabet.wf(),
    {
        Alphabet::with_seed(config, generate_seed())
    }

    /// The alphabet of `config`, with a generator made from `seed`.
    pub fn with_seed(config: &Configurator, seed: [u8; 32]) -> (alphabet: Alphabet)
        requires
            config.allows_any(),
        ensures
            alphabet.chars@ == alphabet_of(config),
            alphabet.wf(),
    {
        let mut chars: Vec<char> = Vec::with_capacity(ESTIMATED_ALPHABET_CAPACITY);

        mixin_special_chars(config, &mut chars);
        mixin_uppercase_letters(config, &mut chars);
        mixin_lowercase_letters(config, &mut chars);
        mixin_numbers(config, &mut chars);

        proof {
            lemma_alphabet_size(config);
        }
        Alphabet { chars, rng: rng_from_seed(seed) }
    }

    /// Draws one character of the alphabet.
    pub fn get_char(&mut self) -> (c: char)
        requires
            old(self).wf(),
        ensures
            final(self).chars@ == old(self).chars@,
            final(self).wf(),
            old(self).chars@.contains(c),
    {
        let index = sample_between(&mut self.rng, 0, self.chars.len());
        self.chars[index]
    }
}

/// The alphabet is not empty where a class is allowed, never holds more than
/// [`ESTIMATED_ALPHABET_CAPACITY`] characters, and holds that many where every
/// class is allowed.
pub proof fn lemma_alphabet_size(config: &Configurator)
    ensures
        config.allows_any() ==> alphabet_of(config).len() > 0,
        alphabet_of(config).len() <= ESTIMATED_ALPHABET_CAPACITY,
        config.allow_special && config.allow_upper && config.allow_lower && config.allow_digits
            ==> alphabet_of(config).len() == ESTIMATED_ALPHABET_CAPACITY,
{
}

/// The alphabet holds exactly the characters of the allowed classes.
pub proof fn lemma_alphabet_members(config: &Configurator, c: char)
    ensures
        alphabet_of(config).contains(c) <==> exists|class: CharClass|
            config.allows(class) && class.has(c),
{
    let special = class_part(config, CharClass::Special);
    let upper = class_part(config, CharClass::Upper);
    let lower = class_part(config, CharClass::Lower);
    let digit = class_part(config, CharClass::Digit);
    let all = alphabet_of(config);
    if all.contains(c) {
        let i = choose|i: int| 0 <= i < all.len() && all[i] == c;
        if i < special.len() {
            assert(special[i] == c);
            assert(CharClass::Special.has(c));
        } else if i < special.len() + upper.len() {
            assert(upper[i - special.len()] == c);
            assert(CharClass::Upper.has(c));
        } else if i < special.len() + upper.len() + lower.len() {
            assert(lower[i - special.len() - upper.len()] == c);
            assert(CharClass::Lower.has(c));
        } else {
            assert(digit[i - special.len() - upper.len() - lower.len()] == c);
            assert(CharClass::Digit.has(c));
        }
    }
    if exists|class: CharClass| config.allows(class) && class.has(c) {
        let class = choose|class: CharClass| config.allows(class) && class.has(c);
        let part = class_part(config, class);
        let j = choose|j: int| 0 <= j < part.len() && part[j] == c;
        match class {
            CharClass::Special => {
                assert(all[j] == c);
            },
            CharClass::Upper => {
                assert(all[special.len() + j] == c);
            },
            CharClass::Lower => {
                assert(all[special.len() + upper.len() + j] == c);
            },
            CharClass::Digit => {
                assert(all[special.len() + upper.len() + lower.len() + j] == c);
            },
        }
    }
}

} // verus!
