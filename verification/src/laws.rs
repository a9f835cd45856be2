//! What holds of generation as a whole: when a password is certain to come
//! out, and when none can.

use vstd::prelude::*;
use crate::alphabet::{alphabet_of, lemma_alphabet_members};
use crate::classes::{lemma_classes_disjoint, CharClass};
use crate::config::Configurator;
use crate::password::{
    acceptable, every_candidate_acceptable, has_any, is_candidate, no_candidate_acceptable,
};

verus! {

/// The number of classes that `config` allows.
pub open spec fn allowed_count(config: &Configurator) -> nat {
    let special: nat = if config.allow_special { 1 } else { 0 };
    let upper: nat = if config.allow_upper { 1 } else { 0 };
    let lower: nat = if config.allow_lower { 1 } else { 0 };
    let digits: nat = if config.allow_digits { 1 } else { 0 };
    special + upper + lower + digits
}

/// With exactly one class allowed, every string of positive length drawn from
/// the configuration's own alphabet is accepted, so generation succeeds at the
/// first attempt.
pub proof fn lemma_single_class_always_accepted(config: &Configurator)
    requires
        allowed_count(config) == 1,
        config.length > 0,
    ensures
        every_candidate_acceptable(config, alphabet_of(config)),
{
    let chars = alphabet_of(config);
    let only = if config.allow_special {
        CharClass::Special
    } else if config.allow_upper {
        CharClass::Upper
    } else if config.allow_lower {
        CharClass::Lower
    } else {
        CharClass::Digit
    };
    assert forall|s: Seq<char>| #[trigger] is_candidate(config, chars, s) implies acceptable(
        config,
        s,
    ) by {
        assert forall|i: int| 0 <= i < s.len() implies only.has(#[trigger] s[i]) by {
            assert(chars.contains(s[i]));
            lemma_alphabet_members(config, s[i]);
            let class = choose|class: CharClass| config.allows(class) && class.has(s[i]);
            assert(class == only);
        }
        assert(only.has(s[0]));
        assert forall|class: CharClass| config.allows(class) == has_any(class, s) by {
            if has_any(class, s) {
                let i = choose|i: int| 0 <= i < s.len() && class.has(s[i]);
                assert(only.has(s[i]));
                lemma_classes_disjoint(class, only, s[i]);
            }
        }
    }
}

/// Where every character on offer belongs to a class that the configuration
/// forbids, no string drawn from them is accepted, so generation gives up.
pub proof fn lemma_forbidden_chars_never_accepted(config: &Configurator, chars: Seq<char>)
    requires
        forall|c: char| #[trigger]
            chars.contains(c) ==> exists|class: CharClass| !config.allows(class) && class.has(c),
    ensures
        no_candidate_acceptable(config, chars),
{
    assert forall|s: Seq<char>| #[trigger] is_candidate(config, chars, s) implies !acceptable(
        config,
        s,
    ) by {
        if s.len() > 0 {
            assert(chars.contains(s[0]));
            let class = choose|class: CharClass| !config.allows(class) && class.has(s[0]);
            assert(has_any(class, s));
        }
    }
}

/// Where the characters on offer hold none of some allowed class, no string
/// drawn from them is accepted, so generation gives up.
pub proof fn lemma_missing_class_never_accepted(
    config: &Configurator,
    chars: Seq<char>,
    class: CharClass,
)
    requires
        config.allows(class),
        forall|c: char| #[trigger] chars.contains(c) ==> !class.has(c),
    ensures
        no_candidate_acceptable(config, chars),
{
    assert forall|s: Seq<char>| #[trigger] is_candidate(config, chars, s) implies !acceptable(
        config,
        s,
    ) by {
        if has_any(class, s) {
            let i = choose|i: int| 0 <= i < s.len() && class.has(s[i]);
            assert(chars.contains(s[i]));
        }
    }
}

/// A password holds a character of each allowed class, and no character
/// belongs to two classes: a length below the number of allowed classes admits
/// no password, whatever the characters on offer.
pub proof fn lemma_too_short_never_accepted(config: &Configurator, chars: Seq<char>)
    requires
        config.length < allowed_count(config),
    ensures
        no_candidate_acceptable(config, chars),
{
    assert forall|s: Seq<char>| #[trigger] is_candidate(config, chars, s) implies !acceptable(
        config,
        s,
    ) by {
        if acceptable(config, s) {
            lemma_witnesses_differ(config, CharClass::Special, CharClass::Upper, s);
            lemma_witnesses_differ(config, CharClass::Special, CharClass::Lower, s);
            lemma_witnesses_differ(config, CharClass::Special, CharClass::Digit, s);
            lemma_witnesses_differ(config, CharClass::Upper, CharClass::Lower, s);
            lemma_witnesses_differ(config, CharClass::Upper, CharClass::Digit, s);
            lemma_witnesses_differ(config, CharClass::Lower, CharClass::Digit, s);
        }
    }
}

/// A position of `s` that holds a character of `class`, if there is one.
spec fn witness(class: CharClass, s: Seq<char>) -> int {
    choose|i: int| 0 <= i < s.len() && class.has(s[i])
}

/// In an accepted password, two different allowed classes are found at
/// different positions.
proof fn lemma_witnesses_differ(config: &Configurator, a: CharClass, b: CharClass, s: Seq<char>)
    requires
        acceptable(config, s),
        a != b,
    ensures
        config.allows(a) ==> 0 <= witness(a, s) < s.len(),
        config.allows(b) ==> 0 <= witness(b, s) < s.len(),
        config.allows(a) && config.allows(b) ==> witness(a, s) != witness(b, s),
{
    if config.allows(a) && config.allows(b) {
        assert(has_any(a, s));
        assert(has_any(b, s));
        let i = witness(a, s);
        let j = witness(b, s);
        if i == j {
            lemma_classes_disjoint(a, b, s[i]);
        }
    } else if config.allows(a) {
        assert(has_any(a, s));
    } else if config.allows(b) {
        assert(has_any(b, s));
    }
}

} // verus!
