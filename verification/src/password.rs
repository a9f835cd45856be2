use vstd::prelude::*;
use crate::alphabet::Alphabet;
use crate::classes::CharClass;
use crate::config::Configurator;
use crate::constants::MAX_CONVERGENCE_ITERATIONS;
use crate::error::ValidateError;

verus! {

/// `String::push` of the standard library: the string afterwards is the string
/// before with `ch` appended.
pub assume_specification[ String::push ](s: &mut String, ch: char)
    ensures
        final(s)@ == old(s)@.push(ch),
;

/// Whether `s` holds a character of `class`.
pub open spec fn has_any(class: CharClass, s: Seq<char>) -> bool {
    exists|i: int| 0 <= i < s.len() && class.has(s[i])
}

/// Whether `s` holds at least one character of every class that `config`
/// allows.
pub open spec fn required_present(config: &Configurator, s: Seq<char>) -> bool {
    forall|class: CharClass| config.allows(class) ==> has_any(class, s)
}

/// Whether `s` holds no character of any class that `config` forbids.
pub open spec fn forbidden_absent(config: &Configurator, s: Seq<char>) -> bool {
    forall|class: CharClass| !config.allows(class) ==> !has_any(class, s)
}

/// Whether `s` is a password that `config` accepts.
pub open spec fn acceptable(config: &Configurator, s: Seq<char>) -> bool {
    &&& s.len() > 0
    &&& required_present(config, s)
    &&& forbidden_absent(config, s)
}

/// Whether every character of `s` occurs in `chars`.
pub open spec fn drawn_from(s: Seq<char>, chars: Seq<char>) -> bool {
    forall|i: int| 0 <= i < s.len() ==> chars.contains(#[trigger] s[i])
}

/// Whether `s` is a string that [`Password::generate`] may draw from `chars`
/// under `config`: it has the length asked for and holds characters of `chars`
/// only.
pub open spec fn is_candidate(config: &Configurator, chars: Seq<char>, s: Seq<char>) -> bool {
    s.len() == config.length && drawn_from(s, chars)
}

/// Whether `config` accepts every string that may be drawn from `chars`.
pub open spec fn every_candidate_acceptable(config: &Configurator, chars: Seq<char>) -> bool {
    forall|s: Seq<char>| #[trigger] is_candidate(config, chars, s) ==> acceptable(config, s)
}

/// Whether `config` accepts no string that may be drawn from `chars`.
pub open spec fn no_candidate_acceptable(config: &Configurator, chars: Seq<char>) -> bool {
    forall|s: Seq<char>| #[trigger] is_candidate(config, chars, s) ==> !acceptable(config, s)
}

/// The outcome of the length check: an empty candidate is turned down.
pub open spec fn length_verdict(s: Seq<char>) -> Result<(), ValidateError> {
    if s.len() == 0 {
        Err(ValidateError::InvalidLength)
    } else {
        Ok(())
    }
}

/// The outcome of the check of one class. An allowed class must occur in `s`,
/// a forbidden one must not.
pub open spec fn class_verdict(class: CharClass, allowed: bool, s: Seq<char>) -> Result<
    (),
    ValidateError,
> {
    if allowed && !has_any(class, s) {
        Err(ValidateError::missing(class))
    } else if !allowed && has_any(class, s) {
        Err(ValidateError::forbidden(class))
    } else {
        Ok(())
    }
}

/// The outcome of the check of `class` under `config`.
pub open spec fn config_verdict(config: &Configurator, class: CharClass, s: Seq<char>) -> Result<
    (),
    ValidateError,
> {
    class_verdict(class, config.allows(class), s)
}

/// The outcome of all checks: the error of the first check that fails, in the
/// order length, special, uppercase, lowercase, digits.
pub open spec fn verdict(config: &Configurator, s: Seq<char>) -> Result<(), ValidateError> {
    if length_verdict(s) is Err {
        length_verdict(s)
    } else if config_verdict(config, CharClass::Special, s) is Err {
        config_verdict(config, CharClass::Special, s)
    } else if config_verdict(config, CharClass::Upper, s) is Err {
        config_verdict(config, CharClass::Upper, s)
    } else if config_verdict(config, CharClass::Lower, s) is Err {
        config_verdict(config, CharClass::Lower, s)
    } else {
        config_verdict(config, CharClass::Digit, s)
    }
}

/// All checks pass exactly on the passwords that the configuration accepts.
pub proof fn lemma_verdict_ok_iff_acceptable(config: &Configurator, s: Seq<char>)
    ensures
        verdict(config, s) is Ok <==> acceptable(config, s),
{
    if verdict(config, s) is Ok {
        assert forall|class: CharClass| config.allows(class) == has_any(class, s) by {
            match class {
                CharClass::Special => {},
                CharClass::Upper => {},
                CharClass::Lower => {},
                CharClass::Digit => {},
            }
        }
    }
    if acceptable(config, s) {
        assert(config.allows(CharClass::Special) == has_any(CharClass::Special, s));
        assert(config.allows(CharClass::Upper) == has_any(CharClass::Upper, s));
        assert(config.allows(CharClass::Lower) == has_any(CharClass::Lower, s));
        assert(config.allows(CharClass::Digit) == has_any(CharClass::Digit, s));
    }
}

/// The namespace of password generation and validation.
pub struct Password {}

impl Password {
    /// Draws candidates of `config.length` characters from `alphabet` and
    /// returns the first that passes [`Password::validate`]. After
    /// [`MAX_CONVERGENCE_ITERATIONS`] candidates without success, or at once
    /// when the length asked for is zero, it returns the empty string.
    ///
    /// Which candidates come up is a matter of chance, so in general either
    /// outcome is possible. The result is never anything but the empty string
    /// or an accepted candidate; where every candidate is acceptable the first
    /// one is returned, and where none is the result is empty.
    pub fn generate(config: &Configurator, alphabet: Alphabet) -> (pass: String)
        requires
            alphabet.wf(),
        ensures
            pass@.len() == 0 || (is_candidate(config, alphabet.chars@, pass@) && acceptable(
                config,
                pass@,
            )),
            config.length > 0 && every_candidate_acceptable(config, alphabet.chars@) ==> pass@.len()
                > 0,
            config.length == 0 || no_candidate_acceptable(config, alphabet.chars@) ==> pass@.len()
                == 0,
    {
        let mut source = alphabet;
        let mut watchdog: usize = if config.length == 0 {
            0
        } else {
            MAX_CONVERGENCE_ITERATIONS
        };
        while watchdog > 0
            invariant
                source.wf(),
                source.chars@ == alphabet.chars@,
                config.length > 0 && every_candidate_acceptable(config, alphabet.chars@)
                    ==> watchdog == MAX_CONVERGENCE_ITERATIONS,
            decreases watchdog,
        {
            let pass = Password::candidate(config.length, &mut source);
            assert(is_candidate(config, alphabet.chars@, pass@));
            if Password::validate(config, pass.as_str()).is_ok() {
                return pass;
            }
            watchdog = watchdog - 1;
        }
        String::new()
    }

    /// Draws `length` characters from `alphabet`, one after the other.
    pub fn candidate(length: usize, alphabet: &mut Alphabet) -> (pass: String)
        requires
            old(alphabet).wf(),
        ensures
            pass@.len() == length,
            drawn_from(pass@, old(alphabet).chars@),
            final(alphabet).chars@ == old(alphabet).chars@,
    {
        let mut pass = String::new();
        let mut drawn: usize = 0;
        while drawn < length
            invariant
                drawn <= length,
                pass@.len() == drawn,
                drawn_from(pass@, old(alphabet).chars@),
                alphabet.chars@ == old(alphabet).chars@,
                alphabet.wf(),
            decreases length - drawn,
        {
            pass.push(alphabet.get_char());
            drawn += 1;
        }
        pass
    }

    /// Runs every check on `pass` and reports the first that fails.
    pub fn validate(config: &Configurator, pass: &str) -> (outcome: Result<(), ValidateError>)
        ensures
            outcome == verdict(config, pass@),
            outcome is Ok <==> acceptable(config, pass@),
    {
        proof {
            lemma_verdict_ok_iff_acceptable(config, pass@);
        }
        Password::validate_length(pass)?;
        Password::validate_special_chars(config, pass)?;
        Password::validate_uppercase(config, pass)?;
        Password::validate_lowercase(config, pass)?;
        Password::validate_numbers(config, pass)?;
        Ok(())
    }

    /// Turns down the empty candidate.
    pub fn validate_length(pass: &str) -> (outcome: Result<(), ValidateError>)
        ensures
            outcome == length_verdict(pass@),
    {
        if pass.is_empty() {
            Err(ValidateError::InvalidLength)
        } else {
            Ok(())
        }
    }

    /// Checks `pass` against one class: if the class is allowed, `pass` must
    /// hold one of its characters; if not, `pass` must hold none.
    pub fn validate_class(class: CharClass, allowed: bool, pass: &str) -> (outcome: Result<
        (),
        ValidateError,
    >)
        ensures
            outcome == class_verdict(class, allowed, pass@),
    {
        let mut found = false;
        for c in it: pass.chars()
            invariant
                it.seq() == pass@,
                found == (exists|i: int| 0 <= i < it.index() && class.has(pass@[i])),
        {
            if class.contains(c) {
                found = true;
            }
        }
        if allowed && !found {
            Err(ValidateError::for_missing(class))
        } else if !allowed && found {
            Err(ValidateError::for_forbidden(class))
        } else {
            Ok(())
        }
    }

    /// Checks `pass` against the special characters.
    pub fn validate_special_chars(config: &Configurator, pass: &str) -> (outcome: Result<
        (),
        ValidateError,
    >)
        ensures
            outcome == config_verdict(config, CharClass::Special, pass@),
    {
        Password::validate_class(CharClass::Special, config.is_allowed(CharClass::Special), pass)
    }

    /// Checks `pass` against the uppercase letters.
    pub fn validate_uppercase(config: &Configurator, pass: &str) -> (outcome: Result<
        (),
        ValidateError,
    >)
        ensures
            outcome == config_verdict(config, CharClass::Upper, pass@),
    {
        Password::validate_class(CharClass::Upper, config.is_allowed(CharClass::Upper), pass)
    }

    /// Checks `pass` against the lowercase letters.
    pub fn validate_lowercase(config: &Configurator, pass: &str) -> (outcome: Result<
        (),
        ValidateError,
    >)
        ensures
            outcome == config_verdict(config, CharClass::Lower, pass@),
    {
        Password::validate_class(CharClass::Lower, config.is_allowed(CharClass::Lower), pass)
    }

    /// Checks `pass` against the digits.
    pub fn validate_numbers(config: &Configurator, pass: &str) -> (outcome: Result<
        (),
        ValidateError,
    >)
        ensures
            outcome == config_verdict(config, CharClass::Digit, pass@),
    {
        Password::validate_class(CharClass::Digit, config.is_allowed(CharClass::Digit), pass)
    }
}

} // verus!
