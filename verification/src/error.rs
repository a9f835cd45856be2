use vstd::prelude::*;
use crate::classes::CharClass;

verus! {

/// Why a candidate password was turned down.
///
/// The `No…` variants report a character of a class that the configuration
/// forbids; the `Missing…` variants report an allowed class of which the
/// candidate holds no character.
#[derive(Clone, Copy, Debug, PartialEq, Eq, Structural)]
pub enum ValidateError {
    /// The candidate is empty.
    InvalidLength,
    /// Special characters are forbidden, yet one is present.
    NoSpecialChars,
    /// Uppercase letters are forbidden, yet one is present.
    NoUpperCase,
    /// Lowercase letters are forbidden, yet one is present.
    NoLowerCase,
    /// Digits are forbidden, yet one is present.
    NoNumbers,
    /// Special characters are allowed, yet none is present.
    MissingSpecialChars,
    /// Uppercase letters are allowed, yet none is present.
    MissingUpperCase,
    /// Lowercase letters are allowed, yet none is present.
    MissingLowerCase,
    /// Digits are allowed, yet none is present.
    MissingNumbers,
}

impl ValidateError {
    /// The error for a character of a forbidden `class`.
    pub open spec fn forbidden(class: CharClass) -> ValidateError {
        match class {
            CharClass::Special => ValidateError::NoSpecialChars,
            CharClass::Upper => ValidateError::NoUpperCase,
            CharClass::Lower => ValidateError::NoLowerCase,
            CharClass::Digit => ValidateError::NoNumbers,
        }
    }

    /// The error for an allowed `class` that is absent.
    pub open spec fn missing(class: CharClass) -> ValidateError {
        match class {
            CharClass::Special => ValidateError::MissingSpecialChars,
            CharClass::Upper => ValidateError::MissingUpperCase,
            CharClass::Lower => ValidateError::MissingLowerCase,
            CharClass::Digit => ValidateError::MissingNumbers,
        }
    }

    /// Computes [`ValidateError::forbidden`].
    pub fn for_forbidden(class: CharClass) -> (e: ValidateError)
        ensures
            e == ValidateError::forbidden(class),
    {
        match class {
            CharClass::Special => ValidateError::NoSpecialChars,
            CharClass::Upper => ValidateError::NoUpperCase,
            CharClass::Lower => ValidateError::NoLowerCase,
            CharClass::Digit => ValidateError::NoNumbers,
        }
    }

    /// Computes [`ValidateError::missing`].
    pub fn for_missing(class: CharClass) -> (e: ValidateError)
        ensures
            e == ValidateError::missing(class),
    {
        match class {
            CharClass::Special => ValidateError::MissingSpecialChars,
            CharClass::Upper => ValidateError::MissingUpperCase,
            CharClass::Lower => ValidateError::MissingLowerCase,
            CharClass::Digit => ValidateError::MissingNumbers,
        }
    }
}

} // verus!
