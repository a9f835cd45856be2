use vstd::prelude::*;
use crate::classes::CharClass;

verus! {

/// What the caller asks of a password: its length and, for each character
/// class, whether characters of that class may appear.
///
/// An allowed class is also a required one: an accepted password holds at
/// least one character of every allowed class and none of any other.
#[derive(Clone, Copy, Debug)]
pub struct Configurator {
    /// Number of characters of the password.
    pub length: usize,
    /// Whether special characters are allowed.
    pub allow_special: bool,
    /// Whether uppercase letters are allowed.
    pub allow_upper: bool,
    /// Whether lowercase letters are allowed.
    pub allow_lower: bool,
    /// Whether digits are allowed.
    pub allow_digits: bool,
}

impl Configurator {
    /// Whether the configuration allows `class`.
    pub open spec fn allows(&self, class: CharClass) -> bool {
        match class {
            CharClass::Special => self.allow_special,
            CharClass::Upper => self.allow_upper,
            CharClass::Lower => self.allow_lower,
            CharClass::Digit => self.allow_digits,
        }
    }

    /// Whether at least one class is allowed.
    pub open spec fn allows_any(&self) -> bool {
        self.allow_special || self.allow_upper || self.allow_lower || self.allow_digits
    }

    /// Computes [`Configurator::allows`].
    pub fn is_allowed(&self, class: CharClass) -> (b: bool)
        ensures
            b == self.allows(class),
    {
        match class {
            CharClass::Special => self.allow_special,
            CharClass::Upper => self.allow_upper,
            CharClass::Lower => self.allow_lower,
            CharClass::Digit => self.allow_digits,
        }
    }

    /// Computes [`Configurator::allows_any`].
    pub fn has_allowed_class(&self) -> (b: bool)
        ensures
            b == self.allows_any(),
    {
        self.allow_special || self.allow_upper || self.allow_lower || self.allow_digits
    }
}

} // verus!
