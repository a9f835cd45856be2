//! Random passwords under character-class constraints.
//!
//! A [`config::Configurator`] names the wanted length and, for each of the four
//! character classes, whether it may appear. An [`alphabet::Alphabet`] holds the
//! characters of the allowed classes together with a seeded random generator.
//! [`password::Password::generate`] draws candidates from the alphabet until one
//! satisfies every constraint, or gives up after a fixed number of attempts.

pub mod alphabet;
pub mod classes;
pub mod config;
pub mod constants;
pub mod error;
pub mod laws;
pub mod password;
pub mod random;
