use rand::distributions::Uniform;
use rand::rngs::StdRng;
use rand::{Rng, SeedableRng};
use randompass::alphabet::{
    mixin_lowercase_letters, mixin_numbers, mixin_special_chars, mixin_uppercase_letters, Alphabet,
};
use randompass::classes::CharClass;
use randompass::config::Configurator;
use randompass::constants;
use randompass::error::ValidateError;
use randompass::password::Password;

const CLASSES: [CharClass; 4] = [
    CharClass::Special,
    CharClass::Upper,
    CharClass::Lower,
    CharClass::Digit,
];

fn config(length: usize, special: bool, upper: bool, lower: bool, digits: bool) -> Configurator {
    Configurator {
        length,
        allow_special: special,
        allow_upper: upper,
        allow_lower: lower,
        allow_digits: digits,
    }
}

fn every_config(length: usize) -> Vec<Configurator> {
    let mut all = Vec::new();
    for bits in 1..16u8 {
        all.push(config(
            length,
            bits & 1 != 0,
            bits & 2 != 0,
            bits & 4 != 0,
            bits & 8 != 0,
        ));
    }
    all
}

fn allowed(config: &Configurator, class: CharClass) -> bool {
    match class {
        CharClass::Special => config.allow_special,
        CharClass::Upper => config.allow_upper,
        CharClass::Lower => config.allow_lower,
        CharClass::Digit => config.allow_digits,
    }
}

fn in_class(class: CharClass, c: char) -> bool {
    match class {
        CharClass::Special => "!#$%&*][(){}+-".contains(c),
        CharClass::Upper => c.is_ascii_uppercase(),
        CharClass::Lower => c.is_ascii_lowercase(),
        CharClass::Digit => c.is_ascii_digit(),
    }
}

#[test]
fn generate_returns_password_or_sentinel_for_every_class_choice() {
    for config in every_config(12) {
        let pass = Password::generate(&config, Alphabet::new(&config));
        assert!(pass.is_empty() || pass.chars().count() == 12);
        assert!(!pass.is_empty(), "twelve characters leave room for four classes");
    }
}

#[test]
fn generated_password_has_requested_length() {
    for length in [1usize, 2, 7, 16, 64, 255] {
        let config = config(length, false, false, true, false);
        let pass = Password::generate(&config, Alphabet::new(&config));
        assert_eq!(pass.chars().count(), length);
    }
}

#[test]
fn generated_password_holds_every_allowed_class() {
    for config in every_config(10) {
        let pass = Password::generate(&config, Alphabet::new(&config));
        for class in CLASSES {
            if allowed(&config, class) {
                assert!(pass.chars().any(|c| in_class(class, c)));
            }
        }
    }
}

#[test]
fn generated_password_holds_no_forbidden_class() {
    for config in every_config(10) {
        let pass = Password::generate(&config, Alphabet::new(&config));
        for class in CLASSES {
            if !allowed(&config, class) {
                assert!(!pass.chars().any(|c| in_class(class, c)));
            }
        }
    }
}

#[test]
fn generated_password_passes_validation() {
    for config in every_config(8) {
        let pass = Password::generate(&config, Alphabet::new(&config));
        assert_eq!(Password::validate(&config, &pass), Ok(()));
    }
}

#[test]
fn validate_uppercase_follows_the_flag() {
    let enabled = config(3, true, true, true, true);
    let disabled = config(3, true, false, true, true);
    assert_eq!(Password::validate_uppercase(&enabled, "ABC"), Ok(()));
    assert_eq!(
        Password::validate_uppercase(&enabled, "abc"),
        Err(ValidateError::MissingUpperCase)
    );
    assert_eq!(
        Password::validate_uppercase(&disabled, "ABC"),
        Err(ValidateError::NoUpperCase)
    );
    assert_eq!(Password::validate_uppercase(&disabled, "abc"), Ok(()));
}

#[test]
fn validate_class_requires_one_member_not_all() {
    assert_eq!(Password::validate_class(CharClass::Digit, true, "abc1def"), Ok(()));
    assert_eq!(Password::validate_class(CharClass::Upper, true, "abcdefZ"), Ok(()));
    assert_eq!(
        Password::validate_class(CharClass::Upper, false, "abcdefZ"),
        Err(ValidateError::NoUpperCase)
    );
    assert_eq!(
        Password::validate_class(CharClass::Special, false, "abc-"),
        Err(ValidateError::NoSpecialChars)
    );
}

#[test]
fn every_error_variant_is_reported() {
    let all = config(4, true, true, true, true);
    let none = config(4, false, false, false, false);
    assert_eq!(Password::validate_length(""), Err(ValidateError::InvalidLength));
    assert_eq!(Password::validate_length("a"), Ok(()));
    assert_eq!(
        Password::validate_special_chars(&all, "aA1"),
        Err(ValidateError::MissingSpecialChars)
    );
    assert_eq!(
        Password::validate_uppercase(&all, "a1!"),
        Err(ValidateError::MissingUpperCase)
    );
    assert_eq!(
        Password::validate_lowercase(&all, "A1!"),
        Err(ValidateError::MissingLowerCase)
    );
    assert_eq!(
        Password::validate_numbers(&all, "aA!"),
        Err(ValidateError::MissingNumbers)
    );
    assert_eq!(
        Password::validate_special_chars(&none, "a{"),
        Err(ValidateError::NoSpecialChars)
    );
    assert_eq!(
        Password::validate_uppercase(&none, "aQ"),
        Err(ValidateError::NoUpperCase)
    );
    assert_eq!(
        Password::validate_lowercase(&none, "Qa"),
        Err(ValidateError::NoLowerCase)
    );
    assert_eq!(
        Password::validate_numbers(&none, "a7"),
        Err(ValidateError::NoNumbers)
    );
}

#[test]
fn validate_reports_the_first_failing_check() {
    let all = config(4, true, true, true, true);
    let none = config(4, false, false, false, false);
    assert_eq!(Password::validate(&all, ""), Err(ValidateError::InvalidLength));
    assert_eq!(Password::validate(&none, ""), Err(ValidateError::InvalidLength));
    assert_eq!(
        Password::validate(&all, "x"),
        Err(ValidateError::MissingSpecialChars)
    );
    assert_eq!(
        Password::validate(&all, "x#"),
        Err(ValidateError::MissingUpperCase)
    );
    assert_eq!(
        Password::validate(&all, "#X4"),
        Err(ValidateError::MissingLowerCase)
    );
    assert_eq!(
        Password::validate(&all, "x#X"),
        Err(ValidateError::MissingNumbers)
    );
    assert_eq!(Password::validate(&all, "x#X4"), Ok(()));
    assert_eq!(
        Password::validate(&none, "4xX#"),
        Err(ValidateError::NoSpecialChars)
    );
    assert_eq!(Password::validate(&none, "4xX"), Err(ValidateError::NoUpperCase));
    assert_eq!(Password::validate(&none, "4x"), Err(ValidateError::NoLowerCase));
    assert_eq!(Password::validate(&none, "4"), Err(ValidateError::NoNumbers));
    assert_eq!(Password::validate(&none, "é "), Ok(()));
}

#[test]
fn impossible_constraints_reject_every_candidate() {
    let none = config(16, false, false, false, false);
    let mut alphabet = Alphabet {
        chars: vec!['a'],
        rng: StdRng::from_seed([0u8; 32]),
    };
    for _ in 0..100 {
        let candidate = Password::candidate(none.length, &mut alphabet);
        assert_eq!(candidate, "aaaaaaaaaaaaaaaa");
        assert_eq!(
            Password::validate(&none, &candidate),
            Err(ValidateError::NoLowerCase)
        );
        assert_eq!(
            Password::validate_lowercase(&none, &candidate),
            Err(ValidateError::NoLowerCase)
        );
    }
    assert_eq!(Password::generate(&none, alphabet), "");
}

#[test]
fn missing_class_in_alphabet_gives_sentinel() {
    let digits_wanted = config(4, false, false, true, true);
    let alphabet = Alphabet {
        chars: vec!['a', 'b'],
        rng: StdRng::from_seed([3u8; 32]),
    };
    assert_eq!(Password::generate(&digits_wanted, alphabet), "");
}

#[test]
fn length_below_number_of_classes_gives_sentinel() {
    let two_classes = config(1, false, true, true, false);
    assert_eq!(
        Password::generate(&two_classes, Alphabet::new(&two_classes)),
        ""
    );
    let four_classes = config(3, true, true, true, true);
    assert_eq!(
        Password::generate(&four_classes, Alphabet::new(&four_classes)),
        ""
    );
}

#[test]
fn length_zero_gives_sentinel() {
    let config = config(0, true, true, true, true);
    assert_eq!(Password::generate(&config, Alphabet::new(&config)), "");
}

#[test]
fn validator_ignores_generator_state() {
    let config = config(3, false, true, true, true);
    let mut alphabet = Alphabet::new(&config);
    for _ in 0..50 {
        assert_eq!(
            Password::validate_special_chars(&config, "#$!"),
            Err(ValidateError::NoSpecialChars)
        );
        alphabet.get_char();
    }
}

#[test]
fn alphabet_is_not_empty_with_one_class_allowed() {
    for config in every_config(16) {
        assert!(!Alphabet::new(&config).chars.is_empty());
    }
}

#[test]
fn alphabet_lists_classes_in_canonical_order() {
    let all = config(16, true, true, true, true);
    let chars: String = Alphabet::new(&all).chars.iter().collect();
    assert_eq!(
        chars,
        "!#$%&*][(){}+-ABCDEFGHIJKLMNOPQRSTUVWXYZabcdefghijklmnopqrstuvwxyz0123456789"
    );
    assert_eq!(chars.len(), constants::ESTIMATED_ALPHABET_CAPACITY);

    let some = config(16, false, true, false, true);
    let chars: String = Alphabet::new(&some).chars.iter().collect();
    assert_eq!(chars, "ABCDEFGHIJKLMNOPQRSTUVWXYZ0123456789");
}

#[test]
fn mixins_append_only_allowed_classes() {
    let all = config(16, true, true, true, true);
    let none = config(16, false, false, false, false);

    let mut chars = vec!['?'];
    mixin_special_chars(&none, &mut chars);
    mixin_uppercase_letters(&none, &mut chars);
    mixin_lowercase_letters(&none, &mut chars);
    mixin_numbers(&none, &mut chars);
    assert_eq!(chars, vec!['?']);

    mixin_numbers(&all, &mut chars);
    assert_eq!(chars.iter().collect::<String>(), "?0123456789");
    mixin_special_chars(&all, &mut chars);
    assert_eq!(chars.iter().collect::<String>(), "?0123456789!#$%&*][(){}+-");

    let mut upper = Vec::new();
    mixin_uppercase_letters(&all, &mut upper);
    assert_eq!(upper.iter().collect::<String>(), "ABCDEFGHIJKLMNOPQRSTUVWXYZ");

    let mut lower = Vec::new();
    mixin_lowercase_letters(&all, &mut lower);
    assert_eq!(lower.iter().collect::<String>(), "abcdefghijklmnopqrstuvwxyz");
}

#[test]
fn draws_stay_within_allowed_classes() {
    for config in every_config(16) {
        let mut alphabet = Alphabet::new(&config);
        for _ in 0..10_000 {
            let c = alphabet.get_char();
            assert!(CLASSES.iter().any(|&class| allowed(&config, class) && in_class(class, c)));
            assert!(alphabet.chars.contains(&c));
        }
    }
}

#[test]
fn draws_reach_every_character() {
    let all = config(16, true, true, true, true);
    let mut alphabet = Alphabet::with_seed(&all, [9u8; 32]);
    let mut seen = std::collections::BTreeSet::new();
    for _ in 0..10_000 {
        seen.insert(alphabet.get_char());
    }
    assert_eq!(seen.len(), 76);
}

#[test]
fn same_seed_gives_same_password() {
    let config = config(24, true, true, true, true);
    let first = Password::generate(&config, Alphabet::with_seed(&config, [42u8; 32]));
    let second = Password::generate(&config, Alphabet::with_seed(&config, [42u8; 32]));
    let other = Password::generate(&config, Alphabet::with_seed(&config, [43u8; 32]));
    assert_eq!(first.len(), 24);
    assert_eq!(first, second);
    assert_ne!(first, other);
}

#[test]
fn candidate_has_requested_length_from_alphabet() {
    let config = config(16, false, false, true, true);
    let mut alphabet = Alphabet::with_seed(&config, [1u8; 32]);
    for length in [0usize, 1, 5, 100] {
        let candidate = Password::candidate(length, &mut alphabet);
        assert_eq!(candidate.chars().count(), length);
        assert!(candidate.chars().all(|c| alphabet.chars.contains(&c)));
    }
}

#[test]
fn class_membership_matches_ranges() {
    for code in 0u32..0x300 {
        let c = char::from_u32(code).unwrap();
        for class in CLASSES {
            assert_eq!(class.contains(c), in_class(class, c));
        }
    }
    assert!(!CharClass::Upper.contains('@'));
    assert!(!CharClass::Upper.contains('['));
    assert!(!CharClass::Lower.contains('`'));
    assert!(!CharClass::Lower.contains('{'));
    assert!(!CharClass::Digit.contains('/'));
    assert!(!CharClass::Digit.contains(':'));
}

#[test]
fn configurator_reports_allowed_classes() {
    let some = config(16, false, true, false, false);
    assert!(some.has_allowed_class());
    assert!(some.is_allowed(CharClass::Upper));
    assert!(!some.is_allowed(CharClass::Special));
    assert!(!some.is_allowed(CharClass::Lower));
    assert!(!some.is_allowed(CharClass::Digit));
    assert!(!config(16, false, false, false, false).has_allowed_class());
}

#[test]
fn single_class_succeeds_with_shortest_length() {
    for (special, upper, lower, digits) in [
        (true, false, false, false),
        (false, true, false, false),
        (false, false, true, false),
        (false, false, false, true),
    ] {
        let config = config(1, special, upper, lower, digits);
        let pass = Password::generate(&config, Alphabet::new(&config));
        assert_eq!(pass.chars().count(), 1);
    }
}

#[test]
fn draws_follow_the_seeded_generator() {
    let all = config(16, true, true, true, true);
    let mut alphabet = Alphabet::with_seed(&all, [5u8; 32]);
    let mut rng = StdRng::from_seed([5u8; 32]);
    let range = Uniform::new(0, alphabet.chars.len());
    for _ in 0..1_000 {
        let expected = alphabet.chars[rng.sample(range)];
        assert_eq!(alphabet.get_char(), expected);
    }
}

#[test]
fn fresh_alphabets_draw_differently() {
    let all = config(64, true, true, true, true);
    let first = Password::candidate(64, &mut Alphabet::new(&all));
    let second = Password::candidate(64, &mut Alphabet::new(&all));
    assert_ne!(first, second);
}
