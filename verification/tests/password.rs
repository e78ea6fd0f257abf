use passman::password::{
    generate_random_password, get_random_lowercase, get_random_number, get_random_symbol,
    get_random_uppercase, random_of, PASSWORD_LENGTH,
};
use passman::pools::{CharClass, CLASS_COUNT, DIGITS, LOWERCASE, SYMBOLS, UPPERCASE};

fn class_of(c: char) -> Option<CharClass> {
    if LOWERCASE.contains(c) {
        Some(CharClass::Lowercase)
    } else if UPPERCASE.contains(c) {
        Some(CharClass::Uppercase)
    } else if DIGITS.contains(c) {
        Some(CharClass::Digit)
    } else if SYMBOLS.contains(c) {
        Some(CharClass::Symbol)
    } else {
        None
    }
}

#[test]
fn pools_hold_the_documented_characters() {
    assert_eq!(LOWERCASE, "abcdefghijklmnopqrstuvwxyz");
    assert_eq!(UPPERCASE, "ABCDEFGHIJKLMNOPQRSTUVWXYZ");
    assert_eq!(DIGITS, "0123456789");
    assert_eq!(SYMBOLS, "!@#$%^&*()-_=+[]{};:,.<>?");
    assert_eq!(CLASS_COUNT, 4);
    assert_eq!(PASSWORD_LENGTH, 20);
}

#[test]
fn pool_sizes_are_exact() {
    assert_eq!(CharClass::Lowercase.size(), 26);
    assert_eq!(CharClass::Uppercase.size(), 26);
    assert_eq!(CharClass::Digit.size(), 10);
    assert_eq!(CharClass::Symbol.size(), 25);
    assert_eq!(CharClass::Symbol.pool_text(), SYMBOLS);
}

#[test]
fn pick_takes_the_character_at_the_draw() {
    assert_eq!(CharClass::Lowercase.pick(0), 'a');
    assert_eq!(CharClass::Lowercase.pick(25), 'z');
    assert_eq!(CharClass::Uppercase.pick(1), 'B');
    assert_eq!(CharClass::Digit.pick(9), '9');
    assert_eq!(CharClass::Symbol.pick(0), '!');
    assert_eq!(CharClass::Symbol.pick(24), '?');
}

#[test]
fn draws_select_the_classes_in_order() {
    assert_eq!(CharClass::of_draw(0), CharClass::Lowercase);
    assert_eq!(CharClass::of_draw(1), CharClass::Uppercase);
    assert_eq!(CharClass::of_draw(2), CharClass::Digit);
    assert_eq!(CharClass::of_draw(3), CharClass::Symbol);
    assert_eq!(CharClass::of_draw(17), CharClass::Symbol);
}

#[test]
fn random_characters_come_from_their_pool() {
    for _ in 0..200 {
        assert!(LOWERCASE.contains(get_random_lowercase()));
        assert!(UPPERCASE.contains(get_random_uppercase()));
        assert!(DIGITS.contains(get_random_number()));
        assert!(SYMBOLS.contains(get_random_symbol()));
        assert!(DIGITS.contains(random_of(CharClass::Digit)));
    }
}

#[test]
fn generated_password_has_twenty_characters() {
    for _ in 0..100 {
        let password = generate_random_password();
        assert_eq!(password.chars().count(), 20);
        assert_eq!(password.len(), 20);
    }
}

#[test]
fn generated_password_has_every_class() {
    for _ in 0..100 {
        let password = generate_random_password();
        for class in [
            CharClass::Lowercase,
            CharClass::Uppercase,
            CharClass::Digit,
            CharClass::Symbol,
        ] {
            assert!(password.chars().any(|c| class_of(c) == Some(class)));
        }
    }
}

#[test]
fn generated_password_stays_within_the_pools() {
    for _ in 0..100 {
        let password = generate_random_password();
        assert!(password.chars().all(|c| class_of(c).is_some()));
    }
}

#[test]
fn generated_passwords_are_shuffled() {
    // Unshuffled, every password would begin with a lowercase letter.
    let mut other_start = false;
    for _ in 0..200 {
        let password = generate_random_password();
        let first = password.chars().next().unwrap();
        if class_of(first) != Some(CharClass::Lowercase) {
            other_start = true;
        }
    }
    assert!(other_start);
}

#[test]
fn generated_passwords_differ() {
    let one = generate_random_password();
    let mut differs = false;
    for _ in 0..20 {
        if generate_random_password() != one {
            differs = true;
        }
    }
    assert!(differs);
}
