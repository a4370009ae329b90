use kdguard::errors::GeneratorError;
use kdguard::generator::Generator;

fn wordlist() -> Vec<String> {
    vec![
        "alpha".to_string(),
        "bravo".to_string(),
        "charlie".to_string(),
        "delta".to_string(),
        "echo".to_string(),
        "foxtrot".to_string(),
    ]
}

#[test]
fn generator_test_generate_random_password() {
    let password = Generator::generate_random_password(10).expect("Failed to generate password");
    assert_eq!(password.len(), 10);
    assert!(Generator::is_valid_password(&password));
}

#[test]
fn generator_test_generate_pattern_password() {
    let password = Generator::generate_pattern_password("UDDL").expect("Failed to generate password");
    assert_eq!(password.len(), 4)
}

#[test]
fn generator_test_is_valid_password() {
    assert!(Generator::is_valid_password("(123P@ssw0rd"));
    assert!(!Generator::is_valid_password("password"));
}

#[test]
fn test_is_valid_password() {
    assert!(Generator::is_valid_password("(123P@ssw0rd"));
    assert!(!Generator::is_valid_password("password"));
}

#[test]
fn generator_test_error_generate_random_password() {
    assert!(Generator::generate_random_password(7).is_err());
    assert!(Generator::generate_random_password(65).is_err());
    assert!(Generator::generate_random_password(8).is_ok());
    assert!(Generator::generate_random_password(64).is_ok());
}

#[test]
fn generator_test_generate_phrase_password() {
    let list = wordlist();
    let phrase = Generator::generate_phrase_password(5, &list).expect("Failed to generate phrase");
    let words: Vec<&str> = phrase.split('-').collect();
    assert_eq!(words.len(), 5);
    assert!(!phrase.is_empty());
    for word in words {
        assert!(list.iter().any(|w| w == word));
    }
}

#[test]
fn generator_test_error_generate_phrase_password() {
    let list = wordlist();
    assert!(Generator::generate_phrase_password(2, &list).is_err());
    assert!(Generator::generate_phrase_password(21, &list).is_err());
    assert!(Generator::generate_phrase_password(3, &list).is_ok());
    assert!(Generator::generate_phrase_password(20, &list).is_ok());
}

#[test]
fn generator_test_generate_deterministic_password() {
    let password1 = Generator::generate_deterministic_password("test-seed", None, None)
        .expect("Failed to generate deterministic password");
    let password2 = Generator::generate_deterministic_password("test-seed", None, None)
        .expect("Failed to generate deterministic password");

    assert_eq!(password1.len(), 20);
    assert_eq!(password1, password2);
    assert!(Generator::is_valid_password(&password1));
}

#[test]
fn generator_test_deterministic_password_different_seeds() {
    let password1 = Generator::generate_deterministic_password("seed1", None, None)
        .expect("Failed to generate deterministic password");
    let password2 = Generator::generate_deterministic_password("seed2", None, None)
        .expect("Failed to generate deterministic password");

    assert_ne!(password1, password2);
}

#[test]
fn generator_test_deterministic_password_with_salt() {
    let password1 = Generator::generate_deterministic_password("test-seed", Some("salt1"), None)
        .expect("Failed to generate deterministic password");
    let password2 = Generator::generate_deterministic_password("test-seed", Some("salt1"), None)
        .expect("Failed to generate deterministic password");
    let password3 = Generator::generate_deterministic_password("test-seed", Some("salt2"), None)
        .expect("Failed to generate deterministic password");

    assert_eq!(password1, password2);
    assert_ne!(password1, password3);
}

#[test]
fn generator_test_deterministic_password_with_service() {
    let password1 = Generator::generate_deterministic_password("test-seed", None, Some("github"))
        .expect("Failed to generate deterministic password");
    let password2 = Generator::generate_deterministic_password("test-seed", None, Some("github"))
        .expect("Failed to generate deterministic password");
    let password3 = Generator::generate_deterministic_password("test-seed", None, Some("gitlab"))
        .expect("Failed to generate deterministic password");

    assert_eq!(password1, password2);
    assert_ne!(password1, password3);
}

#[test]
fn generator_test_error_generate_deterministic_password() {
    assert!(Generator::generate_deterministic_password("", None, None).is_err());
    assert!(Generator::generate_deterministic_password("seed", None, None).is_ok());
}

#[test]
fn test_random_password_all_lengths_valid() {
    for length in 8..=64 {
        let password = Generator::generate_random_password(length).expect("generation failed");
        assert_eq!(password.chars().count(), length);
        assert!(Generator::is_valid_password(&password));
    }
}

#[test]
fn test_random_password_invalid_length_error() {
    assert!(matches!(
        Generator::generate_random_password(7),
        Err(GeneratorError::InvalidLength(7))
    ));
    assert!(matches!(
        Generator::generate_random_password(65),
        Err(GeneratorError::InvalidLength(65))
    ));
}

#[test]
fn test_pattern_password_classes() {
    let password = Generator::generate_pattern_password("UDDL").expect("generation failed");
    let chars: Vec<char> = password.chars().collect();
    assert!(chars[0].is_ascii_uppercase());
    assert!(chars[1].is_ascii_digit());
    assert!(chars[2].is_ascii_digit());
    assert!(chars[3].is_ascii_lowercase());
}

#[test]
fn test_pattern_password_special_class() {
    let specials = "!@#$%^&*()-_=+";
    let password = Generator::generate_pattern_password("SSSS").expect("generation failed");
    assert!(password.chars().all(|c| specials.contains(c)));
}

#[test]
fn test_pattern_password_empty_error() {
    assert!(matches!(
        Generator::generate_pattern_password(""),
        Err(GeneratorError::EmptyPattern)
    ));
}

#[test]
fn test_pattern_password_invalid_character_error() {
    assert!(matches!(
        Generator::generate_pattern_password("UX"),
        Err(GeneratorError::InvalidPatternCharacter('X'))
    ));
}

#[test]
fn test_phrase_password_word_count_errors() {
    let list = wordlist();
    assert!(matches!(
        Generator::generate_phrase_password(2, &list),
        Err(GeneratorError::InvalidWordCount)
    ));
    assert!(matches!(
        Generator::generate_phrase_password(21, &list),
        Err(GeneratorError::InvalidWordCount)
    ));
}

#[test]
fn test_phrase_password_empty_wordlist_error() {
    let empty: Vec<String> = Vec::new();
    assert!(matches!(
        Generator::generate_phrase_password(5, &empty),
        Err(GeneratorError::EmptyWordlist)
    ));
}

#[test]
fn test_deterministic_password_empty_seed_error() {
    assert!(matches!(
        Generator::generate_deterministic_password("", None, None),
        Err(GeneratorError::EmptySeed)
    ));
}
