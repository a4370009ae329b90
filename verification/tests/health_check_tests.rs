use kdguard::health_check::{HealthCheck, Rating, Warning};

fn corpus() -> Vec<String> {
    vec![
        "password".to_string(),
        "123456".to_string(),
        "qwerty".to_string(),
        "letmein".to_string(),
    ]
}

#[test]
fn test_calculate_length_score() {
    assert_eq!(HealthCheck::calculate_length_score(5), 0);
    assert_eq!(HealthCheck::calculate_length_score(8), 10);
    assert_eq!(HealthCheck::calculate_length_score(12), 10);
    assert_eq!(HealthCheck::calculate_length_score(13), 20);
    assert_eq!(HealthCheck::calculate_length_score(16), 20);
    assert_eq!(HealthCheck::calculate_length_score(20), 25);
}

#[test]
fn test_calculate_diversity_score() {
    let (score, has_lower, has_upper, has_digit, has_special) =
        HealthCheck::calculate_diversity_score("Abc123!");
    assert!(has_lower);
    assert!(has_upper);
    assert!(has_digit);
    assert!(has_special);
    assert_eq!(score, 30);

    let (score2, _, _, _, _) = HealthCheck::calculate_diversity_score("abc");
    assert_eq!(score2, 5);
}

#[test]
fn test_has_repetitions() {
    assert!(HealthCheck::has_repetitions("aaa"));
    assert!(HealthCheck::has_repetitions("abc111"));
    assert!(!HealthCheck::has_repetitions("abc123"));
    assert!(!HealthCheck::has_repetitions("ab"));
}

#[test]
fn test_has_common_patterns() {
    let corpus = corpus();
    assert!(HealthCheck::has_common_patterns("password", &corpus));
    assert!(HealthCheck::has_common_patterns("123456", &corpus));
    assert!(!HealthCheck::has_common_patterns("Xy9$mK2@nP7#qW", &corpus));
}

#[test]
fn test_has_common_patterns_containment_both_ways() {
    let corpus = corpus();
    // the corpus entry occurs inside the password
    assert!(HealthCheck::has_common_patterns("mypassword2024", &corpus));
    // the password occurs inside a corpus entry
    assert!(HealthCheck::has_common_patterns("23456", &corpus));
}

#[test]
fn test_has_common_patterns_trims_and_lowercases() {
    let padded = vec!["  PassWord  ".to_string()];
    assert!(HealthCheck::has_common_patterns("PASSWORD", &padded));
    let blank = vec!["   ".to_string()];
    assert!(!HealthCheck::has_common_patterns("password", &blank));
}

#[test]
fn test_calculate_entropy_score() {
    let (score, charset_size) = HealthCheck::calculate_entropy_score("Abc123!");
    let entropy = 7.0 * (charset_size as f64).log2();
    assert!(entropy > 0.0);
    assert!(score > 0);
    assert_eq!(charset_size, 76);

    let (score2, charset_size2) = HealthCheck::calculate_entropy_score("");
    assert_eq!(score2, 0);
    assert_eq!(charset_size2, 0);
}

#[test]
fn test_entropy_bands() {
    // 8 lowercase characters: 8 * log2(26) = 37.6 bits
    let (score, cs) = HealthCheck::calculate_entropy_score("abcdefgh");
    assert_eq!(cs, 26);
    assert_eq!(score, 10);
    // 6 lowercase characters: 6 * log2(26) = 28.2 bits
    let (score2, _) = HealthCheck::calculate_entropy_score("abcdef");
    assert_eq!(score2, 5);
    // 10 characters over 62: 10 * log2(62) = 59.5 bits
    let (score3, _) = HealthCheck::calculate_entropy_score("Abcdefgh12");
    assert_eq!(score3, 20);
}

#[test]
fn test_score_to_rating() {
    assert_eq!(HealthCheck::score_to_rating(40), Rating::Weak);
    assert_eq!(HealthCheck::score_to_rating(41), Rating::Medium);
    assert_eq!(HealthCheck::score_to_rating(60), Rating::Medium);
    assert_eq!(HealthCheck::score_to_rating(61), Rating::Strong);
    assert_eq!(HealthCheck::score_to_rating(80), Rating::Strong);
    assert_eq!(HealthCheck::score_to_rating(81), Rating::VeryStrong);
}

#[test]
fn test_analyze_password() {
    let analysis = HealthCheck::analyze_password("Test123!", &corpus());
    assert_eq!(analysis.length, 8);
    assert!(analysis.has_lowercase);
    assert!(analysis.has_uppercase);
    assert!(analysis.has_digit);
    assert!(analysis.has_special);
    assert!(analysis.score.total > 0);
}

#[test]
fn test_analyze_common_password_is_weak() {
    let analysis = HealthCheck::analyze_password("password", &corpus());
    assert!(analysis.warnings.contains(&Warning::CommonPatterns));
    assert_eq!(analysis.rating, Rating::Weak);
}

#[test]
fn test_analyze_empty_password() {
    let analysis = HealthCheck::analyze_password("", &corpus());
    // the empty string scores nothing anywhere except the
    // no-repetition half of the complexity score
    assert_eq!(analysis.score.length_score, 0);
    assert_eq!(analysis.score.diversity_score, 0);
    assert_eq!(analysis.score.entropy_score, 0);
    assert_eq!(analysis.score.complexity_score, 10);
    assert_eq!(analysis.score.total, 10);
    assert_eq!(analysis.rating, Rating::Weak);
    assert_eq!(analysis.charset_size, 0);
    let entropy = if analysis.charset_size == 0 {
        0.0
    } else {
        (analysis.length as f64) * (analysis.charset_size as f64).log2()
    };
    assert_eq!(entropy, 0.0);
}

#[test]
fn test_analyze_warning_order() {
    let analysis = HealthCheck::analyze_password("aaa", &corpus());
    assert_eq!(
        analysis.warnings,
        vec![
            Warning::TooShort,
            Warning::NoUppercase,
            Warning::NoDigit,
            Warning::NoSpecial,
            Warning::Repetitions,
        ]
    );
    assert_eq!(analysis.warnings.len(), analysis.suggestions.len());
}

#[test]
fn test_check_password_returns_analysis() {
    let analysis = HealthCheck::check_password("Test123!", &corpus()).expect("check failed");
    assert_eq!(analysis.length, 8);
    assert!(analysis.score.total > 0);
}
