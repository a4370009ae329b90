use kdguard::config::Config;
use kdguard::logging::{LogLevel, LoggingManager};
use kdguard::rng::next_uniform;
use kdguard::update::UpdateManager;
use kdguard::{parse_password_mode, PasswordMode};

#[test]
fn test_next_uniform_stays_below_modulus() {
    for _ in 0..100 {
        let v = next_uniform(10).expect("random source failed");
        assert!(v < 10);
    }
    let w = next_uniform(1).expect("random source failed");
    assert_eq!(w, 0);
}

#[test]
fn test_parse_password_mode_names() {
    assert!(matches!(parse_password_mode("random"), Ok(PasswordMode::Random)));
    assert!(matches!(parse_password_mode("pattern"), Ok(PasswordMode::Pattern)));
    assert!(matches!(parse_password_mode("phrase"), Ok(PasswordMode::Phrase)));
    assert!(matches!(
        parse_password_mode("deterministic"),
        Ok(PasswordMode::Deterministic)
    ));
}

#[test]
fn test_parse_password_mode_case_insensitive() {
    assert!(matches!(parse_password_mode("RANDOM"), Ok(PasswordMode::Random)));
    assert!(matches!(parse_password_mode("PhRaSe"), Ok(PasswordMode::Phrase)));
}

#[test]
fn test_parse_password_mode_rejects_unknown() {
    let err = parse_password_mode("bogus").unwrap_err();
    assert_eq!(err, "Invalid password mode: bogus");
}

#[test]
fn test_config_default() {
    let config = Config::default();
    assert_eq!(config.general.default_length, 16);
    assert_eq!(config.general.default_count, 1);
    assert_eq!(config.general.default_mode, "random");
    assert!(!config.general.auto_save);
    assert_eq!(config.language.lang, "en");
}

#[test]
fn test_logging_manager_records_in_order() {
    let mut log = LoggingManager::new();
    log.info("starting");
    log.warn("odd input");
    log.error("failed");
    log.debug("detail");
    assert_eq!(log.entries.len(), 4);
    assert_eq!(log.entries[0].level, LogLevel::Info);
    assert_eq!(log.entries[0].message, "starting");
    assert_eq!(log.entries[1].level, LogLevel::Warn);
    assert_eq!(log.entries[2].level, LogLevel::Error);
    assert_eq!(log.entries[3].level, LogLevel::Debug);
    let taken = log.take_entries();
    assert_eq!(taken.len(), 4);
    assert_eq!(log.entries.len(), 0);
}

#[test]
fn test_extract_version() {
    assert_eq!(UpdateManager::extract_version("v1.2.3"), "1.2.3");
    assert_eq!(UpdateManager::extract_version("1.2.3"), "1.2.3");
    assert_eq!(UpdateManager::extract_version(""), "");
}

#[test]
fn test_compare_versions() {
    assert_eq!(UpdateManager::compare_versions("1.2.3", "1.2.3"), 0);
    assert_eq!(UpdateManager::compare_versions("1.2.10", "1.2.9"), 1);
    assert_eq!(UpdateManager::compare_versions("1.2.9", "1.2.10"), -1);
    assert_eq!(UpdateManager::compare_versions("2.0.0", "1.9.9"), 1);
    assert_eq!(UpdateManager::compare_versions("0.9", "1.0"), -1);
}

#[test]
fn test_compare_versions_uneven_lengths() {
    assert_eq!(UpdateManager::compare_versions("1.2", "1.2.0"), 0);
    assert_eq!(UpdateManager::compare_versions("1.2.1", "1.2"), 1);
}

#[test]
fn test_compare_versions_non_numeric_parts_read_as_zero() {
    assert_eq!(UpdateManager::compare_versions("1.2.x", "1.2.0"), 0);
    assert_eq!(UpdateManager::compare_versions("1.x.1", "1.0.0"), 1);
}
