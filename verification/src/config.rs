//! The configuration the host program persists and hands to the
//! engine: default generation parameters and the active locale.

use vstd::prelude::*;
use vstd::string::*;

verus! {

/// The persisted configuration.
#[derive(Debug, Clone, PartialEq, Eq)]
pub struct Config {
    /// Default generation parameters.
    pub general: GeneralConfig,
    /// The active locale.
    pub language: LanguageConfig,
}

/// Default generation parameters.
#[derive(Debug, Clone, PartialEq, Eq)]
pub struct GeneralConfig {
    /// Default password length.
    pub default_length: usize,
    /// Default number of passwords per request.
    pub default_count: usize,
    /// Default generation mode, by name.
    pub default_mode: String,
    /// Whether generated passwords are saved without asking.
    pub auto_save: bool,
}

/// The active locale.
#[derive(Debug, Clone, PartialEq, Eq)]
pub struct LanguageConfig {
    /// The locale code, such as `en` or `de`.
    pub lang: String,
}

impl Default for Config {
    /// The configuration a fresh installation starts from.
    fn default() -> (c: Config)
        ensures
            c.general.default_length == 16,
            c.general.default_count == 1,
            c.general.default_mode@ == "random"@,
            c.general.auto_save == false,
            c.language.lang@ == "en"@,
    {
        Config {
            general: GeneralConfig {
                default_length: 16,
                default_count: 1,
                default_mode: String::from_str("random"),
                auto_save: false,
            },
            language: LanguageConfig { lang: String::from_str("en") },
        }
    }
}

} // verus!
