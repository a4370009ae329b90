//! Password generation and strength assessment.
//!
//! The crate offers four generation strategies (uniform random,
//! pattern-constrained, wordlist phrase, deterministic seeded) and a
//! scorer that rates a password by length, character diversity,
//! complexity and entropy.

pub mod charset;
pub mod config;
pub mod errors;
pub mod generator;
pub mod health_check;
pub mod kdf;
pub mod logging;
pub mod rng;
pub mod text;
pub mod update;

use crate::text::{lower_of, lowercase};
use vstd::prelude::*;
use vstd::string::*;

verus! {

/// The four generation strategies a request can name.
#[derive(Debug, Clone, Copy, PartialEq, Eq, Structural)]
pub enum PasswordMode {
    /// Uniform sampling from the combined charset.
    Random,
    /// One position per template character.
    Pattern,
    /// Hyphen-joined words from a wordlist.
    Phrase,
    /// A pure function of seed, salt and service.
    Deterministic,
}

/// Parses a mode name, case-insensitively. Any string whose lowercase
/// folding is not one of the four mode names is rejected, with the
/// offending input echoed in the error.
pub fn parse_password_mode(s: &str) -> (r: Result<PasswordMode, String>)
    ensures
        r == Ok::<PasswordMode, String>(PasswordMode::Random) <==> lower_of(s@) == "random"@,
        r == Ok::<PasswordMode, String>(PasswordMode::Pattern) <==> lower_of(s@) == "pattern"@,
        r == Ok::<PasswordMode, String>(PasswordMode::Phrase) <==> lower_of(s@) == "phrase"@,
        r == Ok::<PasswordMode, String>(PasswordMode::Deterministic) <==> lower_of(s@)
            == "deterministic"@,
        r matches Err(m) ==> m@ == "Invalid password mode: "@ + s@,
{
    proof {
        reveal_strlit("random");
        reveal_strlit("pattern");
        reveal_strlit("phrase");
        reveal_strlit("deterministic");
        assert("random"@.len() == 6);
        assert("pattern"@.len() == 7);
        assert("phrase"@.len() == 6);
        assert("deterministic"@.len() == 13);
        assert("random"@[0] == 'r');
        assert("phrase"@[0] == 'p');
    }
    let low = lowercase(s);
    if low == String::from_str("random") {
        Ok(PasswordMode::Random)
    } else if low == String::from_str("pattern") {
        Ok(PasswordMode::Pattern)
    } else if low == String::from_str("phrase") {
        Ok(PasswordMode::Phrase)
    } else if low == String::from_str("deterministic") {
        Ok(PasswordMode::Deterministic)
    } else {
        Err(String::from_str("Invalid password mode: ").concat(s))
    }
}

/// The parsed command line, as plain data. The host's argument parser
/// fills it in and hands it over.
#[derive(Debug, Clone, PartialEq, Eq)]
pub struct Cli {
    /// The subcommand, if one was given.
    pub commands: Option<Commands>,
    /// The generation strategy.
    pub mode: PasswordMode,
    /// Password length for the random strategy.
    pub length: usize,
    /// How many passwords to generate.
    pub count: usize,
    /// Whether to save the generated passwords.
    pub save: bool,
    /// Where to save them.
    pub output: Option<String>,
    /// The template for the pattern strategy.
    pub pattern: Option<String>,
    /// The word count for the phrase strategy.
    pub words: Option<usize>,
    /// Name of the environment variable holding the seed.
    pub seed_env: Option<String>,
    /// The service name for the deterministic strategy.
    pub service: Option<String>,
    /// The salt for the deterministic strategy.
    pub salt: Option<String>,
}

/// The subcommands of the command line.
#[derive(Debug, Clone, PartialEq, Eq)]
pub enum Commands {
    /// Analyze a password's strength.
    Check {
        /// The password to analyze.
        password: String,
        /// Whether to show the detailed breakdown.
        detailed: bool,
    },
    /// Show or edit the configuration.
    Config {
        /// What to do with the configuration.
        commands: ConfigCommands,
    },
    /// Remove the installation.
    Uninstall,
}

/// The configuration subcommands.
#[derive(Debug, Clone, PartialEq, Eq)]
pub enum ConfigCommands {
    /// Print the configuration.
    Show,
    /// Change some of its fields.
    Edit {
        /// The locale to set.
        lang: Option<String>,
        /// The default password length to set.
        password_length: Option<usize>,
        /// The default count to set.
        count: Option<usize>,
        /// The auto-save flag to set.
        auto_save: Option<bool>,
    },
}

} // verus!
