//! The error vocabulary of the crate. Every failure a caller can see
//! is one of these variants; none carries rendered text beyond what the
//! underlying failure reported.

use vstd::prelude::*;

verus! {

/// Errors of the logging facilities.
#[derive(Debug, Clone, PartialEq, Eq)]
pub enum LoggingError {
    /// Initialisation of the logger failed.
    Initialize(String),
    /// The logging directory could not be resolved.
    GetDirectory(String),
    /// The logging directory could not be created.
    CreateDirectory(String),
    /// System information could not be written.
    WriteSystemInfo(String),
    /// The log file could not be created.
    CreateFile(String),
    /// Old log files could not be removed.
    Cleanup(String),
}

/// Errors of the password generator.
#[derive(Debug, Clone, PartialEq, Eq)]
pub enum GeneratorError {
    /// The requested length lies outside the accepted range; carries
    /// the rejected length.
    InvalidLength(usize),
    /// The pattern template is empty.
    EmptyPattern,
    /// The pattern template holds a character other than `U`, `L`, `D`
    /// or `S`; carries the first such character.
    InvalidPatternCharacter(char),
    /// The requested word count lies outside the accepted range.
    InvalidWordCount,
    /// The supplied wordlist holds no words.
    EmptyWordlist,
    /// The seed for deterministic generation is empty.
    EmptySeed,
    /// No valid password was found within the bounded number of
    /// attempts.
    MaxRetriesExceeded,
    /// The operating system's random source failed.
    RandomBytesError(String),
    /// The key-derivation expand step failed.
    HkdfExpandError,
    /// The key-derivation output step failed.
    HkdfFillError,
    /// Writing generated passwords to a file failed.
    SaveFileError(String),
}

/// Errors of the password health check.
#[derive(Debug, Clone, PartialEq, Eq)]
pub enum HealthCheckError {
    /// The analysis could not be completed.
    AnalysisError(String),
}

/// Errors of the uninstaller.
#[derive(Debug, Clone, PartialEq, Eq)]
pub enum UninstallError {
    /// The configuration path could not be resolved.
    GetConfigPathError(String),
    /// The running executable's path could not be resolved.
    GetExecutablePathError(String),
    /// The configuration path has no parent directory.
    InvalidConfigPath,
    /// The install path has no parent directory.
    InvalidInstallPath,
    /// The configuration directory could not be removed.
    RemoveConfigDirectoryError(String),
    /// The alias file could not be removed.
    RemoveAliasError(String),
    /// The install directory could not be removed.
    RemoveInstallDirectoryError(String),
    /// The executable could not be removed.
    RemoveExecutableError(String),
}

/// Errors of the self-update check.
#[derive(Debug, Clone, PartialEq, Eq)]
pub enum UpdateError {
    /// The latest release tag could not be fetched.
    GetLatestTag(String),
    /// The release service answered with an error.
    GitHubApi(String),
    /// The release service's answer could not be parsed.
    ParseJson(String),
    /// The release tag was missing from the answer.
    ParseTagName,
    /// The update could not be carried out.
    Update(String),
    /// The update process could not be started.
    SpawnProcess(String),
    /// The update process reported a failure.
    UpdateProcess(String),
}

} // verus!
