//! What the program decides from its command line before anything is loaded:
//! where the log goes, which configuration file is read, and how a failed
//! start is reported.

use vstd::prelude::*;
use vstd::string::StringExecFns;
use crate::config::{validate_app_config, AppConfig, AppConfigView, ConfigError};

verus! {

/// The two flags of the command line, as the argument parser found them.
#[derive(Clone, Debug, PartialEq, Eq)]
pub struct CliArgs {
    /// The value of `--log`, if it was given.
    pub log: Option<String>,
    /// The value of `--config`, if it was given.
    pub config: Option<String>,
}

/// The command line after defaults were filled in.
#[derive(Clone, Debug, PartialEq, Eq)]
pub struct StartupOptions {
    pub log_file: String,
    pub config_file: String,
}

/// Why the program did not start.
#[derive(Clone, Copy, Debug, PartialEq, Eq, Structural)]
pub enum StartupError {
    /// No configuration file was named on the command line.
    MissingConfigPath,
    /// The configuration file could not be read.
    ConfigFileUnreadable,
    /// The configuration file does not hold a configuration.
    ConfigFileMalformed,
    /// The configuration was read but is not usable.
    InvalidConfig(ConfigError),
    /// The output directory could not be created.
    OutputDirectory,
}

/// How reading the configuration file went.
#[derive(Clone, Debug, PartialEq, Eq)]
pub enum LoadOutcome {
    /// The file is missing or cannot be read.
    Unreadable,
    /// The file was read but its text is not a configuration.
    Malformed,
    /// The file holds this configuration.
    Parsed(AppConfig),
}

/// How creating the output directory went.
#[derive(Clone, Copy, Debug, PartialEq, Eq, Structural)]
pub enum DirectoryOutcome {
    /// The directory was created.
    Created,
    /// The directory was there already.
    AlreadyExists,
    /// The directory is not there and could not be created.
    Failed,
}

/// The mathematical value of a [`LoadOutcome`].
pub enum LoadOutcomeView {
    Unreadable,
    Malformed,
    Parsed(AppConfigView),
}

impl View for LoadOutcome {
    type V = LoadOutcomeView;

    open spec fn view(&self) -> LoadOutcomeView {
        match self {
            LoadOutcome::Unreadable => LoadOutcomeView::Unreadable,
            LoadOutcome::Malformed => LoadOutcomeView::Malformed,
            LoadOutcome::Parsed(config) => LoadOutcomeView::Parsed(config@),
        }
    }
}

/// The configuration that a load yields: the one that was parsed, if it is
/// valid. A file that is unreadable or malformed, or a configuration that
/// fails validation, yields the error that says so.
pub open spec fn loaded_config(outcome: LoadOutcomeView) -> Result<AppConfigView, StartupError> {
    match outcome {
        LoadOutcomeView::Unreadable => Err(StartupError::ConfigFileUnreadable),
        LoadOutcomeView::Malformed => Err(StartupError::ConfigFileMalformed),
        LoadOutcomeView::Parsed(config) => match config.first_error() {
            Some(e) => Err(StartupError::InvalidConfig(e)),
            None => Ok(config),
        },
    }
}

/// Whether startup goes on after the output directory was asked for: it
/// does unless the directory is missing and could not be created.
pub open spec fn output_dir_usable(outcome: DirectoryOutcome) -> bool {
    outcome != DirectoryOutcome::Failed
}

/// The text of the default log file's path.
pub open spec fn default_log_file_text() -> Seq<char> {
    "./logs/renderer.log"@
}

/// The text of the output directory's path.
pub open spec fn output_dir_text() -> Seq<char> {
    "./out"@
}

/// The log file that a command line selects: the one it names, else the
/// default.
pub open spec fn log_file_of(log: Option<Seq<char>>) -> Seq<char> {
    match log {
        Some(path) => path,
        None => default_log_file_text(),
    }
}

/// The options that a command line resolves to, as a pair of log file and
/// configuration file. A command line without a configuration file resolves
/// to nothing, whatever else it holds.
pub open spec fn resolution(log: Option<Seq<char>>, config: Option<Seq<char>>) -> Result<
    (Seq<char>, Seq<char>),
    StartupError,
> {
    match config {
        Some(path) => Ok((log_file_of(log), path)),
        None => Err(StartupError::MissingConfigPath),
    }
}

/// The view of an optional string.
pub open spec fn text_of(value: Option<String>) -> Option<Seq<char>> {
    match value {
        Some(s) => Some(s@),
        None => None,
    }
}

impl StartupError {
    /// The process exit code for this error: 2 for a faulty command line, 1
    /// for everything else. It is never zero.
    pub open spec fn spec_exit_code(self) -> int {
        match self {
            StartupError::MissingConfigPath => 2,
            _ => 1,
        }
    }

    /// Whether the usage text is shown with this error: only a faulty
    /// command line asks for it.
    pub open spec fn spec_shows_usage(self) -> bool {
        self is MissingConfigPath
    }

    /// The text of the message that describes this error.
    pub open spec fn message_text(self) -> Seq<char> {
        match self {
            StartupError::MissingConfigPath => "Failed to get the config file path."@,
            StartupError::ConfigFileUnreadable => "Failed to read the config file."@,
            StartupError::ConfigFileMalformed => "Failed to parse the config file."@,
            StartupError::InvalidConfig(e) => e.message_text(),
            StartupError::OutputDirectory => "Failed to create the output directory: ./out"@,
        }
    }

    /// The exit code the process ends with.
    pub fn exit_code(&self) -> (code: u8)
        ensures
            code == self.spec_exit_code(),
            code != 0,
    {
        match self {
            StartupError::MissingConfigPath => 2,
            _ => 1,
        }
    }

    /// Whether the usage text is printed before the process ends.
    pub fn shows_usage(&self) -> (usage: bool)
        ensures
            usage == self.spec_shows_usage(),
    {
        match self {
            StartupError::MissingConfigPath => true,
            _ => false,
        }
    }

    /// A description of the error for the user.
    pub fn message(&self) -> (text: &'static str)
        ensures
            text@ == self.message_text(),
    {
        match self {
            StartupError::MissingConfigPath => "Failed to get the config file path.",
            StartupError::ConfigFileUnreadable => "Failed to read the config file.",
            StartupError::ConfigFileMalformed => "Failed to parse the config file.",
            StartupError::InvalidConfig(e) => e.message(),
            StartupError::OutputDirectory => "Failed to create the output directory: ./out",
        }
    }
}

/// The path of the log file used when the command line names none.
pub fn default_log_file() -> (path: &'static str)
    ensures
        path@ == default_log_file_text(),
{
    "./logs/renderer.log"
}

/// The directory that is created at startup for the program's output.
pub fn output_dir() -> (path: &'static str)
    ensures
        path@ == output_dir_text(),
{
    "./out"
}

/// Fills in the defaults of a command line. The configuration file is
/// required: without it the result is `MissingConfigPath` and nothing else
/// is looked at. The log file falls back to the default.
pub fn resolve_cli(args: CliArgs) -> (result: Result<StartupOptions, StartupError>)
    ensures
        match resolution(text_of(args.log), text_of(args.config)) {
            Ok((log_file, config_file)) => result is Ok && result->Ok_0.log_file@ == log_file
                && result->Ok_0.config_file@ == config_file,
            Err(e) => result == Err::<StartupOptions, StartupError>(e),
        },
{
    let config_file = match args.config {
        Some(path) => path,
        None => {
            return Err(StartupError::MissingConfigPath);
        },
    };
    let log_file = match args.log {
        Some(path) => path,
        None => String::from_str(default_log_file()),
    };
    Ok(StartupOptions { log_file, config_file })
}

/// Judges what reading the configuration file gave. The parsed
/// configuration is handed on unchanged if it is valid; every other outcome
/// is an error.
pub fn check_loaded_config(outcome: LoadOutcome) -> (result: Result<AppConfig, StartupError>)
    ensures
        match loaded_config(outcome@) {
            Ok(config) => result is Ok && result->Ok_0@ == config,
            Err(e) => result is Err && result->Err_0 == e,
        },
        result is Ok ==> result->Ok_0@.is_valid(),
{
    match outcome {
        LoadOutcome::Unreadable => Err(StartupError::ConfigFileUnreadable),
        LoadOutcome::Malformed => Err(StartupError::ConfigFileMalformed),
        LoadOutcome::Parsed(config) => match validate_app_config(&config) {
            Err(e) => Err(StartupError::InvalidConfig(e)),
            Ok(_) => Ok(config),
        },
    }
}

/// Judges what creating the output directory gave. A directory that was
/// there already is as good as a new one; only a failure stops the start.
pub fn check_output_dir(outcome: DirectoryOutcome) -> (result: Result<(), StartupError>)
    ensures
        output_dir_usable(outcome) ==> result is Ok,
        !output_dir_usable(outcome) ==> result == Err::<(), StartupError>(
            StartupError::OutputDirectory,
        ),
{
    match outcome {
        DirectoryOutcome::Created => Ok(()),
        DirectoryOutcome::AlreadyExists => Ok(()),
        DirectoryOutcome::Failed => Err(StartupError::OutputDirectory),
    }
}

/// A load never hands on an invalid configuration: whatever was parsed, a
/// zero or negative window dimension or a missing scene file ends in an
/// error, and so does a file that was not parsed at all.
pub proof fn lemma_load_rejects_invalid(outcome: LoadOutcomeView)
    ensures
        loaded_config(outcome) is Ok <==> (outcome is Parsed && outcome->Parsed_0.is_valid()),
        loaded_config(outcome) is Ok ==> loaded_config(outcome)->Ok_0 == outcome->Parsed_0,
{
}

/// A command line that lacks the configuration flag never starts the
/// program: it resolves to an error that ends the process with a non-zero
/// exit code and the usage text, whatever the log flag holds.
pub proof fn lemma_missing_config_stops_startup(log: Option<Seq<char>>)
    ensures
        resolution(log, None) == Err::<(Seq<char>, Seq<char>), StartupError>(
            StartupError::MissingConfigPath,
        ),
        StartupError::MissingConfigPath.spec_exit_code() != 0,
        StartupError::MissingConfigPath.spec_shows_usage(),
{
}

/// Loading is repeatable: two loads that read the same contents yield
/// equal records, or fail with the same error.
pub proof fn lemma_load_is_repeatable(first: LoadOutcome, second: LoadOutcome)
    requires
        first@ == second@,
    ensures
        loaded_config(first@) == loaded_config(second@),
{
}

} // verus!
