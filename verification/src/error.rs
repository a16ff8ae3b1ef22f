//! What can stop a run, or keep a configuration from loading.

use vstd::prelude::*;
use vstd::string::*;

verus! {

/// The formats in which a configuration can be written.
#[derive(Debug, Clone, Copy, PartialEq, Eq, Structural)]
pub enum ConfigFormat {
    Yaml,
    Toml,
}

/// A failure that ends the current run or load. None of them is retried, and
/// a run that meets one returns no results.
#[derive(Debug)]
pub enum HarnessError {
    /// No file exists at the configuration's path.
    ConfigNotFound { path: String },
    /// The configuration file is not a valid document of its format.
    ConfigParseError { format: ConfigFormat, message: String },
    /// The configuration file's extension names no known format.
    UnsupportedConfigFormat { extension: String },
    /// A build command ran and reported failure. `for_test` names the case whose
    /// own build configuration the command came from, if it came from one.
    PreBuildCommandFailed { command: String, for_test: Option<String> },
    /// A process could not be started.
    ProcessSpawnFailed { command: String },
    /// The input could not be written to the command.
    StdinWriteFailed,
    /// The command of the named case did not end within its timeout.
    ProcessTimedOut { test: String },
    /// Waiting for the command failed.
    ProcessWaitFailed,
}

/// The mathematical content of a [`HarnessError`].
pub enum HarnessErrorView {
    ConfigNotFound { path: Seq<char> },
    ConfigParseError { format: ConfigFormat, message: Seq<char> },
    UnsupportedConfigFormat { extension: Seq<char> },
    PreBuildCommandFailed { command: Seq<char>, for_test: Option<Seq<char>> },
    ProcessSpawnFailed { command: Seq<char> },
    StdinWriteFailed,
    ProcessTimedOut { test: Seq<char> },
    ProcessWaitFailed,
}

impl HarnessErrorView {
    /// The text that describes the failure.
    pub open spec fn message(self) -> Seq<char> {
        match self {
            HarnessErrorView::ConfigNotFound { path } => "Config file not found: "@ + path
                + ". Please make sure the file exists in the specified path."@,
            HarnessErrorView::ConfigParseError { format, message } => match format {
                ConfigFormat::Yaml => "YAML parse error: "@ + message,
                ConfigFormat::Toml => "TOML parse error: "@ + message,
            },
            HarnessErrorView::UnsupportedConfigFormat { extension } =>
                "Unsupported configuration format: "@ + extension
                    + ". Please use .yaml, .yml, or .toml files."@,
            HarnessErrorView::PreBuildCommandFailed { command, for_test } => match for_test {
                Some(name) => "Pre-build command failed for test '"@ + name + "': "@ + command,
                None => "Pre-build command failed: "@ + command,
            },
            HarnessErrorView::ProcessSpawnFailed { command } => "Failed to spawn command: "@
                + command,
            HarnessErrorView::StdinWriteFailed => "Failed to write to stdin"@,
            HarnessErrorView::ProcessTimedOut { test } => "Command timed out: "@ + test,
            HarnessErrorView::ProcessWaitFailed => "Command execution failed"@,
        }
    }
}

impl View for HarnessError {
    type V = HarnessErrorView;

    open spec fn view(&self) -> HarnessErrorView {
        match self {
            HarnessError::ConfigNotFound { path } => HarnessErrorView::ConfigNotFound {
                path: path@,
            },
            HarnessError::ConfigParseError { format, message } =>
                HarnessErrorView::ConfigParseError { format: *format, message: message@ },
            HarnessError::UnsupportedConfigFormat { extension } =>
                HarnessErrorView::UnsupportedConfigFormat { extension: extension@ },
            HarnessError::PreBuildCommandFailed { command, for_test } =>
                HarnessErrorView::PreBuildCommandFailed {
                    command: command@,
                    for_test: for_test.deep_view(),
                },
            HarnessError::ProcessSpawnFailed { command } => HarnessErrorView::ProcessSpawnFailed {
                command: command@,
            },
            HarnessError::StdinWriteFailed => HarnessErrorView::StdinWriteFailed,
            HarnessError::ProcessTimedOut { test } => HarnessErrorView::ProcessTimedOut {
                test: test@,
            },
            HarnessError::ProcessWaitFailed => HarnessErrorView::ProcessWaitFailed,
        }
    }
}

impl HarnessError {
    /// The text that describes the failure.
    pub fn message(&self) -> (text: String)
        ensures
            text@ == self@.message(),
    {
        match self {
            HarnessError::ConfigNotFound { path } => {
                let mut text = "Config file not found: ".to_owned();
                text.append(path.as_str());
                text.append(". Please make sure the file exists in the specified path.");
                text
            },
            HarnessError::ConfigParseError { format, message } => {
                let mut text = match format {
                    ConfigFormat::Yaml => "YAML parse error: ".to_owned(),
                    ConfigFormat::Toml => "TOML parse error: ".to_owned(),
                };
                text.append(message.as_str());
                text
            },
            HarnessError::UnsupportedConfigFormat { extension } => {
                let mut text = "Unsupported configuration format: ".to_owned();
                text.append(extension.as_str());
                text.append(". Please use .yaml, .yml, or .toml files.");
                text
            },
            HarnessError::PreBuildCommandFailed { command, for_test } => {
                let mut text = match for_test {
                    Some(name) => {
                        let mut text = "Pre-build command failed for test '".to_owned();
                        text.append(name.as_str());
                        text.append("': ");
                        text
                    },
                    None => "Pre-build command failed: ".to_owned(),
                };
                text.append(command.as_str());
                text
            },
            HarnessError::ProcessSpawnFailed { command } => {
                let mut text = "Failed to spawn command: ".to_owned();
                text.append(command.as_str());
                text
            },
            HarnessError::StdinWriteFailed => "Failed to write to stdin".to_owned(),
            HarnessError::ProcessTimedOut { test } => {
                let mut text = "Command timed out: ".to_owned();
                text.append(test.as_str());
                text
            },
            HarnessError::ProcessWaitFailed => "Command execution failed".to_owned(),
        }
    }
}

} // verus!
