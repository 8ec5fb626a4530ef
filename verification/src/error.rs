//! Everything that can go wrong, and how it is worded for the user.

use vstd::prelude::*;
use vstd::std_specs::convert::FromSpecImpl;
use vstd::string::StringExecFns;

verus! {

/// A failure of one of the commands.
///
/// Failures that originate outside this crate (the file system, the remote
/// service, the JSON parser) are carried by their message.
#[derive(Clone, Debug, PartialEq, Eq)]
pub enum CliError {
    /// The platform names no per-user configuration directory.
    ConfigDirNotFound,
    /// The configuration directory could not be created.
    ConfigDirCreationFailed(String),
    /// There is no session document: the user never logged in.
    ConfigFileNotFound,
    /// The session document lacks the named field, or holds it in the wrong
    /// form.
    ConfigFileInvalid(String),
    /// The service refused the login, or the prompt failed.
    LoginFailed(String),
    /// The user backed out of a prompt.
    PromptCancelled,
    /// No list of that name exists.
    ListNotFound(String),
    /// The remote service or the transport to it failed.
    AnyListError(String),
    /// Reading or writing a file or the terminal failed.
    IoError(String),
    /// The session document is not JSON.
    JsonError(String),
}

/// Why an interactive prompt returned no answer.
#[derive(Clone, Debug, PartialEq, Eq)]
pub enum PromptFailure {
    /// The user pressed the cancel key.
    Canceled,
    /// The user interrupted the program.
    Interrupted,
    /// Anything else, by its message.
    Other(String),
}

impl CliError {
    /// The text shown to the user for this failure.
    pub open spec fn message_text(self) -> Seq<char> {
        match self {
            CliError::ConfigDirNotFound =>
                "Could not determine config directory. Please check your system configuration."@,
            CliError::ConfigDirCreationFailed(cause) =>
                "Failed to create config directory: "@ + cause@,
            CliError::ConfigFileNotFound =>
                "Config file not found. Please run 'anylist login' first."@,
            CliError::ConfigFileInvalid(field) =>
                "Config file is invalid: "@ + field@
                    + " not found. Please run 'anylist login' again."@,
            CliError::LoginFailed(cause) => "Login failed: "@ + cause@,
            CliError::PromptCancelled => "Operation cancelled by user"@,
            CliError::ListNotFound(name) => "List '"@ + name@ + "' not found"@,
            CliError::AnyListError(cause) => "AnyList API error: "@ + cause@,
            CliError::IoError(cause) => "IO error: "@ + cause@,
            CliError::JsonError(cause) => "JSON parsing error: "@ + cause@,
        }
    }

    /// The failure of a login that the service refused, `cause` being what
    /// the service said.
    pub fn authentication_failed(cause: &str) -> (result: CliError)
        ensures
            result matches CliError::LoginFailed(text) && text@ == "Authentication failed: "@
                + cause@,
    {
        CliError::LoginFailed(String::from_str("Authentication failed: ").concat(cause))
    }

    /// The text shown to the user for this failure.
    pub fn message(&self) -> (result: String)
        ensures
            result@ == self.message_text(),
    {
        match self {
            CliError::ConfigDirNotFound => String::from_str(
                "Could not determine config directory. Please check your system configuration.",
            ),
            CliError::ConfigDirCreationFailed(cause) => String::from_str(
                "Failed to create config directory: ",
            ).concat(cause.as_str()),
            CliError::ConfigFileNotFound => String::from_str(
                "Config file not found. Please run 'anylist login' first.",
            ),
            CliError::ConfigFileInvalid(field) => String::from_str(
                "Config file is invalid: ",
            ).concat(field.as_str()).concat(" not found. Please run 'anylist login' again."),
            CliError::LoginFailed(cause) => String::from_str("Login failed: ").concat(
                cause.as_str(),
            ),
            CliError::PromptCancelled => String::from_str("Operation cancelled by user"),
            CliError::ListNotFound(name) => String::from_str("List '").concat(
                name.as_str(),
            ).concat("' not found"),
            CliError::AnyListError(cause) => String::from_str("AnyList API error: ").concat(
                cause.as_str(),
            ),
            CliError::IoError(cause) => String::from_str("IO error: ").concat(cause.as_str()),
            CliError::JsonError(cause) => String::from_str("JSON parsing error: ").concat(
                cause.as_str(),
            ),
        }
    }
}

impl From<PromptFailure> for CliError {
    /// A prompt the user backed out of is a cancellation; any other failure
    /// of the prompt fails the login, with the prompt's own message.
    fn from(failure: PromptFailure) -> (result: CliError) {
        match failure {
            PromptFailure::Canceled | PromptFailure::Interrupted => CliError::PromptCancelled,
            PromptFailure::Other(cause) => CliError::LoginFailed(cause),
        }
    }
}

impl FromSpecImpl<PromptFailure> for CliError {
    open spec fn obeys_from_spec() -> bool {
        true
    }

    open spec fn from_spec(failure: PromptFailure) -> CliError {
        match failure {
            PromptFailure::Canceled | PromptFailure::Interrupted => CliError::PromptCancelled,
            PromptFailure::Other(cause) => CliError::LoginFailed(cause),
        }
    }
}

} // verus!
