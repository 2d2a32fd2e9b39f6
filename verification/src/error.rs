//! The error type shared by every part of the library.

use vstd::prelude::*;
use vstd::string::*;

verus! {

/// What can go wrong while locating, installing or running rez.
#[derive(Debug)]
pub enum RezToolsError {
    /// Configuration file not found or invalid; also resolution, platform,
    /// download and extraction failures.
    ConfigError(String),
    /// Plugin file parsing error.
    PluginParseError(String),
    /// Plugin validation error.
    PluginValidationError(String),
    /// Rez command execution error.
    RezExecutionError(String),
    /// The text of an input or output error.
    IoError(String),
    /// The text of a YAML parsing error.
    YamlError(String),
    /// The text of a regular expression error.
    RegexError(String),
}

impl RezToolsError {
    /// The text before the message, by kind of error.
    pub open spec fn label(self) -> Seq<char> {
        match self {
            RezToolsError::ConfigError(_) => "Configuration error: "@,
            RezToolsError::PluginParseError(_) => "Plugin parse error: "@,
            RezToolsError::PluginValidationError(_) => "Plugin validation error: "@,
            RezToolsError::RezExecutionError(_) => "Rez execution error: "@,
            RezToolsError::IoError(_) => "IO error: "@,
            RezToolsError::YamlError(_) => "YAML error: "@,
            RezToolsError::RegexError(_) => "Regex error: "@,
        }
    }

    /// The message that the error carries.
    pub open spec fn detail(self) -> Seq<char> {
        match self {
            RezToolsError::ConfigError(m) => m@,
            RezToolsError::PluginParseError(m) => m@,
            RezToolsError::PluginValidationError(m) => m@,
            RezToolsError::RezExecutionError(m) => m@,
            RezToolsError::IoError(m) => m@,
            RezToolsError::YamlError(m) => m@,
            RezToolsError::RegexError(m) => m@,
        }
    }

    /// The error as it is shown to a user: its label, then its message.
    pub open spec fn text(self) -> Seq<char> {
        self.label() + self.detail()
    }

    /// This is a configuration error with the given message.
    pub open spec fn is_config(self, message: Seq<char>) -> bool {
        self is ConfigError && self.detail() == message
    }

    /// The error as it is shown to a user.
    pub fn to_string(&self) -> (s: String)
        ensures
            s@ == self.text(),
    {
        match self {
            RezToolsError::ConfigError(m) => String::from_str("Configuration error: ").concat(
                m.as_str(),
            ),
            RezToolsError::PluginParseError(m) => String::from_str("Plugin parse error: ").concat(
                m.as_str(),
            ),
            RezToolsError::PluginValidationError(m) => String::from_str(
                "Plugin validation error: ",
            ).concat(m.as_str()),
            RezToolsError::RezExecutionError(m) => String::from_str(
                "Rez execution error: ",
            ).concat(m.as_str()),
            RezToolsError::IoError(m) => String::from_str("IO error: ").concat(m.as_str()),
            RezToolsError::YamlError(m) => String::from_str("YAML error: ").concat(m.as_str()),
            RezToolsError::RegexError(m) => String::from_str("Regex error: ").concat(m.as_str()),
        }
    }
}

} // verus!
