//! Which provider answers prompts, and with which model and key.
use vstd::prelude::*;
use vstd::string::StringExecFns;

verus! {

/// Where the daemon reads its language-model settings.
pub const CONFIG_PATH: &'static str = "/etc/chai/config.json";

/// The service that answers prompts.
#[derive(Debug, Clone, Copy, PartialEq, Eq, Structural)]
pub enum Provider {
    /// An Ollama server on this machine.
    Local,
    /// OpenAI's chat completions API.
    OpenAI,
    /// Google's Gemini API.
    Gemini,
}

/// The daemon's language-model settings.
#[derive(Debug, Clone)]
pub struct LlmConfig {
    pub provider: Provider,
    pub api_key: Option<String>,
    pub model: String,
}

/// Why the settings could not be loaded.
#[derive(Debug)]
pub enum ConfigError {
    /// The settings file could not be read.
    Io(String),
    /// The settings file is not valid.
    Parse(String),
}

impl ConfigError {
    /// The human-readable text of the error.
    pub fn message(&self) -> (res: String)
        ensures
            match self {
                ConfigError::Io(s) => res@ == "I/O error: "@ + s@,
                ConfigError::Parse(s) => res@ == "Parse error: "@ + s@,
            },
    {
        match self {
            ConfigError::Io(s) => String::from_str("I/O error: ").concat(s.as_str()),
            ConfigError::Parse(s) => String::from_str("Parse error: ").concat(s.as_str()),
        }
    }

    /// The error for a settings file that could not be read.
    pub fn read_failure(path: &str, detail: &str) -> (res: ConfigError)
        ensures
            res matches ConfigError::Io(m) && m@ == "Failed to read "@ + path@ + ": "@ + detail@,
    {
        ConfigError::Io(String::from_str("Failed to read ").concat(path).concat(": ").concat(detail))
    }

    /// The error for a settings file that is not valid JSON settings.
    pub fn invalid_settings(detail: &str) -> (res: ConfigError)
        ensures
            res matches ConfigError::Parse(m) && m@ == "Invalid config JSON: "@ + detail@,
    {
        ConfigError::Parse(String::from_str("Invalid config JSON: ").concat(detail))
    }
}

} // verus!
