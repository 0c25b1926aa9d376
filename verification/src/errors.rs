//! The failure kinds that inference operations report.

use vstd::prelude::*;

verus! {

/// Every failure a session operation can surface to its caller.
///
/// Each carries, or maps to, a human-readable message (`message`); none is
/// ever swallowed, and a failed call is never retried by this library.
#[derive(Debug, Clone, PartialEq)]
pub enum LlmError {
    /// The persona configuration file is absent.
    ConfigNotFound,
    /// The persona configuration file does not conform to the expected
    /// schema; carries the parser's diagnostic text.
    ConfigParseError(String),
    /// The model weights file is absent.
    ModelNotFound,
    /// The engine executable could not be started; carries the launcher's
    /// diagnostic text.
    SpawnError(String),
    /// The engine exited with a non-zero status in captured mode; carries
    /// the text the engine wrote to its standard error.
    EngineFailure(String),
    /// The engine exited with a non-zero status after its output stream was
    /// already consumed in streaming mode.
    EngineExitError,
    /// The caller-supplied chunk sink refused a chunk mid-stream.
    SinkFailure,
}

/// The message text for each failure kind.
pub open spec fn message_spec(e: &LlmError) -> Seq<char> {
    match e {
        LlmError::ConfigNotFound => "Prompt file not found"@,
        LlmError::ConfigParseError(d) => "Failed to parse JSON: "@ + d@,
        LlmError::ModelNotFound => "Model not found"@,
        LlmError::SpawnError(d) => "Failed to start LLM process: "@ + d@,
        LlmError::EngineFailure(d) => "LLM process failed: "@ + d@,
        LlmError::EngineExitError => "LLM process exited with error"@,
        LlmError::SinkFailure => "Failed to emit chunk"@,
    }
}

impl LlmError {
    /// The human-readable message surfaced verbatim to the caller.
    pub fn message(&self) -> (r: String)
        ensures
            r@ == message_spec(self),
    {
        match self {
            LlmError::ConfigNotFound => String::from_str("Prompt file not found"),
            LlmError::ConfigParseError(d) => {
                let mut r = String::from_str("Failed to parse JSON: ");
                r.append(d.as_str());
                r
            },
            LlmError::ModelNotFound => String::from_str("Model not found"),
            LlmError::SpawnError(d) => {
                let mut r = String::from_str("Failed to start LLM process: ");
                r.append(d.as_str());
                r
            },
            LlmError::EngineFailure(d) => {
                let mut r = String::from_str("LLM process failed: ");
                r.append(d.as_str());
                r
            },
            LlmError::EngineExitError => String::from_str("LLM process exited with error"),
            LlmError::SinkFailure => String::from_str("Failed to emit chunk"),
        }
    }
}

} // verus!
