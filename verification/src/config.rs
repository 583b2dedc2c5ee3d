//! Load/save decisions for the user configuration document.
//!
//! The document lives in one JSON file at
//! `<per-user-config-dir>/ama-agent/config.json`. The caller does the
//! filesystem work (resolving the directory, reading, writing, JSON
//! encoding/decoding) and reports what happened as a plain value; the
//! decisions — when the built-in default stands in, which failures are
//! errors, and the exact error message — are made and proved here. An absent
//! file is normal (the default is returned, and nothing is written to disk
//! until an explicit save); a present but unreadable or corrupt file is an
//! error the frontend must be told about.

use vstd::prelude::*;

verus! {

/// The user configuration document: the four persisted fields of
/// `config.json`. Their business meaning belongs to the frontend.
pub struct ConfigDoc {
    /// `whisperUrl`: the transcription endpoint URL.
    pub whisper_url: String,
    /// `whisperApiKey`: the transcription API key.
    pub whisper_api_key: String,
    /// `llmProvider`: the LLM provider name.
    pub llm_provider: String,
    /// `llmApiKey`: the LLM API key.
    pub llm_api_key: String,
}

/// The built-in default document: fixed endpoint URL and provider, empty
/// API keys.
pub open spec fn is_default_config(doc: ConfigDoc) -> bool {
    &&& doc.whisper_url@ == "https://api.openai.com/v1/audio/transcriptions"@
    &&& doc.whisper_api_key@ == ""@
    &&& doc.llm_provider@ == "openai"@
    &&& doc.llm_api_key@ == ""@
}

/// The application's directory under the per-user configuration root.
pub fn config_dir_name() -> (name: &'static str)
    ensures
        name@ == "ama-agent"@,
{
    "ama-agent"
}

/// The file inside that directory that holds the document.
pub fn config_file_name() -> (name: &'static str)
    ensures
        name@ == "config.json"@,
{
    "config.json"
}

/// The error message when no per-user configuration directory can be
/// resolved.
pub open spec fn no_config_dir_message() -> Seq<char> {
    "Could not find config directory"@
}

/// What the caller found when trying to read the configuration file.
pub enum ConfigReadOutcome {
    /// No per-user configuration directory could be resolved.
    NoConfigDir,
    /// The directory is known but the file does not exist: the normal
    /// first-run situation.
    FileMissing,
    /// The file exists but could not be read; the message describes the
    /// I/O failure.
    ReadFailed(String),
    /// The file was read but its content is not a well-formed document;
    /// the message describes the corruption.
    ParseFailed(String),
    /// The file was read and decoded.
    Parsed(ConfigDoc),
}

/// What the caller managed when trying to persist a document.
pub enum ConfigWriteOutcome {
    /// No per-user configuration directory could be resolved.
    NoConfigDir,
    /// Creating the directory, encoding the document, or writing the file
    /// failed; the message describes the failure.
    OperationFailed(String),
    /// The document was written wholesale.
    Written,
}

/// The built-in default document.
pub fn default_config() -> (doc: ConfigDoc)
    ensures
        is_default_config(doc),
{
    ConfigDoc {
        whisper_url: "https://api.openai.com/v1/audio/transcriptions".to_owned(),
        whisper_api_key: "".to_owned(),
        llm_provider: "openai".to_owned(),
        llm_api_key: "".to_owned(),
    }
}

/// Decide what `get_config` answers from what the caller found on disk:
/// a missing file yields the built-in default (without writing it), a
/// decoded file is returned exactly as read, an unresolvable directory
/// yields the fixed message, and a read or parse failure surfaces its own
/// message verbatim.
pub fn config_from_read(outcome: ConfigReadOutcome) -> (result: Result<ConfigDoc, String>)
    ensures
        outcome is NoConfigDir ==> (result matches Err(m) && m@ == no_config_dir_message()),
        outcome is FileMissing ==> (result matches Ok(doc) && is_default_config(doc)),
        outcome matches ConfigReadOutcome::ReadFailed(m) ==> result == Err::<ConfigDoc, String>(m),
        outcome matches ConfigReadOutcome::ParseFailed(m) ==> result == Err::<ConfigDoc, String>(m),
        outcome matches ConfigReadOutcome::Parsed(doc) ==> result == Ok::<ConfigDoc, String>(doc),
{
    match outcome {
        ConfigReadOutcome::NoConfigDir => Err("Could not find config directory".to_owned()),
        ConfigReadOutcome::FileMissing => Ok(default_config()),
        ConfigReadOutcome::ReadFailed(m) => Err(m),
        ConfigReadOutcome::ParseFailed(m) => Err(m),
        ConfigReadOutcome::Parsed(doc) => Ok(doc),
    }
}

/// Decide what `save_config` answers from what the caller managed: success
/// only when the document was written, the fixed message when no directory
/// could be resolved, and any other failure's message verbatim.
pub fn save_result(outcome: ConfigWriteOutcome) -> (result: Result<(), String>)
    ensures
        outcome is NoConfigDir ==> (result matches Err(m) && m@ == no_config_dir_message()),
        outcome matches ConfigWriteOutcome::OperationFailed(m) ==> result == Err::<(), String>(m),
        outcome is Written ==> result == Ok::<(), String>(()),
{
    match outcome {
        ConfigWriteOutcome::NoConfigDir => Err("Could not find config directory".to_owned()),
        ConfigWriteOutcome::OperationFailed(m) => Err(m),
        ConfigWriteOutcome::Written => Ok(()),
    }
}

} // verus!
