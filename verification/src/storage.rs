//! The documents that the application keeps on disk: how they are read
//! and written as JSON, and what can go wrong with them.

use crate::json::{
    compact_json, error_text, json_compact, json_parse, json_pretty, json_view, parse_json,
    pretty_json,
};
use crate::layout::{CONFIG_FILE_NAME, DATA_FILE_NAME};
use crate::text::{join2, join4};
use vstd::prelude::*;
use vstd::string::*;

verus! {

/// One of the documents that the application keeps.
#[derive(Clone, Copy, PartialEq, Eq, Structural, Debug)]
pub enum Document {
    /// What the user entered.
    AppData,
    /// How the application is set up.
    AppConfig,
}

impl Document {
    /// The name of the file that holds the document.
    pub fn file_name(self) -> (name: &'static str)
        ensures
            name@ == match self {
                Document::AppData => DATA_FILE_NAME@,
                Document::AppConfig => CONFIG_FILE_NAME@,
            },
    {
        match self {
            Document::AppData => DATA_FILE_NAME,
            Document::AppConfig => CONFIG_FILE_NAME,
        }
    }
}

/// Why a document or the event log could not be read or written. `detail`
/// is the message of the error underneath.
#[derive(PartialEq, Eq, Debug)]
pub enum StorageError {
    CreateDirectory { path: String, detail: String },
    ResolveHomeDirectory { detail: String },
    Read { document: Document, detail: String },
    Parse { document: Document, detail: String },
    Serialize { document: Document, detail: String },
    WriteTemporary { document: Document, detail: String },
    Finalize { document: Document, detail: String },
    OpenLog { path: String, detail: String },
    SerializeLogLine { detail: String },
    AppendLog { path: String, detail: String },
}

impl StorageError {
    /// The message that stands for the error.
    pub open spec fn text(&self) -> Seq<char> {
        match self {
            StorageError::CreateDirectory { path, detail } => "failed to create directory `"@
                + path@ + "`: "@ + detail@,
            StorageError::ResolveHomeDirectory { detail } =>
                "failed to resolve user home directory: "@ + detail@,
            StorageError::Read { document: Document::AppData, detail } =>
                "failed to read app data file: "@ + detail@,
            StorageError::Read { document: Document::AppConfig, detail } =>
                "failed to read app config file: "@ + detail@,
            StorageError::Parse { document: Document::AppData, detail } =>
                "failed to parse app data file: "@ + detail@,
            StorageError::Parse { document: Document::AppConfig, detail } =>
                "failed to parse app config file: "@ + detail@,
            StorageError::Serialize { document: Document::AppData, detail } =>
                "failed to serialize app data: "@ + detail@,
            StorageError::Serialize { document: Document::AppConfig, detail } =>
                "failed to serialize app config: "@ + detail@,
            StorageError::WriteTemporary { document: Document::AppData, detail } =>
                "failed to write app data temp file: "@ + detail@,
            StorageError::WriteTemporary { document: Document::AppConfig, detail } =>
                "failed to write app config temp file: "@ + detail@,
            StorageError::Finalize { document: Document::AppData, detail } =>
                "failed to finalize app data file: "@ + detail@,
            StorageError::Finalize { document: Document::AppConfig, detail } =>
                "failed to finalize app config file: "@ + detail@,
            StorageError::OpenLog { path, detail } => "failed to open log file `"@ + path@
                + "`: "@ + detail@,
            StorageError::SerializeLogLine { detail } => "failed to serialize log line: "@
                + detail@,
            StorageError::AppendLog { path, detail } => "failed to append log line `"@ + path@
                + "`: "@ + detail@,
        }
    }

    /// The message that stands for the error.
    pub fn message(&self) -> (message: String)
        ensures
            message@ == self.text(),
    {
        match self {
            StorageError::CreateDirectory { path, detail } => join4(
                "failed to create directory `",
                path.as_str(),
                "`: ",
                detail.as_str(),
            ),
            StorageError::ResolveHomeDirectory { detail } => join2(
                "failed to resolve user home directory: ",
                detail.as_str(),
            ),
            StorageError::Read { document: Document::AppData, detail } => join2(
                "failed to read app data file: ",
                detail.as_str(),
            ),
            StorageError::Read { document: Document::AppConfig, detail } => join2(
                "failed to read app config file: ",
                detail.as_str(),
            ),
            StorageError::Parse { document: Document::AppData, detail } => join2(
                "failed to parse app data file: ",
                detail.as_str(),
            ),
            StorageError::Parse { document: Document::AppConfig, detail } => join2(
                "failed to parse app config file: ",
                detail.as_str(),
            ),
            StorageError::Serialize { document: Document::AppData, detail } => join2(
                "failed to serialize app data: ",
                detail.as_str(),
            ),
            StorageError::Serialize { document: Document::AppConfig, detail } => join2(
                "failed to serialize app config: ",
                detail.as_str(),
            ),
            StorageError::WriteTemporary { document: Document::AppData, detail } => join2(
                "failed to write app data temp file: ",
                detail.as_str(),
            ),
            StorageError::WriteTemporary { document: Document::AppConfig, detail } => join2(
                "failed to write app config temp file: ",
                detail.as_str(),
            ),
            StorageError::Finalize { document: Document::AppData, detail } => join2(
                "failed to finalize app data file: ",
                detail.as_str(),
            ),
            StorageError::Finalize { document: Document::AppConfig, detail } => join2(
                "failed to finalize app config file: ",
                detail.as_str(),
            ),
            StorageError::OpenLog { path, detail } => join4(
                "failed to open log file `",
                path.as_str(),
                "`: ",
                detail.as_str(),
            ),
            StorageError::SerializeLogLine { detail } => join2(
                "failed to serialize log line: ",
                detail.as_str(),
            ),
            StorageError::AppendLog { path, detail } => join4(
                "failed to append log line `",
                path.as_str(),
                "`: ",
                detail.as_str(),
            ),
        }
    }
}

/// What parsing the file of a document comes to: the parsed value as it
/// is, or the parse error of the document with the message of the parser.
pub fn parse_outcome(document: Document, parsed: Result<serde_json::Value, String>) -> (outcome:
    Result<serde_json::Value, StorageError>)
    ensures
        match parsed {
            Ok(value) => outcome matches Ok(kept) && kept == value,
            Err(message) => outcome matches Err(StorageError::Parse { document: failed, detail })
                && failed == document && detail@ == message@,
        },
{
    match parsed {
        Ok(value) => Ok(value),
        Err(message) => Err(StorageError::Parse { document, detail: message }),
    }
}

/// What writing a document as text comes to: the text as it is, or the
/// serialization error of the document with the message of the writer.
pub fn serialize_outcome(document: Document, written: Result<String, String>) -> (outcome: Result<
    String,
    StorageError,
>)
    ensures
        match written {
            Ok(text) => outcome matches Ok(kept) && kept@ == text@,
            Err(message) => outcome matches Err(
                StorageError::Serialize { document: failed, detail },
            ) && failed == document && detail@ == message@,
        },
{
    match written {
        Ok(text) => Ok(text),
        Err(message) => Err(StorageError::Serialize { document, detail: message }),
    }
}

/// What writing an entry of the event log as a line comes to: the line as
/// it is, or the serialization error with the message of the writer.
pub fn log_line_outcome(written: Result<String, String>) -> (outcome: Result<String, StorageError>)
    ensures
        match written {
            Ok(line) => outcome matches Ok(kept) && kept@ == line@,
            Err(message) => outcome matches Err(StorageError::SerializeLogLine { detail })
                && detail@ == message@,
        },
{
    match written {
        Ok(line) => Ok(line),
        Err(message) => Err(StorageError::SerializeLogLine { detail: message }),
    }
}

/// The document that the text of a file holds: the parsed value, or the
/// parse error of the document with the message of the parser.
pub fn parse_document(document: Document, raw: &str) -> (outcome: Result<
    serde_json::Value,
    StorageError,
>)
    ensures
        match json_parse(raw@) {
            Ok(model) => outcome matches Ok(value) && json_view(value) == model,
            Err(message) => outcome matches Err(StorageError::Parse { document: failed, detail })
                && failed == document && detail@ == message,
        },
{
    let parsed = match parse_json(raw) {
        Ok(value) => Ok(value),
        Err(error) => Err(error_text(&error)),
    };
    parse_outcome(document, parsed)
}

/// The text that is written to the file of a document: the value as
/// indented JSON, or the serialization error of the document with the
/// message of the writer.
pub fn serialize_document(document: Document, value: &serde_json::Value) -> (outcome: Result<
    String,
    StorageError,
>)
    ensures
        match json_pretty(*value) {
            Ok(text) => outcome matches Ok(written) && written@ == text,
            Err(message) => outcome matches Err(
                StorageError::Serialize { document: failed, detail },
            ) && failed == document && detail@ == message,
        },
{
    let written = match pretty_json(value) {
        Ok(text) => Ok(text),
        Err(error) => Err(error_text(&error)),
    };
    serialize_outcome(document, written)
}

/// The line that is appended to the event log for an entry, without the
/// line break: the entry as JSON on one line, or the serialization error
/// with the message of the writer.
pub fn serialize_log_line(entry: &serde_json::Value) -> (outcome: Result<String, StorageError>)
    ensures
        match json_compact(*entry) {
            Ok(text) => outcome matches Ok(written) && written@ == text,
            Err(message) => outcome matches Err(StorageError::SerializeLogLine { detail })
                && detail@ == message,
        },
{
    let written = match compact_json(entry) {
        Ok(line) => Ok(line),
        Err(error) => Err(error_text(&error)),
    };
    log_line_outcome(written)
}

} // verus!
