//! What is logged of loading and saving the documents, and of the startup.

use crate::journal::{LogData, LogRecord};
use crate::storage::{Document, StorageError};
use vstd::prelude::*;
use vstd::string::*;

verus! {

/// The name in the log of the event that a document was loaded, or that
/// loading it failed.
pub open spec fn load_event_text(document: Document, succeeded: bool) -> Seq<char> {
    match (document, succeeded) {
        (Document::AppData, true) => "data.load.success"@,
        (Document::AppData, false) => "data.load.failure"@,
        (Document::AppConfig, true) => "config.load.success"@,
        (Document::AppConfig, false) => "config.load.failure"@,
    }
}

/// In words, that a document was loaded, or that loading it failed.
pub open spec fn load_message_text(document: Document, succeeded: bool) -> Seq<char> {
    match (document, succeeded) {
        (Document::AppData, true) => "Loaded data.json successfully."@,
        (Document::AppData, false) => "Failed to load data.json."@,
        (Document::AppConfig, true) => "Loaded config.json successfully."@,
        (Document::AppConfig, false) => "Failed to load config.json."@,
    }
}

/// The name in the log of the event that a document was saved, or that
/// saving it failed.
pub open spec fn save_event_text(document: Document, succeeded: bool) -> Seq<char> {
    match (document, succeeded) {
        (Document::AppData, true) => "data.save.success"@,
        (Document::AppData, false) => "data.save.failure"@,
        (Document::AppConfig, true) => "config.save.success"@,
        (Document::AppConfig, false) => "config.save.failure"@,
    }
}

/// In words, that a document was saved, or that saving it failed.
pub open spec fn save_message_text(document: Document, succeeded: bool) -> Seq<char> {
    match (document, succeeded) {
        (Document::AppData, true) => "Saved data.json successfully."@,
        (Document::AppData, false) => "Failed to save data.json."@,
        (Document::AppConfig, true) => "Saved config.json successfully."@,
        (Document::AppConfig, false) => "Failed to save config.json."@,
    }
}

/// The level at which an attempt is logged: `info` when it went well,
/// `error` when it failed.
pub open spec fn level_text(succeeded: bool) -> Seq<char> {
    if succeeded {
        "info"@
    } else {
        "error"@
    }
}

/// What is logged of an attempt to load a document from the file at
/// `path`: that it went well, and whether the file held a document; or that
/// it failed, and the message of the error.
pub fn load_report(
    document: Document,
    path: &str,
    outcome: &Result<Option<serde_json::Value>, StorageError>,
) -> (record: LogRecord)
    ensures
        record.level@ == level_text(outcome is Ok),
        record.event@ == load_event_text(document, outcome is Ok),
        record.message@ == load_message_text(document, outcome is Ok),
        match outcome {
            Ok(loaded) => record.data matches Some(LogData::Loaded { path: at, has_data })
                && at@ == path@ && has_data == loaded is Some,
            Err(failure) => record.data matches Some(LogData::Failed { path: at, error })
                && at@ == path@ && error@ == failure.text(),
        },
{
    match outcome {
        Ok(loaded) => {
            let data = Some(
                LogData::Loaded { path: String::from_str(path), has_data: loaded.is_some() },
            );
            match document {
                Document::AppData => LogRecord {
                    level: "info",
                    event: "data.load.success",
                    message: "Loaded data.json successfully.",
                    data,
                },
                Document::AppConfig => LogRecord {
                    level: "info",
                    event: "config.load.success",
                    message: "Loaded config.json successfully.",
                    data,
                },
            }
        },
        Err(failure) => {
            let data = Some(
                LogData::Failed { path: String::from_str(path), error: failure.message() },
            );
            match document {
                Document::AppData => LogRecord {
                    level: "error",
                    event: "data.load.failure",
                    message: "Failed to load data.json.",
                    data,
                },
                Document::AppConfig => LogRecord {
                    level: "error",
                    event: "config.load.failure",
                    message: "Failed to load config.json.",
                    data,
                },
            }
        },
    }
}

/// What is logged of an attempt to save a document to the file at `path`:
/// that it went well; or that it failed, and the message of the error.
pub fn save_report(document: Document, path: &str, outcome: &Result<(), StorageError>) -> (record:
    LogRecord)
    ensures
        record.level@ == level_text(outcome is Ok),
        record.event@ == save_event_text(document, outcome is Ok),
        record.message@ == save_message_text(document, outcome is Ok),
        match outcome {
            Ok(_) => record.data matches Some(LogData::Saved { path: at }) && at@ == path@,
            Err(failure) => record.data matches Some(LogData::Failed { path: at, error })
                && at@ == path@ && error@ == failure.text(),
        },
{
    match outcome {
        Ok(_) => {
            let data = Some(LogData::Saved { path: String::from_str(path) });
            match document {
                Document::AppData => LogRecord {
                    level: "info",
                    event: "data.save.success",
                    message: "Saved data.json successfully.",
                    data,
                },
                Document::AppConfig => LogRecord {
                    level: "info",
                    event: "config.save.success",
                    message: "Saved config.json successfully.",
                    data,
                },
            }
        },
        Err(failure) => {
            let data = Some(
                LogData::Failed { path: String::from_str(path), error: failure.message() },
            );
            match document {
                Document::AppData => LogRecord {
                    level: "error",
                    event: "data.save.failure",
                    message: "Failed to save data.json.",
                    data,
                },
                Document::AppConfig => LogRecord {
                    level: "error",
                    event: "config.save.failure",
                    message: "Failed to save config.json.",
                    data,
                },
            }
        },
    }
}

/// What is logged once the application has started and the directories of
/// the project are there.
pub fn startup_report(root: &str, data_dir: &str, logs_dir: &str, backup_dir: &str) -> (record:
    LogRecord)
    ensures
        record.level@ == "info"@,
        record.event@ == "app.startup"@,
        record.message@ == "Application startup completed and directories ensured."@,
        record.data matches Some(
            LogData::Directories { root: at_root, data_dir: at_data, logs_dir: at_logs, backup_dir: at_backup },
        ) && at_root@ == root@ && at_data@ == data_dir@ && at_logs@ == logs_dir@ && at_backup@
            == backup_dir@,
{
    LogRecord {
        level: "info",
        event: "app.startup",
        message: "Application startup completed and directories ensured.",
        data: Some(
            LogData::Directories {
                root: String::from_str(root),
                data_dir: String::from_str(data_dir),
                logs_dir: String::from_str(logs_dir),
                backup_dir: String::from_str(backup_dir),
            },
        ),
    }
}

} // verus!
