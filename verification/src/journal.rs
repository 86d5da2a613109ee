//! The event log: what a record holds and the JSON entry that is written
//! for it.

use crate::clock::{now_unix_millis, unix_millis_of};
use crate::json::{
    empty_object, json_bool, json_empty_object, json_null, json_object_insert, json_text,
    json_u64, json_view, JsonModel,
};
use vstd::prelude::*;

verus! {

/// What is known of an event beyond its message.
#[derive(PartialEq, Eq, Debug)]
pub enum LogData {
    /// The state of the lock after a change.
    Locked { locked: bool },
    /// The visibility of the widget after a change.
    Visible { visible: bool },
    /// The keys of the shortcut that was pressed.
    Shortcut { shortcut: &'static str },
    /// A document was loaded from the file, which held data or did not
    /// exist.
    Loaded { path: String, has_data: bool },
    /// A document was saved to the file.
    Saved { path: String },
    /// Loading or saving a document failed with the error.
    Failed { path: String, error: String },
    /// The directories of the project.
    Directories { root: String, data_dir: String, logs_dir: String, backup_dir: String },
}

impl LogData {
    /// The JSON object that stands for the data in a log entry.
    pub open spec fn model(&self) -> JsonModel {
        match self {
            LogData::Locked { locked } => JsonModel::Object(
                empty_object().insert("locked"@, JsonModel::Bool(*locked)),
            ),
            LogData::Visible { visible } => JsonModel::Object(
                empty_object().insert("visible"@, JsonModel::Bool(*visible)),
            ),
            LogData::Shortcut { shortcut } => JsonModel::Object(
                empty_object().insert("shortcut"@, JsonModel::Text(shortcut@)),
            ),
            LogData::Loaded { path, has_data } => JsonModel::Object(
                empty_object().insert("path"@, JsonModel::Text(path@)).insert(
                    "has_data"@,
                    JsonModel::Bool(*has_data),
                ),
            ),
            LogData::Saved { path } => JsonModel::Object(
                empty_object().insert("path"@, JsonModel::Text(path@)),
            ),
            LogData::Failed { path, error } => JsonModel::Object(
                empty_object().insert("path"@, JsonModel::Text(path@)).insert(
                    "error"@,
                    JsonModel::Text(error@),
                ),
            ),
            LogData::Directories { root, data_dir, logs_dir, backup_dir } => JsonModel::Object(
                empty_object().insert("root"@, JsonModel::Text(root@)).insert(
                    "data_dir"@,
                    JsonModel::Text(data_dir@),
                ).insert("logs_dir"@, JsonModel::Text(logs_dir@)).insert(
                    "backup_dir"@,
                    JsonModel::Text(backup_dir@),
                ),
            ),
        }
    }

    /// The JSON object that stands for the data in a log entry.
    pub fn to_json(&self) -> (value: serde_json::Value)
        ensures
            json_view(value) == self.model(),
    {
        let mut object = json_empty_object();
        match self {
            LogData::Locked { locked } => {
                json_object_insert(&mut object, "locked", json_bool(*locked));
            },
            LogData::Visible { visible } => {
                json_object_insert(&mut object, "visible", json_bool(*visible));
            },
            LogData::Shortcut { shortcut } => {
                json_object_insert(&mut object, "shortcut", json_text(shortcut));
            },
            LogData::Loaded { path, has_data } => {
                json_object_insert(&mut object, "path", json_text(path.as_str()));
                json_object_insert(&mut object, "has_data", json_bool(*has_data));
            },
            LogData::Saved { path } => {
                json_object_insert(&mut object, "path", json_text(path.as_str()));
            },
            LogData::Failed { path, error } => {
                json_object_insert(&mut object, "path", json_text(path.as_str()));
                json_object_insert(&mut object, "error", json_text(error.as_str()));
            },
            LogData::Directories { root, data_dir, logs_dir, backup_dir } => {
                json_object_insert(&mut object, "root", json_text(root.as_str()));
                json_object_insert(&mut object, "data_dir", json_text(data_dir.as_str()));
                json_object_insert(&mut object, "logs_dir", json_text(logs_dir.as_str()));
                json_object_insert(&mut object, "backup_dir", json_text(backup_dir.as_str()));
            },
        }
        object
    }
}

/// The members of the data of an event are those that its kind names, each
/// with the value that the data holds.
pub proof fn lemma_log_data_members(data: LogData)
    ensures
        data.model() matches JsonModel::Object(members) && match data {
            LogData::Locked { locked } => members.dom() =~= set!["locked"@] && members["locked"@]
                == JsonModel::Bool(locked),
            LogData::Visible { visible } => members.dom() =~= set!["visible"@]
                && members["visible"@] == JsonModel::Bool(visible),
            LogData::Shortcut { shortcut } => members.dom() =~= set!["shortcut"@]
                && members["shortcut"@] == JsonModel::Text(shortcut@),
            LogData::Loaded { path, has_data } => members.dom() =~= set!["path"@, "has_data"@]
                && members["path"@] == JsonModel::Text(path@) && members["has_data"@]
                == JsonModel::Bool(has_data),
            LogData::Saved { path } => members.dom() =~= set!["path"@] && members["path"@]
                == JsonModel::Text(path@),
            LogData::Failed { path, error } => members.dom() =~= set!["path"@, "error"@]
                && members["path"@] == JsonModel::Text(path@) && members["error"@]
                == JsonModel::Text(error@),
            LogData::Directories { root, data_dir, logs_dir, backup_dir } => members.dom()
                =~= set!["root"@, "data_dir"@, "logs_dir"@, "backup_dir"@] && members["root"@]
                == JsonModel::Text(root@) && members["data_dir"@] == JsonModel::Text(data_dir@)
                && members["logs_dir"@] == JsonModel::Text(logs_dir@) && members["backup_dir"@]
                == JsonModel::Text(backup_dir@),
        },
{
    reveal_strlit("path");
    reveal_strlit("has_data");
    reveal_strlit("error");
    reveal_strlit("root");
    reveal_strlit("data_dir");
    reveal_strlit("logs_dir");
    reveal_strlit("backup_dir");
    assert("path"@.len() == 4);
    assert("has_data"@.len() == 8 && "has_data"@[0] == 'h');
    assert("error"@.len() == 5);
    assert("root"@.len() == 4 && "root"@[0] == 'r');
    assert("data_dir"@.len() == 8 && "data_dir"@[0] == 'd');
    assert("logs_dir"@.len() == 8 && "logs_dir"@[0] == 'l');
    assert("backup_dir"@.len() == 10);
}

/// What the data of an entry holds: the value that was given, or null.
pub open spec fn data_model(data: Option<serde_json::Value>) -> JsonModel {
    match data {
        Some(value) => json_view(value),
        None => JsonModel::Null,
    }
}

/// The entry that is written for an event: an object with the time in
/// milliseconds since the Unix epoch, the level, the name of the event, the
/// message, and the data or null.
pub open spec fn log_entry_model(
    timestamp: int,
    level: Seq<char>,
    event: Seq<char>,
    message: Seq<char>,
    data: JsonModel,
) -> JsonModel {
    JsonModel::Object(
        empty_object().insert("timestamp"@, JsonModel::Integer(timestamp)).insert(
            "level"@,
            JsonModel::Text(level),
        ).insert("event"@, JsonModel::Text(event)).insert(
            "message"@,
            JsonModel::Text(message),
        ).insert("data"@, data),
    )
}

/// An entry has its five members, and no others.
pub proof fn lemma_log_entry_members(
    timestamp: int,
    level: Seq<char>,
    event: Seq<char>,
    message: Seq<char>,
    data: JsonModel,
)
    ensures
        log_entry_model(timestamp, level, event, message, data) matches JsonModel::Object(members)
            && members.dom() =~= set!["timestamp"@, "level"@, "event"@, "message"@, "data"@]
            && members["timestamp"@] == JsonModel::Integer(timestamp)
            && members["level"@] == JsonModel::Text(level)
            && members["event"@] == JsonModel::Text(event)
            && members["message"@] == JsonModel::Text(message)
            && members["data"@] == data,
{
    reveal_strlit("timestamp");
    reveal_strlit("level");
    reveal_strlit("event");
    reveal_strlit("message");
    reveal_strlit("data");
    assert("timestamp"@.len() == 9);
    assert("level"@.len() == 5 && "level"@[0] == 'l');
    assert("event"@.len() == 5 && "event"@[0] == 'e');
    assert("message"@.len() == 7);
    assert("data"@.len() == 4);
}

/// The entry that is written for an event that happened at the given time;
/// none for a time that does not fit in 64 bits, which no JSON number of
/// the log can hold.
pub fn log_entry_at(
    timestamp: u128,
    level: &str,
    event: &str,
    message: &str,
    data: Option<serde_json::Value>,
) -> (entry: Option<serde_json::Value>)
    ensures
        match entry {
            Some(value) => timestamp <= u64::MAX && json_view(value) == log_entry_model(
                timestamp as int,
                level@,
                event@,
                message@,
                data_model(data),
            ),
            None => timestamp > u64::MAX,
        },
{
    if timestamp > u64::MAX as u128 {
        return None;
    }
    let mut entry = json_empty_object();
    json_object_insert(&mut entry, "timestamp", json_u64(timestamp as u64));
    json_object_insert(&mut entry, "level", json_text(level));
    json_object_insert(&mut entry, "event", json_text(event));
    json_object_insert(&mut entry, "message", json_text(message));
    let data_value = match data {
        Some(value) => value,
        None => json_null(),
    };
    json_object_insert(&mut entry, "data", data_value);
    Some(entry)
}

/// The entry that is written for an event that happens now: the entry for
/// the time that one reading of the clock stands for, with what was given;
/// none where that time does not fit in 64 bits.
pub fn create_log_entry(
    level: &str,
    event: &str,
    message: &str,
    data: Option<serde_json::Value>,
) -> (entry: Option<serde_json::Value>)
    ensures
        exists|elapsed: Result<std::time::Duration, std::time::SystemTimeError>|
            #![trigger unix_millis_of(elapsed)]
            match entry {
                Some(value) => 0 <= unix_millis_of(elapsed) <= u64::MAX && json_view(value)
                    == log_entry_model(
                    unix_millis_of(elapsed),
                    level@,
                    event@,
                    message@,
                    data_model(data),
                ),
                None => unix_millis_of(elapsed) > u64::MAX,
            },
{
    let timestamp = now_unix_millis();
    let ghost reading = choose|elapsed: Result<std::time::Duration, std::time::SystemTimeError>|
        timestamp as int == #[trigger] unix_millis_of(elapsed);
    let entry = log_entry_at(timestamp, level, event, message, data);
    assert(timestamp as int == unix_millis_of(reading));
    entry
}

/// What is logged of one event.
#[derive(PartialEq, Eq, Debug)]
pub struct LogRecord {
    /// How grave the event is: `info` or `error`.
    pub level: &'static str,
    /// The name of the event, in dotted form.
    pub event: &'static str,
    /// The event in words.
    pub message: &'static str,
    /// What else is known of the event.
    pub data: Option<LogData>,
}

impl LogRecord {
    /// What the data of the record holds as JSON.
    pub open spec fn data_model(&self) -> JsonModel {
        match self.data {
            Some(data) => data.model(),
            None => JsonModel::Null,
        }
    }

    /// The data of the record as JSON, if it has any.
    pub fn data_json(&self) -> (data: Option<serde_json::Value>)
        ensures
            data_model(data) == self.data_model(),
            data is Some == self.data is Some,
    {
        match &self.data {
            Some(data) => Some(data.to_json()),
            None => None,
        }
    }
}

/// The keys of the shortcut that toggles the lock, as the log shows them.
pub const TOGGLE_LOCK_SHORTCUT_LABEL: &'static str = "Ctrl+Shift+L";

/// Something that the shell did and logs, all at the level `info`.
#[derive(Clone, Copy, PartialEq, Eq, Debug)]
pub enum Notice {
    /// The lock of the widget changed to the given state.
    WidgetLockToggled { locked: bool },
    /// The visibility of the widget changed to the given state.
    WidgetVisibilityToggled { visible: bool },
    /// The tray menu asked for the main window.
    TrayOpenMain,
    /// The tray menu asked to toggle the lock.
    TrayToggleWidgetLock,
    /// The tray menu asked to toggle the visibility.
    TrayToggleWidgetVisibility,
    /// The tray menu asked to leave the application.
    TrayExit,
    /// The global shortcut asked to toggle the lock.
    ShortcutToggleWidgetLock,
}

impl Notice {
    /// The name of the event in the log.
    pub open spec fn event_text(self) -> Seq<char> {
        match self {
            Notice::WidgetLockToggled { .. } => "widget.lock.toggled"@,
            Notice::WidgetVisibilityToggled { .. } => "widget.visibility.toggled"@,
            Notice::TrayOpenMain => "tray.open_main"@,
            Notice::TrayToggleWidgetLock => "tray.toggle_widget_lock"@,
            Notice::TrayToggleWidgetVisibility => "tray.toggle_widget_visibility"@,
            Notice::TrayExit => "tray.exit"@,
            Notice::ShortcutToggleWidgetLock => "shortcut.toggle_widget_lock"@,
        }
    }

    /// The event in words.
    pub open spec fn message_text(self) -> Seq<char> {
        match self {
            Notice::WidgetLockToggled { .. } => "Widget lock state changed."@,
            Notice::WidgetVisibilityToggled { .. } => "Widget visibility changed."@,
            Notice::TrayOpenMain => "Tray menu requested opening main window."@,
            Notice::TrayToggleWidgetLock => "Tray menu requested toggling widget lock."@,
            Notice::TrayToggleWidgetVisibility =>
                "Tray menu requested toggling widget visibility."@,
            Notice::TrayExit => "Tray menu requested app exit."@,
            Notice::ShortcutToggleWidgetLock => "Global shortcut requested widget lock toggle."@,
        }
    }

    /// What the entry holds as data: the new state, the keys of the
    /// shortcut, or null.
    pub open spec fn data_model(self) -> JsonModel {
        match self {
            Notice::WidgetLockToggled { locked } => JsonModel::Object(
                empty_object().insert("locked"@, JsonModel::Bool(locked)),
            ),
            Notice::WidgetVisibilityToggled { visible } => JsonModel::Object(
                empty_object().insert("visible"@, JsonModel::Bool(visible)),
            ),
            Notice::ShortcutToggleWidgetLock => JsonModel::Object(
                empty_object().insert("shortcut"@, JsonModel::Text(TOGGLE_LOCK_SHORTCUT_LABEL@)),
            ),
            _ => JsonModel::Null,
        }
    }

    /// What is logged of the notice.
    pub fn record(self) -> (record: LogRecord)
        ensures
            record.level@ == "info"@,
            record.event@ == self.event_text(),
            record.message@ == self.message_text(),
            record.data_model() == self.data_model(),
    {
        match self {
            Notice::WidgetLockToggled { locked } => LogRecord {
                level: "info",
                event: "widget.lock.toggled",
                message: "Widget lock state changed.",
                data: Some(LogData::Locked { locked }),
            },
            Notice::WidgetVisibilityToggled { visible } => LogRecord {
                level: "info",
                event: "widget.visibility.toggled",
                message: "Widget visibility changed.",
                data: Some(LogData::Visible { visible }),
            },
            Notice::TrayOpenMain => LogRecord {
                level: "info",
                event: "tray.open_main",
                message: "Tray menu requested opening main window.",
                data: None,
            },
            Notice::TrayToggleWidgetLock => LogRecord {
                level: "info",
                event: "tray.toggle_widget_lock",
                message: "Tray menu requested toggling widget lock.",
                data: None,
            },
            Notice::TrayToggleWidgetVisibility => LogRecord {
                level: "info",
                event: "tray.toggle_widget_visibility",
                message: "Tray menu requested toggling widget visibility.",
                data: None,
            },
            Notice::TrayExit => LogRecord {
                level: "info",
                event: "tray.exit",
                message: "Tray menu requested app exit.",
                data: None,
            },
            Notice::ShortcutToggleWidgetLock => LogRecord {
                level: "info",
                event: "shortcut.toggle_widget_lock",
                message: "Global shortcut requested widget lock toggle.",
                data: Some(LogData::Shortcut { shortcut: TOGGLE_LOCK_SHORTCUT_LABEL }),
            },
        }
    }
}

} // verus!
