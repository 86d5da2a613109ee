use daily_shell::journal::{
    create_log_entry, log_entry_at, LogData, LogRecord, Notice, TOGGLE_LOCK_SHORTCUT_LABEL,
};
use serde_json::Value;

fn object(members: Vec<(&str, Value)>) -> Value {
    let mut map = serde_json::Map::new();
    for (name, member) in members {
        map.insert(name.to_string(), member);
    }
    Value::Object(map)
}

fn member_names(value: &Value) -> Vec<String> {
    let mut names: Vec<String> = value.as_object().unwrap().keys().cloned().collect();
    names.sort();
    names
}

#[test]
fn create_log_entry_contains_required_fields() {
    let entry = create_log_entry(
        "info",
        "data.save.success",
        "Saved data.json successfully.",
        Some(object(vec![("path", Value::from("/tmp/data.json"))])),
    )
    .expect("the clock reads a time that fits a JSON number");

    assert_eq!(entry["level"], "info");
    assert_eq!(entry["event"], "data.save.success");
    assert_eq!(entry["message"], "Saved data.json successfully.");
    assert_eq!(entry["data"]["path"], "/tmp/data.json");
    assert!(entry["timestamp"].is_number());
}

#[test]
fn entry_has_exactly_its_five_members() {
    let entry = log_entry_at(1_700_000_000_123, "info", "app.startup", "Started.", None).unwrap();
    assert_eq!(member_names(&entry), vec!["data", "event", "level", "message", "timestamp"]);
    assert_eq!(
        entry,
        object(vec![
            ("timestamp", Value::from(1_700_000_000_123u64)),
            ("level", Value::from("info")),
            ("event", Value::from("app.startup")),
            ("message", Value::from("Started.")),
            ("data", Value::Null),
        ])
    );
}

#[test]
fn entry_carries_the_data_it_was_given() {
    let data = object(vec![
        ("path", Value::from("/home/u/.daily/data/data.json")),
        ("has_data", Value::from(true)),
    ]);
    let entry = log_entry_at(42, "error", "e", "m", Some(data.clone())).unwrap();
    assert_eq!(entry["timestamp"], 42);
    assert_eq!(entry["level"], "error");
    assert_eq!(entry["data"], data);
}

#[test]
fn entry_is_made_for_times_up_to_64_bits_only() {
    let last = log_entry_at(u128::from(u64::MAX), "info", "e", "m", None).unwrap();
    assert_eq!(last["timestamp"], u64::MAX);
    assert_eq!(log_entry_at(0, "info", "e", "m", None).unwrap()["timestamp"], 0);
    assert_eq!(log_entry_at(u128::from(u64::MAX) + 1, "info", "e", "m", None), None);
    assert_eq!(log_entry_at(u128::MAX, "info", "e", "m", None), None);
}

#[test]
fn entry_made_now_is_stamped_with_the_present() {
    let entry = create_log_entry("info", "e", "m", None).unwrap();
    let stamp = entry["timestamp"].as_u64().unwrap();
    assert!(stamp > 1_577_836_800_000);
    assert_eq!(entry["data"], Value::Null);
}

#[test]
fn log_data_becomes_a_flat_object() {
    assert_eq!(
        LogData::Locked { locked: true }.to_json(),
        object(vec![("locked", Value::from(true))])
    );
    assert_eq!(
        LogData::Visible { visible: false }.to_json(),
        object(vec![("visible", Value::from(false))])
    );
    assert_eq!(
        LogData::Shortcut { shortcut: "Ctrl+Shift+L" }.to_json(),
        object(vec![("shortcut", Value::from("Ctrl+Shift+L"))])
    );
    assert_eq!(
        LogData::Loaded { path: "/p/data.json".to_string(), has_data: false }.to_json(),
        object(vec![("path", Value::from("/p/data.json")), ("has_data", Value::from(false))])
    );
    assert_eq!(
        LogData::Saved { path: "/p/data.json".to_string() }.to_json(),
        object(vec![("path", Value::from("/p/data.json"))])
    );
    assert_eq!(
        LogData::Failed { path: "/p".to_string(), error: "denied".to_string() }.to_json(),
        object(vec![("path", Value::from("/p")), ("error", Value::from("denied"))])
    );
    assert_eq!(
        LogData::Directories {
            root: "/h/.daily".to_string(),
            data_dir: "/h/.daily/data".to_string(),
            logs_dir: "/h/.daily/logs".to_string(),
            backup_dir: "/h/.daily/backup".to_string(),
        }
        .to_json(),
        object(vec![
            ("root", Value::from("/h/.daily")),
            ("data_dir", Value::from("/h/.daily/data")),
            ("logs_dir", Value::from("/h/.daily/logs")),
            ("backup_dir", Value::from("/h/.daily/backup")),
        ])
    );
}

#[test]
fn notices_have_their_records() {
    assert_eq!(
        Notice::WidgetLockToggled { locked: true }.record(),
        LogRecord {
            level: "info",
            event: "widget.lock.toggled",
            message: "Widget lock state changed.",
            data: Some(LogData::Locked { locked: true }),
        }
    );
    assert_eq!(
        Notice::WidgetVisibilityToggled { visible: false }.record(),
        LogRecord {
            level: "info",
            event: "widget.visibility.toggled",
            message: "Widget visibility changed.",
            data: Some(LogData::Visible { visible: false }),
        }
    );
    assert_eq!(
        Notice::TrayOpenMain.record(),
        LogRecord {
            level: "info",
            event: "tray.open_main",
            message: "Tray menu requested opening main window.",
            data: None,
        }
    );
    assert_eq!(
        Notice::TrayToggleWidgetLock.record(),
        LogRecord {
            level: "info",
            event: "tray.toggle_widget_lock",
            message: "Tray menu requested toggling widget lock.",
            data: None,
        }
    );
    assert_eq!(
        Notice::TrayToggleWidgetVisibility.record(),
        LogRecord {
            level: "info",
            event: "tray.toggle_widget_visibility",
            message: "Tray menu requested toggling widget visibility.",
            data: None,
        }
    );
    assert_eq!(
        Notice::TrayExit.record(),
        LogRecord {
            level: "info",
            event: "tray.exit",
            message: "Tray menu requested app exit.",
            data: None,
        }
    );
    assert_eq!(TOGGLE_LOCK_SHORTCUT_LABEL, "Ctrl+Shift+L");
    assert_eq!(
        Notice::ShortcutToggleWidgetLock.record(),
        LogRecord {
            level: "info",
            event: "shortcut.toggle_widget_lock",
            message: "Global shortcut requested widget lock toggle.",
            data: Some(LogData::Shortcut { shortcut: "Ctrl+Shift+L" }),
        }
    );
}

#[test]
fn record_becomes_an_entry_with_its_data() {
    let record = Notice::WidgetLockToggled { locked: true }.record();
    assert_eq!(record.data_json(), Some(object(vec![("locked", Value::from(true))])));
    assert_eq!(
        log_entry_at(7, record.level, record.event, record.message, record.data_json()).unwrap(),
        object(vec![
            ("timestamp", Value::from(7u64)),
            ("level", Value::from("info")),
            ("event", Value::from("widget.lock.toggled")),
            ("message", Value::from("Widget lock state changed.")),
            ("data", object(vec![("locked", Value::from(true))])),
        ])
    );
    let plain = Notice::TrayExit.record();
    assert_eq!(plain.data_json(), None);
    let entry =
        log_entry_at(7, plain.level, plain.event, plain.message, plain.data_json()).unwrap();
    assert_eq!(entry["event"], "tray.exit");
    assert_eq!(entry["data"], Value::Null);
}
