use daily_shell::layout::{
    resolve_project_directories, resolve_project_root_dir, temporary_file, CONFIG_FILE_NAME,
    DATA_FILE_NAME, LOG_FILE_NAME, PROJECT_BACKUP_DIR_NAME, PROJECT_DATA_DIR_NAME,
    PROJECT_LOGS_DIR_NAME, PROJECT_ROOT_DIR_NAME, TEMPORARY_EXTENSION,
};
use daily_shell::storage::Document;
use std::path::PathBuf;

#[test]
fn project_layout_names() {
    assert_eq!(PROJECT_ROOT_DIR_NAME, ".daily");
    assert_eq!(PROJECT_DATA_DIR_NAME, "data");
    assert_eq!(PROJECT_LOGS_DIR_NAME, "logs");
    assert_eq!(PROJECT_BACKUP_DIR_NAME, "backup");
    assert_eq!(DATA_FILE_NAME, "data.json");
    assert_eq!(CONFIG_FILE_NAME, "config.json");
    assert_eq!(LOG_FILE_NAME, "events.jsonl");
    assert_eq!(TEMPORARY_EXTENSION, "json.tmp");
}

#[test]
fn project_lives_in_a_hidden_directory_of_the_home_directory() {
    let home = PathBuf::from("home").join("user");
    assert_eq!(resolve_project_root_dir(&home), home.join(".daily"));
}

#[test]
fn the_three_directories_lie_inside_the_root() {
    let home = PathBuf::from("home").join("user");
    let directories = resolve_project_directories(&home);
    assert_eq!(directories.root, home.join(".daily"));
    assert_eq!(directories.data, home.join(".daily").join("data"));
    assert_eq!(directories.logs, home.join(".daily").join("logs"));
    assert_eq!(directories.backup, home.join(".daily").join("backup"));
}

#[test]
fn documents_and_log_have_their_files() {
    let home = PathBuf::from("home");
    let directories = resolve_project_directories(&home);
    assert_eq!(
        directories.document_file(Document::AppData),
        home.join(".daily").join("data").join("data.json")
    );
    assert_eq!(
        directories.document_file(Document::AppConfig),
        home.join(".daily").join("data").join("config.json")
    );
    assert_eq!(directories.log_file(), home.join(".daily").join("logs").join("events.jsonl"));
}

#[test]
fn the_root_is_created_before_what_lies_inside_it() {
    let directories = resolve_project_directories(&PathBuf::from("home"));
    assert_eq!(
        directories.in_creation_order(),
        vec![&directories.root, &directories.data, &directories.logs, &directories.backup]
    );
}

#[test]
fn temporary_file_stands_beside_the_document() {
    let data = PathBuf::from("nested").join("data.json");
    assert_eq!(temporary_file(&data), PathBuf::from("nested").join("data.json.tmp"));
    let config = PathBuf::from("config.json");
    assert_eq!(temporary_file(&config), PathBuf::from("config.json.tmp"));
    assert_eq!(temporary_file(&PathBuf::from("plain")), PathBuf::from("plain.json.tmp"));
    assert_eq!(temporary_file(&PathBuf::from("a.b.c")), PathBuf::from("a.b.json.tmp"));
}
