use daily_shell::replace::SaveStep;
use daily_shell::storage::{serialize_document, Document, StorageError};
use serde_json::Value;

/// A directory that holds files by name, with one step that is refused.
struct Shelf {
    files: Vec<(String, String)>,
    refused: Option<SaveStep>,
}

impl Shelf {
    fn content(&self, name: &str) -> Option<&str> {
        self.files.iter().find(|(held, _)| held == name).map(|(_, content)| content.as_str())
    }

    fn put(&mut self, name: &str, content: String) {
        self.files.retain(|(held, _)| held != name);
        self.files.push((name.to_string(), content));
    }

    /// Renames as the file system does: a file of the new name gives way.
    fn rename(&mut self, from: &str, to: &str) {
        let content = self.content(from).unwrap().to_string();
        self.files.retain(|(held, _)| held != from);
        self.put(to, content);
    }

    fn save(&mut self, document: Document, value: &Value) -> Result<Vec<SaveStep>, StorageError> {
        let target = document.file_name().to_string();
        let temporary = format!("{}.tmp", target);
        let mut serialized = String::new();
        let mut done = Vec::new();
        let mut step = SaveStep::first();

        while step != SaveStep::Finished {
            if self.refused == Some(step) {
                let failure = step.failure(document, "/shelf", "refused");
                return Err(failure.expect("a step that can be refused has its error"));
            }
            match step {
                SaveStep::CreateParentDirectory => {}
                SaveStep::Serialize => serialized = serialize_document(document, value)?,
                SaveStep::WriteTemporary => self.put(&temporary, serialized.clone()),
                SaveStep::RenameTemporary => self.rename(&temporary, &target),
                SaveStep::Finished => {}
            }
            done.push(step);
            step = step.next();
        }
        Ok(done)
    }
}

const FULL_RUN: [SaveStep; 4] = [
    SaveStep::CreateParentDirectory,
    SaveStep::Serialize,
    SaveStep::WriteTemporary,
    SaveStep::RenameTemporary,
];

#[test]
fn first_save_writes_the_document_and_leaves_no_temporary_file() {
    let mut shelf = Shelf { files: vec![], refused: None };
    let done = shelf.save(Document::AppData, &Value::from(1)).unwrap();
    assert_eq!(done, FULL_RUN.to_vec());
    assert_eq!(shelf.content("data.json"), Some("1"));
    assert_eq!(shelf.content("data.json.tmp"), None);
}

#[test]
fn second_save_overwrites_the_first_by_the_same_steps() {
    let mut shelf = Shelf { files: vec![], refused: None };
    shelf.save(Document::AppData, &Value::from(1)).unwrap();
    let done = shelf.save(Document::AppData, &Value::from(2)).unwrap();
    assert_eq!(done, FULL_RUN.to_vec());
    assert_eq!(shelf.content("data.json"), Some("2"));
    assert_eq!(shelf.files.len(), 1);
}

#[test]
fn a_refused_write_leaves_the_document_as_it_was() {
    let mut shelf = Shelf { files: vec![], refused: None };
    shelf.save(Document::AppConfig, &Value::from("old")).unwrap();
    shelf.refused = Some(SaveStep::WriteTemporary);
    let failure = shelf.save(Document::AppConfig, &Value::from("new")).unwrap_err();
    assert_eq!(failure.message(), "failed to write app config temp file: refused");
    assert_eq!(shelf.content("config.json"), Some("\"old\""));
}

#[test]
fn a_refused_rename_leaves_the_document_as_it_was() {
    let mut shelf = Shelf { files: vec![], refused: None };
    shelf.save(Document::AppData, &Value::from("old")).unwrap();
    shelf.refused = Some(SaveStep::RenameTemporary);
    let failure = shelf.save(Document::AppData, &Value::from("new")).unwrap_err();
    assert_eq!(failure.message(), "failed to finalize app data file: refused");
    assert_eq!(shelf.content("data.json"), Some("\"old\""));
    assert_eq!(shelf.content("data.json.tmp"), Some("\"new\""));
}

#[test]
fn the_document_is_as_it_was_whichever_step_is_refused() {
    for refused in FULL_RUN {
        if refused == SaveStep::Serialize {
            continue;
        }
        let mut shelf = Shelf { files: vec![], refused: None };
        shelf.save(Document::AppData, &Value::from("old")).unwrap();
        shelf.refused = Some(refused);
        assert!(shelf.save(Document::AppData, &Value::from("new")).is_err());
        assert_eq!(shelf.content("data.json"), Some("\"old\""));
    }
}

#[test]
fn a_refused_rename_of_a_new_document_leaves_no_document() {
    let mut shelf = Shelf { files: vec![], refused: Some(SaveStep::RenameTemporary) };
    let failure = shelf.save(Document::AppData, &Value::Null).unwrap_err();
    assert_eq!(failure.message(), "failed to finalize app data file: refused");
    assert_eq!(shelf.content("data.json"), None);
}

#[test]
fn a_refused_directory_is_reported_with_its_path() {
    let mut shelf = Shelf { files: vec![], refused: Some(SaveStep::CreateParentDirectory) };
    let failure = shelf.save(Document::AppData, &Value::Null).unwrap_err();
    assert_eq!(failure.message(), "failed to create directory `/shelf`: refused");
    assert!(shelf.files.is_empty());
}
