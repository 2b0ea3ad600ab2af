use std::io::{Error, ErrorKind};
use std::path::PathBuf;

use preferences_store::error::{map_io_err, map_json_err, StoreError};
use preferences_store::path::{resolve_preferences_path, PreferencesPath, PREFERENCES_FILE};
use preferences_store::record::Preferences;
use preferences_store::store::{finish_save, load_preferences, save_preferences, FileRead};

fn record(model: &str, prompt: &str, api_key: &str) -> Preferences {
    Preferences::new(model.to_string(), prompt.to_string(), api_key.to_string())
}

/// A host whose disk is two variables: it does what the store asks and
/// nothing fails but a write into a directory that does not exist.
struct MemoryHost {
    directory: bool,
    file: Option<String>,
}

impl MemoryHost {
    fn empty() -> MemoryHost {
        MemoryHost { directory: false, file: None }
    }

    fn load(&self) -> Result<Option<Preferences>, StoreError> {
        let found = match &self.file {
            None => FileRead::Missing,
            Some(text) => FileRead::Text(text.clone()),
        };
        load_preferences(found)
    }

    fn save(&mut self, preferences: &Preferences) -> Result<(), StoreError> {
        self.directory = true;
        let text = save_preferences(preferences, Ok(()))?;
        let written = if self.directory {
            self.file = Some(text);
            Ok(())
        } else {
            Err(Error::new(ErrorKind::NotFound, "no such directory"))
        };
        finish_save(written)
    }
}

#[test]
fn file_name_is_preferences_json() {
    assert_eq!(PREFERENCES_FILE, "preferences.json");
}

#[test]
fn resolve_puts_the_file_into_the_data_directory() {
    let path = resolve_preferences_path(Some(PathBuf::from("/data/app"))).unwrap();
    assert_eq!(
        path,
        PreferencesPath {
            directory: PathBuf::from("/data/app"),
            file_name: "preferences.json".to_string(),
        }
    );
    assert_eq!(
        path.directory.join(&path.file_name),
        PathBuf::from("/data/app/preferences.json")
    );
}

#[test]
fn resolve_without_data_directory_fails() {
    let failure = resolve_preferences_path(None).unwrap_err();
    assert_eq!(failure, StoreError::PathResolution);
    assert_eq!(failure.message(), "Unable to resolve app data directory");
}

#[test]
fn message_of_each_failure() {
    assert_eq!(StoreError::PathResolution.message(), "Unable to resolve app data directory");
    assert_eq!(StoreError::Io("disk full".to_string()).message(), "disk full");
    assert_eq!(StoreError::Parse("bad".to_string()).message(), "bad");
    assert_eq!(StoreError::Serialization("worse".to_string()).message(), "worse");
}

#[test]
fn io_failure_text_is_the_display_text() {
    let error = Error::new(ErrorKind::PermissionDenied, "access denied");
    assert_eq!(map_io_err(error), "access denied");
}

#[test]
fn json_failure_text_is_the_display_text() {
    let error = serde_json::from_str::<serde_json::Value>("{").unwrap_err();
    assert_eq!(map_json_err(error), "EOF while parsing an object at line 1 column 1");
}

#[test]
fn load_without_file_is_none() {
    assert_eq!(load_preferences(FileRead::Missing), Ok(None));
    assert_eq!(MemoryHost::empty().load(), Ok(None));
}

#[test]
fn load_of_unreadable_file_is_an_io_failure() {
    let found = FileRead::Failed(Error::new(ErrorKind::PermissionDenied, "access denied"));
    assert_eq!(load_preferences(found), Err(StoreError::Io("access denied".to_string())));
}

#[test]
fn load_of_text_gives_the_record() {
    let found = FileRead::Text("{\"model\":\"m\",\"prompt\":\"p\",\"apiKey\":\"k\"}".to_string());
    assert_eq!(load_preferences(found), Ok(Some(record("m", "p", "k"))));
}

#[test]
fn load_of_malformed_text_is_a_parse_failure() {
    let missing = FileRead::Text("{\"model\":\"m\",\"prompt\":\"p\"}".to_string());
    assert_eq!(
        load_preferences(missing),
        Err(StoreError::Parse("missing field `apiKey`".to_string()))
    );
    let not_json = FileRead::Text("model=m".to_string());
    assert_eq!(
        load_preferences(not_json),
        Err(StoreError::Parse("expected value at line 1 column 1".to_string()))
    );
}

#[test]
fn save_gives_the_text_to_write() {
    let text = save_preferences(&record("gpt-4", "Hi", "sk-1"), Ok(())).unwrap();
    assert_eq!(text, "{\n  \"model\": \"gpt-4\",\n  \"prompt\": \"Hi\",\n  \"apiKey\": \"sk-1\"\n}");
}

#[test]
fn save_after_failed_directory_creation_is_an_io_failure() {
    let failure = Err(Error::new(ErrorKind::PermissionDenied, "read-only file system"));
    assert_eq!(
        save_preferences(&record("m", "p", "k"), failure),
        Err(StoreError::Io("read-only file system".to_string()))
    );
}

#[test]
fn finish_save_follows_the_write() {
    assert_eq!(finish_save(Ok(())), Ok(()));
    assert_eq!(
        finish_save(Err(Error::new(ErrorKind::Other, "disk full"))),
        Err(StoreError::Io("disk full".to_string()))
    );
}

#[test]
fn save_then_load_gives_the_record_back() {
    let mut host = MemoryHost::empty();
    let preferences = record("gpt-4", "Line one\nLine \"two\"\t\\", "sk-\u{e9}\u{1f600}\u{01}");
    assert_eq!(host.save(&preferences), Ok(()));
    assert_eq!(host.load(), Ok(Some(preferences)));
}

#[test]
fn save_twice_leaves_the_file_of_one_save() {
    let preferences = record("m", "p", "k");
    let mut once = MemoryHost::empty();
    once.save(&preferences).unwrap();
    let mut twice = MemoryHost::empty();
    twice.save(&preferences).unwrap();
    twice.save(&preferences).unwrap();
    assert_eq!(twice.file, once.file);
    assert_eq!(
        twice.file.unwrap(),
        "{\n  \"model\": \"m\",\n  \"prompt\": \"p\",\n  \"apiKey\": \"k\"\n}"
    );
}

#[test]
fn save_creates_the_directory_first() {
    let mut host = MemoryHost::empty();
    assert!(!host.directory);
    assert_eq!(host.save(&record("m", "p", "k")), Ok(()));
    assert!(host.directory);
    assert!(host.file.is_some());
}

#[test]
fn later_save_replaces_the_earlier_one() {
    let mut host = MemoryHost::empty();
    let earlier = record("first-model", "a much longer first prompt", "first-key");
    let later = record("second-model", "second-prompt", "second-key");
    host.save(&earlier).unwrap();
    host.save(&later).unwrap();
    assert_eq!(host.load(), Ok(Some(later)));
    let text = host.file.unwrap();
    assert!(!text.contains("first"));
    assert_eq!(text, "{\n  \"model\": \"second-model\",\n  \"prompt\": \"second-prompt\",\n  \"apiKey\": \"second-key\"\n}");
}

#[test]
fn save_of_the_documented_example_gives_the_documented_text() {
    let preferences = record("gpt-4", "You are a helpful assistant.", "key-1");
    assert_eq!(
        save_preferences(&preferences, Ok(())),
        Ok("{\n  \"model\": \"gpt-4\",\n  \"prompt\": \"You are a helpful assistant.\",\n  \"apiKey\": \"key-1\"\n}".to_string())
    );
}

#[test]
fn save_with_created_directory_never_fails_through_the_record() {
    let mut every = String::new();
    for code in 0u32..0x800 {
        if let Some(c) = char::from_u32(code) {
            every.push(c);
        }
    }
    let records = vec![
        record("", "", ""),
        record("\"", "\\", "\u{00}"),
        record(&every, &every, &every),
        record("\u{10ffff}", "\u{fffd}", "\u{1f600}"),
    ];
    for preferences in records {
        assert!(save_preferences(&preferences, Ok(())).is_ok());
    }
}

#[test]
fn save_over_a_longer_file_leaves_nothing_of_it() {
    let mut host = MemoryHost::empty();
    host.save(&record("gpt-4-turbo", "You are a helpful assistant.", "key-1")).unwrap();
    assert_eq!(host.save(&record("m", "p", "k")), Ok(()));
    let text = host.file.clone().unwrap();
    assert_eq!(text, "{\n  \"model\": \"m\",\n  \"prompt\": \"p\",\n  \"apiKey\": \"k\"\n}");
    assert_eq!(text.len(), 52);
    assert_eq!(host.load(), Ok(Some(record("m", "p", "k"))));
}
