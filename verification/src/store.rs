//! Loading and saving: what the store decides, given what the host found
//! or did on disk.
//!
//! The store touches no file itself. To load, the host resolves the path,
//! reads the file and reports what it found: no file, a file that could not
//! be read, or the text. To save, the host resolves the path, creates the
//! directory, is given the text, and writes it over whatever the file held.

use vstd::prelude::*;
use vstd::string::to_string_from_display_ensures;
use crate::codec::{decode_preferences, decoding, encode_preferences, record_text};
use crate::error::{map_io_err, StoreError, StoreErrorView};
use crate::record::{Preferences, PreferencesView};

verus! {

/// What the host found at the preferences path.
#[derive(Debug)]
pub enum FileRead {
    /// No file is there.
    Missing,
    /// The file could not be read, for another reason than that it is not
    /// there.
    Failed(std::io::Error),
    /// The whole content of the file.
    Text(String),
}

/// A [`FileRead`] as plain values.
pub ghost enum FileReadView {
    Missing,
    Failed,
    Text(Seq<char>),
}

impl View for FileRead {
    type V = FileReadView;

    open spec fn view(&self) -> FileReadView {
        match self {
            FileRead::Missing => FileReadView::Missing,
            FileRead::Failed(_) => FileReadView::Failed,
            FileRead::Text(text) => FileReadView::Text(text@),
        }
    }
}

/// The outcome of a load as plain values.
pub open spec fn load_view(outcome: Result<Option<Preferences>, StoreError>) -> Result<
    Option<PreferencesView>,
    StoreErrorView,
> {
    match outcome {
        Ok(None) => Ok(None),
        Ok(Some(preferences)) => Ok(Some(preferences@)),
        Err(error) => Err(error@),
    }
}

/// Which outcomes a load may have, given what the host found.
///
/// A missing file is no failure: it loads as no preferences. A file that
/// could not be read is an I/O failure, of which only the text is left open
/// here. A text loads as [`decoding`] says.
pub open spec fn load_allows(
    found: FileReadView,
    outcome: Result<Option<PreferencesView>, StoreErrorView>,
) -> bool {
    match found {
        FileReadView::Missing => outcome == Ok::<Option<PreferencesView>, StoreErrorView>(None),
        FileReadView::Failed => outcome matches Err(error) && error is Io,
        FileReadView::Text(text) => match decoding(text) {
            Ok(record) => outcome == Ok::<Option<PreferencesView>, StoreErrorView>(Some(record)),
            Err(error) => outcome == Err::<Option<PreferencesView>, StoreErrorView>(error),
        },
    }
}

/// Which outcomes the middle step of a save may have: an I/O failure, of
/// which only the text is left open here, where the directory could not be
/// created; else always the record's text.
pub open spec fn save_allows(
    record: PreferencesView,
    directory_created: bool,
    outcome: Result<Seq<char>, StoreErrorView>,
) -> bool {
    if directory_created {
        outcome == Ok::<Seq<char>, StoreErrorView>(record_text(record))
    } else {
        outcome matches Err(error) && error is Io
    }
}

/// Loads the preferences from what the host found at the path.
pub fn load_preferences(found: FileRead) -> (r: Result<Option<Preferences>, StoreError>)
    ensures
        load_allows(found@, load_view(r)),
        found matches FileRead::Failed(error) ==> r matches Err(StoreError::Io(text))
            && to_string_from_display_ensures::<std::io::Error>(&error, text),
{
    match found {
        FileRead::Missing => Ok(None),
        FileRead::Failed(error) => Err(StoreError::Io(map_io_err(error))),
        FileRead::Text(text) => match decode_preferences(text.as_str()) {
            Ok(preferences) => Ok(Some(preferences)),
            Err(error) => Err(error),
        },
    }
}

/// The text to write for a record, once the host has tried to create the
/// directory of the preferences file and all directories above it.
///
/// Where the directory was created, every record gives its text: the record
/// alone never makes a save fail. The text is to replace the whole content
/// of the file.
pub fn save_preferences(preferences: &Preferences, directory: Result<(), std::io::Error>) -> (r:
    Result<String, StoreError>)
    ensures
        directory is Ok ==> (r matches Ok(text) && text@ == record_text(preferences@)),
        directory matches Err(error) ==> r matches Err(StoreError::Io(text))
            && to_string_from_display_ensures::<std::io::Error>(&error, text),
        save_allows(
            preferences@,
            directory is Ok,
            match r {
                Ok(text) => Ok(text@),
                Err(error) => Err(error@),
            },
        ),
{
    match directory {
        Err(error) => Err(StoreError::Io(map_io_err(error))),
        Ok(_) => encode_preferences(preferences),
    }
}

/// The outcome of a save, once the host has tried to write the text.
pub fn finish_save(written: Result<(), std::io::Error>) -> (r: Result<(), StoreError>)
    ensures
        written is Ok <==> r is Ok,
        written matches Err(error) ==> r matches Err(StoreError::Io(text))
            && to_string_from_display_ensures::<std::io::Error>(&error, text),
{
    match written {
        Ok(_) => Ok(()),
        Err(error) => Err(StoreError::Io(map_io_err(error))),
    }
}

} // verus!
