//! Where the preferences file lies.

use vstd::prelude::*;
use vstd::string::StringExecFns;
use std::path::PathBuf;
use crate::error::StoreError;

verus! {

/// `std::path::PathBuf`. The store carries the host's directory through
/// and never looks inside it.
#[verifier::external_type_specification]
#[verifier::external_body]
pub struct ExPathBuf(PathBuf);

/// Name of the preferences file inside the application's data directory.
pub const PREFERENCES_FILE: &'static str = "preferences.json";

/// The place of the preferences file: a directory and the file's name in it.
#[derive(Debug, PartialEq, Eq)]
pub struct PreferencesPath {
    /// The application's data directory, which also is the directory that
    /// must exist before the file is written.
    pub directory: PathBuf,
    /// Name of the file in that directory.
    pub file_name: String,
}

/// The place of the preferences file, given the application data directory
/// that the host could (or could not) supply.
pub fn resolve_preferences_path(app_data_dir: Option<PathBuf>) -> (r: Result<
    PreferencesPath,
    StoreError,
>)
    ensures
        app_data_dir is None ==> r == Err::<PreferencesPath, StoreError>(
            StoreError::PathResolution,
        ),
        app_data_dir matches Some(dir) ==> r matches Ok(path) && path.directory == dir
            && path.file_name@ == PREFERENCES_FILE@,
{
    match app_data_dir {
        None => Err(StoreError::PathResolution),
        Some(dir) => Ok(
            PreferencesPath { directory: dir, file_name: String::from_str(PREFERENCES_FILE) },
        ),
    }
}

} // verus!
