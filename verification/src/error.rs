//! Failures of the store, and the text that the host is given for each.

use vstd::prelude::*;
use vstd::string::StringExecFns;

verus! {

/// `std::io::Error`, as the host hands it over after a failed file operation.
#[verifier::external_type_specification]
#[verifier::external_body]
pub struct ExIoError(std::io::Error);

/// Why a load or a save did not succeed.
#[derive(Debug, Clone, PartialEq, Eq)]
pub enum StoreError {
    /// The host has no application data directory to offer.
    PathResolution,
    /// Reading, writing or creating a directory failed; the text is the
    /// operating system's.
    Io(String),
    /// The file does not hold a preferences record; the text says why.
    Parse(String),
    /// The record could not be written as JSON; the text is the writer's.
    /// No record of three texts gives this failure.
    Serialization(String),
}

/// A [`StoreError`] with its text as a sequence of characters.
pub ghost enum StoreErrorView {
    PathResolution,
    Io(Seq<char>),
    Parse(Seq<char>),
    Serialization(Seq<char>),
}

impl StoreErrorView {
    /// The text that the host is given for this failure.
    pub open spec fn message(self) -> Seq<char> {
        match self {
            StoreErrorView::PathResolution => "Unable to resolve app data directory"@,
            StoreErrorView::Io(text) => text,
            StoreErrorView::Parse(text) => text,
            StoreErrorView::Serialization(text) => text,
        }
    }
}

impl View for StoreError {
    type V = StoreErrorView;

    open spec fn view(&self) -> StoreErrorView {
        match self {
            StoreError::PathResolution => StoreErrorView::PathResolution,
            StoreError::Io(text) => StoreErrorView::Io(text@),
            StoreError::Parse(text) => StoreErrorView::Parse(text@),
            StoreError::Serialization(text) => StoreErrorView::Serialization(text@),
        }
    }
}

impl StoreError {
    /// The text that the host is given for this failure.
    pub fn message(&self) -> (text: String)
        ensures
            text@ == self@.message(),
    {
        match self {
            StoreError::PathResolution => String::from_str("Unable to resolve app data directory"),
            StoreError::Io(text) => text.clone(),
            StoreError::Parse(text) => text.clone(),
            StoreError::Serialization(text) => text.clone(),
        }
    }
}

/// The text of an I/O failure: what the error's `Display` writes.
pub fn map_io_err(error: std::io::Error) -> (text: String)
    ensures
        vstd::string::to_string_from_display_ensures::<std::io::Error>(&error, text),
{
    error.to_string()
}

/// The text of a failure of the JSON parser or writer: what the error's
/// `Display` writes.
pub fn map_json_err(error: serde_json::Error) -> (text: String)
    ensures
        vstd::string::to_string_from_display_ensures::<serde_json::Error>(&error, text),
{
    error.to_string()
}

} // verus!
