//! A model of the one place on disk that the store uses, and what holds of
//! loading and saving on it.
//!
//! The model is of a host for which no file operation fails but a write
//! into a directory that does not exist: it creates directories, reads and
//! writes as asked. What is proved here holds of the store's decisions on
//! such a host; the host's own file operations are not verified.

use vstd::prelude::*;
use crate::codec::{decoding, record_of, record_text, API_KEY_KEY, MODEL_KEY, PROMPT_KEY};
use crate::error::StoreErrorView;
use crate::json::{json_reading, Members};
use crate::record::PreferencesView;
use crate::store::{load_allows, save_allows, FileReadView};

verus! {

/// The directory of the preferences file and the file in it.
pub ghost struct Disk {
    /// Whether the directory exists.
    pub directory: bool,
    /// The content of the file, where there is one.
    pub file: Option<Seq<char>>,
}

impl Disk {
    /// A file lies in a directory that exists.
    pub open spec fn well_formed(self) -> bool {
        self.file is Some ==> self.directory
    }

    /// What the host finds at the path.
    pub open spec fn found(self) -> FileReadView {
        match self.file {
            None => FileReadView::Missing,
            Some(text) => FileReadView::Text(text),
        }
    }

    /// The disk after the directory and all above it were created; nothing
    /// changes where it exists already.
    pub open spec fn with_directory(self) -> Disk {
        Disk { directory: true, file: self.file }
    }

    /// Whether a write of the file can succeed.
    pub open spec fn can_write(self) -> bool {
        self.directory
    }

    /// The disk after a write of the file: the text replaces the content.
    pub open spec fn written(self, text: Seq<char>) -> Disk {
        Disk { directory: self.directory, file: Some(text) }
    }

    /// The disk after a save of a record: the directory is created, then the
    /// text that [`crate::store::save_preferences`] gives is written.
    pub open spec fn saved(self, record: PreferencesView) -> Disk {
        self.with_directory().written(record_text(record))
    }
}

/// Once the directory is created, the save step has one outcome only: the
/// text of the record. No record makes it fail, and the text depends on
/// nothing but the record.
pub proof fn save_step_gives_the_text_of_the_record(
    record: PreferencesView,
    outcome: Result<Seq<char>, StoreErrorView>,
)
    ensures
        save_allows(record, true, outcome) <==> outcome == Ok::<Seq<char>, StoreErrorView>(
            record_text(record),
        ),
{
}

/// A save succeeds on every disk: the directory is created, the save step
/// gives the text, and the write can take place. Afterwards the disk is well
/// formed and the file holds that text.
pub proof fn save_succeeds_and_writes_the_text(disk: Disk, record: PreferencesView)
    ensures
        save_allows(record, true, Ok(record_text(record))),
        disk.with_directory().can_write(),
        disk.saved(record).well_formed(),
        disk.saved(record).file == Some(record_text(record)),
{
}

/// On a first run, when no file exists yet, a load gives no preferences and
/// no failure.
pub proof fn load_without_file_gives_none(
    disk: Disk,
    outcome: Result<Option<PreferencesView>, StoreErrorView>,
)
    ensures
        disk.file is None && load_allows(disk.found(), outcome) ==> outcome == Ok::<
            Option<PreferencesView>,
            StoreErrorView,
        >(None),
{
}

/// Whether a parsed document holds the three texts of a record under the
/// three keys, whatever other members it has.
pub open spec fn holds_record(members: Members, record: PreferencesView) -> bool {
    &&& members.contains_key(MODEL_KEY@) && members[MODEL_KEY@] == Some(record.model)
    &&& members.contains_key(PROMPT_KEY@) && members[PROMPT_KEY@] == Some(record.prompt)
    &&& members.contains_key(API_KEY_KEY@) && members[API_KEY_KEY@] == Some(record.api_key)
}

/// Whether the JSON parser reads the text of a record back as a document
/// that holds the record. This speaks of the parser alone and is not proved
/// here.
pub open spec fn parser_reads_back(record: PreferencesView) -> bool {
    json_reading(record_text(record)) matches Ok(members) && holds_record(members, record)
}

/// A document that holds the three texts of a record gives exactly that
/// record.
pub proof fn members_of_a_record_give_the_record(members: Members, record: PreferencesView)
    ensures
        holds_record(members, record) ==> record_of(members) == Ok::<
            PreferencesView,
            StoreErrorView,
        >(record),
{
}

/// After a save, a load is given exactly the text of the saved record, and
/// it gives the record back wherever the JSON parser reads that text back.
pub proof fn load_after_save_gives_the_record_where_the_parser_reads_it_back(
    disk: Disk,
    record: PreferencesView,
    outcome: Result<Option<PreferencesView>, StoreErrorView>,
)
    ensures
        disk.saved(record).found() == FileReadView::Text(record_text(record)),
        load_allows(disk.saved(record).found(), outcome) && parser_reads_back(record) ==> outcome
            == Ok::<Option<PreferencesView>, StoreErrorView>(Some(record)),
{
    if let Ok(members) = json_reading(record_text(record)) {
        members_of_a_record_give_the_record(members, record);
    }
}

/// Saving the same record twice leaves the disk as one save does: the second
/// save succeeds with the same text, and the file is replaced, not added to.
pub proof fn save_twice_is_save_once(disk: Disk, record: PreferencesView)
    ensures
        save_allows(record, true, Ok(record_text(record))),
        disk.saved(record).with_directory().can_write(),
        disk.saved(record).saved(record) == disk.saved(record),
        disk.saved(record).file == Some(record_text(record)),
{
}

/// A save succeeds whether or not the directory existed before, because the
/// directory is created first; it exists afterwards.
pub proof fn save_creates_the_directory(disk: Disk, record: PreferencesView)
    ensures
        !disk.directory ==> !disk.can_write(),
        disk.with_directory().can_write(),
        save_allows(record, true, Ok(record_text(record))),
        disk.saved(record).directory,
{
}

/// Of two saves in a row only the later one shows: it succeeds whatever the
/// file held, and the disk, and so every load from it, is as if the earlier
/// save had not happened. The load gives the later record wherever the JSON
/// parser reads its text back.
pub proof fn later_save_replaces_earlier(
    disk: Disk,
    earlier: PreferencesView,
    later: PreferencesView,
    outcome: Result<Option<PreferencesView>, StoreErrorView>,
)
    ensures
        save_allows(later, true, Ok(record_text(later))),
        disk.saved(earlier).with_directory().can_write(),
        disk.saved(earlier).saved(later) == disk.saved(later),
        disk.saved(earlier).saved(later).found() == FileReadView::Text(record_text(later)),
        load_allows(disk.saved(earlier).saved(later).found(), outcome) && parser_reads_back(later)
            ==> outcome == Ok::<Option<PreferencesView>, StoreErrorView>(Some(later)),
{
    load_after_save_gives_the_record_where_the_parser_reads_it_back(
        disk.saved(earlier),
        later,
        outcome,
    );
}

/// Whether the member of a key is there and is a JSON string.
pub open spec fn is_text_member(members: Members, key: Seq<char>) -> bool {
    members.contains_key(key) && members[key] is Some
}

/// A document gives a record only where all three fields are JSON strings,
/// and then the record holds exactly these three; every other document is a
/// parse failure.
pub proof fn record_is_whole_or_parse_failure(members: Members)
    ensures
        record_of(members) is Ok <==> is_text_member(members, MODEL_KEY@) && is_text_member(
            members,
            PROMPT_KEY@,
        ) && is_text_member(members, API_KEY_KEY@),
        record_of(members) matches Ok(record) ==> members[MODEL_KEY@] == Some(record.model)
            && members[PROMPT_KEY@] == Some(record.prompt) && members[API_KEY_KEY@] == Some(
            record.api_key,
        ),
        record_of(members) matches Err(error) ==> error is Parse,
{
}

/// A load of a text that does not decode to a whole record fails with a
/// parse failure, whatever else the text holds.
pub proof fn load_of_malformed_text_is_parse_failure(
    text: Seq<char>,
    outcome: Result<Option<PreferencesView>, StoreErrorView>,
)
    ensures
        load_allows(FileReadView::Text(text), outcome) && decoding(text) is Err ==> (
        outcome matches Err(error) && error is Parse),
{
    if let Ok(members) = json_reading(text) {
        record_is_whole_or_parse_failure(members);
    }
}

} // verus!
