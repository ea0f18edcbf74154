//! The storage that the session works on, as the session sees it.

use crate::error::SessionError;
use vstd::prelude::*;

verus! {

/// The content of one note.
pub struct Kakisute {
    content: String,
}

impl View for Kakisute {
    type V = Seq<char>;

    closed spec fn view(&self) -> Seq<char> {
        self.content@
    }
}

impl Kakisute {
    /// A note with the given content.
    pub fn new(content: String) -> (kakisute: Kakisute)
        ensures
            kakisute@ == content@,
    {
        Kakisute { content }
    }

    /// Gives the content back.
    pub fn content(self) -> (content: String)
        ensures
            content@ == self@,
    {
        self.content
    }
}

/// Which single note a one-shot command is about: the named one, or the
/// latest.
pub struct SingleQuery {
    pub is_latest: bool,
    pub file_name: Option<String>,
}

impl SingleQuery {
    /// A query with the two given parts.
    pub fn new(is_latest: bool, file_name: Option<String>) -> (query: SingleQuery)
        ensures
            query.is_latest == is_latest,
            query.file_name == file_name,
    {
        SingleQuery { is_latest, file_name }
    }
}

/// The operations on stored notes that the session needs. Positions count the
/// notes of the list that `get_kakisute_list` returned last. Nothing is
/// promised of an implementation: the session is verified for whatever the
/// calls return.
pub trait ServiceTrait {
    /// Creates a note, named after the given suffix if there is one, and
    /// returns its identifier.
    fn create_kakisute(&self, file_name: Option<String>) -> Result<String, SessionError>;

    /// Opens the note at `index` in the editor and returns its identifier.
    fn edit_by_index(&self, index: usize) -> Result<String, SessionError>;

    /// Deletes the note at `index` and returns its identifier.
    fn delete_by_index(&self, index: usize) -> Result<String, SessionError>;

    /// Reads the note at `index`.
    fn get_content_by_index(&self, index: usize) -> Result<String, SessionError>;

    /// Enumerates the stored notes anew.
    fn reload(&self);

    /// The identifiers of the notes, in the list's order.
    fn get_kakisute_list(&self) -> Vec<String>;
}

} // verus!
