//! Configuration of the log book: where the database is, and where the
//! user's preferences are kept.
//!
//! The values come from the environment of the process. Reading it is left
//! to the caller; this module turns the texts found there into a
//! [`Config`].

use vstd::prelude::*;
use vstd::string::StringExecFns;

verus! {

/// What a [`Database`] says, as contracts see it.
pub enum DatabaseView {
    Sqlite(Seq<char>),
    Absent,
}

/// The database to use.
#[derive(Debug, PartialEq, Eq)]
pub enum Database {
    /// An SQLite file at the given path; as a URL, `sqlite:/path/db.sqlite`.
    Sqlite(String),
    /// No database is configured.
    Absent,
}

impl View for Database {
    type V = DatabaseView;

    open spec fn view(&self) -> DatabaseView {
        match self {
            Database::Sqlite(path) => DatabaseView::Sqlite(path@),
            Database::Absent => DatabaseView::Absent,
        }
    }
}

/// Where the field that starts at `from` ends: at the first colon at or after
/// `from`, or at the end of the text where no colon follows.
pub open spec fn field_end(text: Seq<char>, from: int) -> int
    decreases text.len() - from,
{
    if from >= text.len() || text[from] == ':' {
        from
    } else {
        field_end(text, from + 1)
    }
}

/// The database that a URL names. A URL is made of fields with a colon
/// between two of them. Where the first field is `sqlite` and a second one
/// follows, the second is the path of an SQLite file; what comes after a
/// further colon is left aside. Any other text names no database.
pub open spec fn database_of(url: Seq<char>) -> DatabaseView {
    let scheme_end = field_end(url, 0);
    if scheme_end < url.len() && url.subrange(0, scheme_end) == "sqlite"@ {
        DatabaseView::Sqlite(url.subrange(scheme_end + 1, field_end(url, scheme_end + 1)))
    } else {
        DatabaseView::Absent
    }
}

/// Finds the end of the colon-separated field that starts at `from`.
fn find_field_end(text: &str, from: usize) -> (end: usize)
    requires
        from <= text@.len(),
    ensures
        end == field_end(text@, from as int),
        from <= end <= text@.len(),
{
    let len = text.unicode_len();
    let mut at = from;
    while at < len && text.get_char(at) != ':'
        invariant
            from <= at <= len,
            len == text@.len(),
            field_end(text@, from as int) == field_end(text@, at as int),
        decreases len - at,
    {
        at += 1;
    }
    at
}

/// Whether two texts hold the same characters.
fn same_text(a: &str, b: &str) -> (same: bool)
    ensures
        same == (a@ == b@),
{
    let len = a.unicode_len();
    if len != b.unicode_len() {
        return false;
    }
    let mut at: usize = 0;
    while at < len
        invariant
            at <= len,
            len == a@.len(),
            len == b@.len(),
            forall|k: int| 0 <= k < at ==> a@[k] == b@[k],
        decreases len - at,
    {
        if a.get_char(at) != b.get_char(at) {
            return false;
        }
        at += 1;
    }
    assert(a@ =~= b@);
    true
}

impl Database {
    /// Reads the database from a URL; the empty text stands for a URL that
    /// was not given.
    pub fn from_url(url: &str) -> (database: Database)
        ensures
            database@ == database_of(url@),
    {
        let len = url.unicode_len();
        let scheme_end = find_field_end(url, 0);
        if scheme_end >= len {
            return Database::Absent;
        }
        if !same_text(url.substring_char(0, scheme_end), "sqlite") {
            return Database::Absent;
        }
        let path_end = find_field_end(url, scheme_end + 1);
        Database::Sqlite(String::from_str(url.substring_char(scheme_end + 1, path_end)))
    }
}

impl Default for Database {
    /// The SQLite file `/tmp/db.sqlite`.
    fn default() -> (database: Database)
        ensures
            database@ == DatabaseView::Sqlite("/tmp/db.sqlite"@),
    {
        Database::Sqlite(String::from_str("/tmp/db.sqlite"))
    }
}

/// The configuration of the log book.
#[derive(Debug)]
pub struct Config {
    pub database: Database,
    /// Path of the file that keeps the user's preferences.
    pub preferences: Option<String>,
}

impl Config {
    /// The configuration that the given settings describe: the URL of the
    /// database, empty where none was given, and the path of the preferences
    /// file, if one was given.
    pub fn from_values(database_url: &str, preferences: Option<String>) -> (config: Config)
        ensures
            config.database@ == database_of(database_url@),
            config.preferences == preferences,
    {
        Config { database: Database::from_url(database_url), preferences }
    }
}

impl Default for Config {
    /// The default database, and the preferences in
    /// `./.reverie_user_prefs.conf`.
    fn default() -> (config: Config)
        ensures
            config.database@ == DatabaseView::Sqlite("/tmp/db.sqlite"@),
            config.preferences matches Some(path) && path@ == "./.reverie_user_prefs.conf"@,
    {
        Config {
            database: Database::default(),
            preferences: Some(String::from_str("./.reverie_user_prefs.conf")),
        }
    }
}

} // verus!
