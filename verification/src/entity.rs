//! The entities of the log book: [`User`], [`Project`] and [`Log`], with the
//! audit [`Metadata`] that projects and log entries carry.
//!
//! Entities are values. They refer to each other by identifier only, and
//! nothing changes one after it was made. The view of an entity is the
//! record that a storage engine persists for it.

use vstd::prelude::*;

use crate::clock::{is_clock_reading, read_clock};
use crate::id::{is_valid_id, EntryId, ProjectId, UserId};
use crate::name::{ProjectName, Username};

verus! {

/// Counts the changes of wording of an entry. Entries are never reworded, so
/// it stays at zero.
pub type Revision = i16;

/// Counts the changes of an entity. Entities are never changed, so it stays
/// at zero.
#[derive(Debug, Clone, Copy, PartialEq, Eq, Structural)]
pub struct Version(pub i16);

/// A point in time, in nanoseconds since the Unix epoch.
#[derive(Debug, Clone, Copy, PartialEq, Eq, Structural)]
pub struct Date(i64);

impl View for Date {
    type V = i64;

    closed spec fn view(&self) -> i64 {
        self.0
    }
}

/// The date of a clock reading, in nanoseconds since the Unix epoch: the
/// nanoseconds that were read, cut to 64 bits, and the epoch itself where the
/// clock stood before the epoch.
pub open spec fn date_of_reading(reading: Option<u128>) -> i64 {
    match reading {
        Some(nanos) => nanos as i64,
        None => 0,
    }
}

impl Date {
    /// The date of a clock reading: the nanoseconds since the epoch, cut to
    /// 64 bits. A clock that stands before the epoch reads as the epoch.
    pub fn from_elapsed(elapsed: Option<u128>) -> (date: Date)
        ensures
            date@ == date_of_reading(elapsed),
            date@ == (match elapsed {
                Some(nanos) => nanos as i64,
                None => 0,
            }),
    {
        match elapsed {
            Some(nanos) => Date(#[verifier::truncate] (nanos as i64)),
            None => Date(0),
        }
    }

    /// The current time: the date of what the system clock is read as.
    pub fn now() -> (date: Date)
        ensures
            exists|reading: Option<u128>| #[trigger]
                is_clock_reading(reading) && date@ == date_of_reading(reading),
    {
        let reading = read_clock();
        Date::from_elapsed(reading)
    }

    /// The date that lies `nanos` nanoseconds after the Unix epoch.
    pub fn from_nanos(nanos: i64) -> (date: Date)
        ensures
            date@ == nanos,
    {
        Date(nanos)
    }

    /// Nanoseconds since the Unix epoch.
    pub fn as_i64(&self) -> (nanos: i64)
        ensures
            nanos == self@,
    {
        self.0
    }
}

/// What is recorded of the making of an entity.
pub struct MetadataView {
    pub revision: i16,
    pub version: i16,
    pub author: u128,
    pub created: i64,
}

/// The audit fields of a project or a log entry: who made it and when, and
/// how often it was changed since.
#[derive(Debug)]
pub struct Metadata {
    revision: Revision,
    version: Version,
    author: UserId,
    created: Date,
}

impl View for Metadata {
    type V = MetadataView;

    closed spec fn view(&self) -> MetadataView {
        MetadataView {
            revision: self.revision,
            version: self.version.0,
            author: self.author@,
            created: self.created@,
        }
    }
}

impl Clone for Metadata {
    fn clone(&self) -> (meta: Metadata)
        ensures
            meta@ == self@,
    {
        Metadata {
            revision: self.revision,
            version: self.version,
            author: self.author,
            created: self.created,
        }
    }
}

impl Metadata {
    /// The metadata of an entity that `user` makes now: unchanged, and
    /// stamped with the current time.
    pub fn new(user: UserId) -> (meta: Metadata)
        ensures
            meta@.revision == 0,
            meta@.version == 0,
            meta@.author == user@,
            exists|created: Date| #[trigger]
                call_ensures(Date::now, (), created) && meta@.created == created@,
    {
        let created = Date::now();
        Metadata::new_at(user, created)
    }

    /// The metadata of an entity that `user` makes at the time `created`:
    /// unchanged, and stamped with that time.
    pub fn new_at(user: UserId, created: Date) -> (meta: Metadata)
        ensures
            meta@ == (MetadataView { revision: 0, version: 0, author: user@, created: created@ }),
    {
        Metadata { revision: 0, version: Version(0), author: user, created }
    }

    /// Metadata as it was recorded.
    pub fn from_parts(revision: Revision, version: Version, author: UserId, created: Date) -> (meta:
        Metadata)
        ensures
            meta@ == (MetadataView {
                revision,
                version: version.0,
                author: author@,
                created: created@,
            }),
    {
        Metadata { revision, version, author, created }
    }

    pub fn revision(&self) -> (revision: Revision)
        ensures
            revision == self@.revision,
    {
        self.revision
    }

    pub fn version(&self) -> (version: Version)
        ensures
            version.0 == self@.version,
    {
        self.version
    }

    /// The user who made the entity.
    pub fn author(&self) -> (author: UserId)
        ensures
            author@ == self@.author,
    {
        self.author
    }

    /// When the entity was made.
    pub fn created(&self) -> (created: Date)
        ensures
            created@ == self@.created,
    {
        self.created
    }
}

/// The record of a user.
pub struct UserView {
    pub id: u128,
    pub name: Seq<char>,
}

/// A user: an identifier and a name.
#[derive(Debug)]
pub struct User {
    id: UserId,
    name: Username,
}

impl View for User {
    type V = UserView;

    closed spec fn view(&self) -> UserView {
        UserView { id: self.id@, name: self.name@ }
    }
}

impl Clone for User {
    fn clone(&self) -> (user: User)
        ensures
            user@ == self@,
    {
        User { id: self.id, name: self.name.clone() }
    }
}

impl User {
    /// A new user of the given name, under a fresh identifier.
    pub fn create(name: Username) -> (user: User)
        ensures
            user@.name == name@,
            is_valid_id(user@.id),
            exists|id: UserId| #[trigger] call_ensures(UserId::create, (), id) && user@.id == id@,
    {
        let id = UserId::create();
        User { id, name }
    }

    /// A user as it was recorded.
    pub fn from_parts(id: UserId, name: Username) -> (user: User)
        ensures
            user@ == (UserView { id: id@, name: name@ }),
    {
        User { id, name }
    }

    pub fn id(&self) -> (id: UserId)
        ensures
            id@ == self@.id,
    {
        self.id
    }

    pub fn name(&self) -> (name: &Username)
        ensures
            name@ == self@.name,
    {
        &self.name
    }
}

/// The record of a project.
pub struct ProjectView {
    pub id: u128,
    pub meta: MetadataView,
    pub name: Seq<char>,
}

/// A project: an identifier, a name, and the metadata whose author owns the
/// project.
#[derive(Debug)]
pub struct Project {
    id: ProjectId,
    meta: Metadata,
    name: ProjectName,
}

impl View for Project {
    type V = ProjectView;

    closed spec fn view(&self) -> ProjectView {
        ProjectView { id: self.id@, meta: self.meta@, name: self.name@ }
    }
}

impl Project {
    /// A new project of the given name that `author` owns, under a fresh
    /// identifier.
    pub fn new(name: ProjectName, author: UserId) -> (project: Project)
        ensures
            project@.name == name@,
            project@.meta.author == author@,
            project@.meta.revision == 0,
            project@.meta.version == 0,
            is_valid_id(project@.id),
            exists|id: ProjectId| #[trigger]
                call_ensures(ProjectId::create, (), id) && project@.id == id@,
            exists|created: Date| #[trigger]
                call_ensures(Date::now, (), created) && project@.meta.created == created@,
    {
        let id = ProjectId::create();
        let created = Date::now();
        Project::new_at(name, author, id, created)
    }

    /// A new project of the given name that `author` owns, under the
    /// identifier `id` and made at the time `created`.
    pub fn new_at(name: ProjectName, author: UserId, id: ProjectId, created: Date) -> (project:
        Project)
        ensures
            project@ == (ProjectView {
                id: id@,
                meta: MetadataView {
                    revision: 0,
                    version: 0,
                    author: author@,
                    created: created@,
                },
                name: name@,
            }),
    {
        Project { id, meta: Metadata::new_at(author, created), name }
    }

    /// A project as it was recorded.
    pub fn from_parts(id: ProjectId, meta: Metadata, name: ProjectName) -> (project: Project)
        ensures
            project@ == (ProjectView { id: id@, meta: meta@, name: name@ }),
    {
        Project { id, meta, name }
    }

    pub fn id(&self) -> (id: ProjectId)
        ensures
            id@ == self@.id,
    {
        self.id
    }

    pub fn name(&self) -> (name: &ProjectName)
        ensures
            name@ == self@.name,
    {
        &self.name
    }

    pub fn meta(&self) -> (meta: &Metadata)
        ensures
            meta@ == self@.meta,
    {
        &self.meta
    }
}

/// The record of a log entry. The project it belongs to is no part of it: the
/// storage engine keeps that beside the entry.
pub struct LogView {
    pub id: u128,
    pub meta: MetadataView,
    pub text: Seq<char>,
}

/// A log entry: an identifier, a text, and the metadata whose author wrote
/// the entry.
#[derive(Debug)]
pub struct Log {
    id: EntryId,
    meta: Metadata,
    text: String,
}

impl View for Log {
    type V = LogView;

    closed spec fn view(&self) -> LogView {
        LogView { id: self.id@, meta: self.meta@, text: self.text@ }
    }
}

impl Clone for Log {
    fn clone(&self) -> (log: Log)
        ensures
            log@ == self@,
    {
        Log { id: self.id, meta: self.meta.clone(), text: self.text.clone() }
    }
}

impl Log {
    /// A new entry with the given text that `author` wrote, under a fresh
    /// identifier.
    pub fn new(text: String, author: UserId) -> (log: Log)
        ensures
            log@.text == text@,
            log@.meta.author == author@,
            log@.meta.revision == 0,
            log@.meta.version == 0,
            is_valid_id(log@.id),
            exists|id: EntryId| #[trigger] call_ensures(EntryId::create, (), id) && log@.id == id@,
            exists|created: Date| #[trigger]
                call_ensures(Date::now, (), created) && log@.meta.created == created@,
    {
        let id = EntryId::create();
        let created = Date::now();
        Log::new_at(text, author, id, created)
    }

    /// A new entry with the given text that `author` wrote, under the
    /// identifier `id` and made at the time `created`.
    pub fn new_at(text: String, author: UserId, id: EntryId, created: Date) -> (log: Log)
        ensures
            log@ == (LogView {
                id: id@,
                meta: MetadataView {
                    revision: 0,
                    version: 0,
                    author: author@,
                    created: created@,
                },
                text: text@,
            }),
    {
        Log { id, meta: Metadata::new_at(author, created), text }
    }

    /// A log entry as it was recorded.
    pub fn from_parts(id: EntryId, meta: Metadata, text: String) -> (log: Log)
        ensures
            log@ == (LogView { id: id@, meta: meta@, text: text@ }),
    {
        Log { id, meta, text }
    }

    pub fn id(&self) -> (id: EntryId)
        ensures
            id@ == self@.id,
    {
        self.id
    }

    pub fn meta(&self) -> (meta: &Metadata)
        ensures
            meta@ == self@.meta,
    {
        &self.meta
    }

    pub fn text(&self) -> (text: &str)
        ensures
            text@ == self@.text,
    {
        self.text.as_str()
    }
}

} // verus!
