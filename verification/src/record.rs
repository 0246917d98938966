//! The rows that a storage engine keeps: one kind for users, one for
//! projects, one for log entries.
//!
//! A row holds plain values. An entity is written as the row of the same
//! view, and a row is read back as an entity only if its identifiers and its
//! name are valid, so that what was stored by another hand cannot enter the
//! library unchecked. A row that was written from an entity reads back as
//! that entity.

use vstd::prelude::*;
use vstd::string::StringExecFns;

use crate::entity::{
    Date, Log, LogView, Metadata, MetadataView, Project, ProjectView, User, UserView, Version,
};
use crate::id::{is_valid_id, EntryId, ModelError, ProjectId, UserId};
use crate::name::{
    length_flaw, valid_project_name, valid_username, InvalidProjectName, InvalidUsername,
    ProjectName, Username, PROJECT_NAME_MIN, USERNAME_MIN,
};

verus! {

/// Why a row is no entity.
#[derive(Debug, PartialEq, Eq)]
pub enum RowError {
    /// An identifier in the row is none of this scheme.
    Id(ModelError),
    /// The name in the row is no username.
    Username(InvalidUsername),
    /// The name in the row is no project name.
    ProjectName(InvalidProjectName),
}

/// The row of a user.
#[derive(Debug, PartialEq, Eq)]
pub struct UserRow {
    pub id: u128,
    pub name: String,
}

impl View for UserRow {
    type V = UserView;

    open spec fn view(&self) -> UserView {
        UserView { id: self.id, name: self.name@ }
    }
}

/// The row of a project.
#[derive(Debug, PartialEq, Eq)]
pub struct ProjectRow {
    pub id: u128,
    pub author: u128,
    pub created: i64,
    pub version: i16,
    pub revision: i16,
    pub name: String,
}

impl View for ProjectRow {
    type V = ProjectView;

    open spec fn view(&self) -> ProjectView {
        ProjectView {
            id: self.id,
            meta: MetadataView {
                revision: self.revision,
                version: self.version,
                author: self.author,
                created: self.created,
            },
            name: self.name@,
        }
    }
}

/// The row of a log entry. The project of the entry is kept beside the row.
#[derive(Debug, PartialEq, Eq)]
pub struct LogRow {
    pub id: u128,
    pub author: u128,
    pub created: i64,
    pub version: i16,
    pub revision: i16,
    pub text: String,
}

impl View for LogRow {
    type V = LogView;

    open spec fn view(&self) -> LogView {
        LogView {
            id: self.id,
            meta: MetadataView {
                revision: self.revision,
                version: self.version,
                author: self.author,
                created: self.created,
            },
            text: self.text@,
        }
    }
}

/// Whether a row of that view is a user.
pub open spec fn valid_user_row(row: UserView) -> bool {
    is_valid_id(row.id) && valid_username(row.name)
}

/// Whether a row of that view is a project.
pub open spec fn valid_project_row(row: ProjectView) -> bool {
    is_valid_id(row.id) && is_valid_id(row.meta.author) && valid_project_name(row.name)
}

/// Whether a row of that view is a log entry.
pub open spec fn valid_log_row(row: LogView) -> bool {
    is_valid_id(row.id) && is_valid_id(row.meta.author)
}

/// Whether `e` says what is wrong with a row of that view that is no user:
/// the identifier where it is invalid, otherwise the name.
pub open spec fn is_user_row_flaw(row: UserView, e: RowError) -> bool {
    if !is_valid_id(row.id) {
        e == RowError::Id(ModelError::InvalidId)
    } else {
        &&& !valid_username(row.name)
        &&& e matches RowError::Username(flaw)
        &&& flaw.0@ == row.name
        &&& flaw.1@ == length_flaw(row.name, USERNAME_MIN)
    }
}

/// Whether `e` says what is wrong with a row of that view that is no
/// project: an identifier where one is invalid, otherwise the name.
pub open spec fn is_project_row_flaw(row: ProjectView, e: RowError) -> bool {
    if !is_valid_id(row.id) || !is_valid_id(row.meta.author) {
        e == RowError::Id(ModelError::InvalidId)
    } else {
        &&& !valid_project_name(row.name)
        &&& e matches RowError::ProjectName(flaw)
        &&& flaw.0@ == row.name
        &&& flaw.1@ == length_flaw(row.name, PROJECT_NAME_MIN)
    }
}

/// Whether `e` says what is wrong with a row of that view that is no log
/// entry: one of its identifiers is invalid.
pub open spec fn is_log_row_flaw(row: LogView, e: RowError) -> bool {
    !valid_log_row(row) && e == RowError::Id(ModelError::InvalidId)
}

/// Reads the metadata of a row.
fn metadata_of(author: u128, created: i64, version: i16, revision: i16) -> (res: Result<
    Metadata,
    RowError,
>)
    ensures
        res is Ok <==> is_valid_id(author),
        res matches Ok(meta) ==> meta@ == (MetadataView { revision, version, author, created }),
        res matches Err(e) ==> e == RowError::Id(ModelError::InvalidId),
{
    match UserId::validate(author) {
        Ok(author) => Ok(
            Metadata::from_parts(revision, Version(version), author, Date::from_nanos(created)),
        ),
        Err(e) => Err(RowError::Id(e)),
    }
}

impl UserRow {
    /// The row that is written for a user.
    pub fn of(user: &User) -> (row: UserRow)
        ensures
            row@ == user@,
            valid_user_row(row@),
    {
        let name = user.name();
        UserRow { id: user.id().as_u128(), name: String::from_str(name.as_str()) }
    }

    /// The user that the row describes.
    pub fn to_user(&self) -> (res: Result<User, RowError>)
        ensures
            res is Ok <==> valid_user_row(self@),
            res matches Ok(user) ==> user@ == self@,
            res matches Err(e) ==> is_user_row_flaw(self@, e),
    {
        let id = match UserId::validate(self.id) {
            Ok(id) => id,
            Err(e) => {
                return Err(RowError::Id(e));
            },
        };
        match Username::parse(self.name.as_str()) {
            Ok(name) => Ok(User::from_parts(id, name)),
            Err(e) => Err(RowError::Username(e)),
        }
    }
}

impl ProjectRow {
    /// The row that is written for a project.
    pub fn of(project: &Project) -> (row: ProjectRow)
        ensures
            row@ == project@,
            valid_project_row(row@),
    {
        let meta = project.meta();
        let name = project.name();
        ProjectRow {
            id: project.id().as_u128(),
            author: meta.author().as_u128(),
            created: meta.created().as_i64(),
            version: meta.version().0,
            revision: meta.revision(),
            name: String::from_str(name.as_str()),
        }
    }

    /// The project that the row describes.
    pub fn to_project(&self) -> (res: Result<Project, RowError>)
        ensures
            res is Ok <==> valid_project_row(self@),
            res matches Ok(project) ==> project@ == self@,
            res matches Err(e) ==> is_project_row_flaw(self@, e),
    {
        let id = match ProjectId::validate(self.id) {
            Ok(id) => id,
            Err(e) => {
                return Err(RowError::Id(e));
            },
        };
        let meta = match metadata_of(self.author, self.created, self.version, self.revision) {
            Ok(meta) => meta,
            Err(e) => {
                return Err(e);
            },
        };
        match ProjectName::parse(self.name.as_str()) {
            Ok(name) => Ok(Project::from_parts(id, meta, name)),
            Err(e) => Err(RowError::ProjectName(e)),
        }
    }
}

impl LogRow {
    /// The row that is written for a log entry.
    pub fn of(log: &Log) -> (row: LogRow)
        ensures
            row@ == log@,
            valid_log_row(row@),
    {
        let meta = log.meta();
        LogRow {
            id: log.id().as_u128(),
            author: meta.author().as_u128(),
            created: meta.created().as_i64(),
            version: meta.version().0,
            revision: meta.revision(),
            text: String::from_str(log.text()),
        }
    }

    /// The log entry that the row describes.
    pub fn to_log(&self) -> (res: Result<Log, RowError>)
        ensures
            res is Ok <==> valid_log_row(self@),
            res matches Ok(log) ==> log@ == self@,
            res matches Err(e) ==> is_log_row_flaw(self@, e),
    {
        let id = match EntryId::validate(self.id) {
            Ok(id) => id,
            Err(e) => {
                return Err(RowError::Id(e));
            },
        };
        match metadata_of(self.author, self.created, self.version, self.revision) {
            Ok(meta) => Ok(Log::from_parts(id, meta, self.text.clone())),
            Err(e) => Err(e),
        }
    }
}

/// The users that the rows describe, in the order of the rows. One row that
/// is no user spoils the lot: the answer is then what is wrong with the first
/// such row.
pub fn users_of(rows: &Vec<UserRow>) -> (res: Result<Vec<User>, RowError>)
    ensures
        res is Ok <==> forall|i: int| 0 <= i < rows@.len() ==> valid_user_row(#[trigger] rows@[i]@),
        res matches Ok(users) ==> {
            &&& users@.len() == rows@.len()
            &&& forall|i: int| 0 <= i < rows@.len() ==> (#[trigger] users@[i])@ == rows@[i]@
        },
        res matches Err(e) ==> exists|k: int|
            {
                &&& 0 <= k < rows@.len()
                &&& is_user_row_flaw(#[trigger] rows@[k]@, e)
                &&& forall|j: int| 0 <= j < k ==> valid_user_row(#[trigger] rows@[j]@)
            },
{
    let mut users: Vec<User> = Vec::new();
    let mut at: usize = 0;
    while at < rows.len()
        invariant
            at <= rows@.len(),
            users@.len() == at,
            forall|i: int| 0 <= i < at ==> valid_user_row(#[trigger] rows@[i]@),
            forall|i: int| 0 <= i < at ==> (#[trigger] users@[i])@ == rows@[i]@,
        decreases rows@.len() - at,
    {
        match rows[at].to_user() {
            Ok(user) => users.push(user),
            Err(e) => {
                assert(is_user_row_flaw(rows@[at as int]@, e));
                return Err(e);
            },
        }
        at += 1;
    }
    Ok(users)
}

/// The projects that the rows describe, in the order of the rows. One row
/// that is no project spoils the lot: the answer is then what is wrong with
/// the first such row.
pub fn projects_of(rows: &Vec<ProjectRow>) -> (res: Result<Vec<Project>, RowError>)
    ensures
        res is Ok <==> forall|i: int|
            0 <= i < rows@.len() ==> valid_project_row(#[trigger] rows@[i]@),
        res matches Ok(projects) ==> {
            &&& projects@.len() == rows@.len()
            &&& forall|i: int| 0 <= i < rows@.len() ==> (#[trigger] projects@[i])@ == rows@[i]@
        },
        res matches Err(e) ==> exists|k: int|
            {
                &&& 0 <= k < rows@.len()
                &&& is_project_row_flaw(#[trigger] rows@[k]@, e)
                &&& forall|j: int| 0 <= j < k ==> valid_project_row(#[trigger] rows@[j]@)
            },
{
    let mut projects: Vec<Project> = Vec::new();
    let mut at: usize = 0;
    while at < rows.len()
        invariant
            at <= rows@.len(),
            projects@.len() == at,
            forall|i: int| 0 <= i < at ==> valid_project_row(#[trigger] rows@[i]@),
            forall|i: int| 0 <= i < at ==> (#[trigger] projects@[i])@ == rows@[i]@,
        decreases rows@.len() - at,
    {
        match rows[at].to_project() {
            Ok(project) => projects.push(project),
            Err(e) => {
                assert(is_project_row_flaw(rows@[at as int]@, e));
                return Err(e);
            },
        }
        at += 1;
    }
    Ok(projects)
}

/// The log entries that the rows describe, in the order of the rows. One row
/// that is no log entry spoils the lot.
pub fn logs_of(rows: &Vec<LogRow>) -> (res: Result<Vec<Log>, RowError>)
    ensures
        res is Ok <==> forall|i: int| 0 <= i < rows@.len() ==> valid_log_row(#[trigger] rows@[i]@),
        res matches Ok(logs) ==> {
            &&& logs@.len() == rows@.len()
            &&& forall|i: int| 0 <= i < rows@.len() ==> (#[trigger] logs@[i])@ == rows@[i]@
        },
        res matches Err(e) ==> e == RowError::Id(ModelError::InvalidId),
{
    let mut logs: Vec<Log> = Vec::new();
    let mut at: usize = 0;
    while at < rows.len()
        invariant
            at <= rows@.len(),
            logs@.len() == at,
            forall|i: int| 0 <= i < at ==> valid_log_row(#[trigger] rows@[i]@),
            forall|i: int| 0 <= i < at ==> (#[trigger] logs@[i])@ == rows@[i]@,
        decreases rows@.len() - at,
    {
        match rows[at].to_log() {
            Ok(log) => logs.push(log),
            Err(e) => {
                return Err(e);
            },
        }
        at += 1;
    }
    Ok(logs)
}

} // verus!
