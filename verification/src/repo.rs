//! What a storage engine offers to the service: three capabilities, one for
//! users, one for projects and one for log entries.
//!
//! A storage adapter implements all three. The contracts on the methods say
//! what the service relies on: an entity that was stored is handed back as
//! the request described it and as yet unchanged, a lookup finds what was
//! asked for, and a page of rows is no longer than the page that was
//! requested. Whether a request succeeds is for the storage engine to
//! decide. No capability checks that the identifiers in a request belong to
//! stored entities.
//!
//! Verus holds an adapter that is written in verified code to these
//! contracts. Of an adapter in ordinary Rust they are taken on trust.

use vstd::prelude::*;

use crate::entity::{Log, Project, User};
use crate::id::{ProjectId, UserId};
use crate::name::{ProjectName, Username};
use crate::pagination::{Page, Paged};

verus! {

/// Asks for a new user of the given name.
pub struct CreateAuthorRequest {
    pub username: Username,
}

/// Asks for a new project of the given name, owned by `owner`.
pub struct CreateProjectRequest {
    pub owner: UserId,
    pub project_name: ProjectName,
}

/// Asks for a new entry in the log of `project`, written by `author`.
pub struct CreateLogRequest {
    pub author: UserId,
    pub project: ProjectId,
    pub text: String,
}

/// The storage engine could not store a user; the message is its own.
#[derive(Debug, PartialEq, Eq)]
pub struct CreateAuthorError(pub String);

/// The storage engine could not store a project; the message is its own.
#[derive(Debug, PartialEq, Eq)]
pub struct CreateProjectError(pub String);

/// The storage engine could not store a log entry; the message is its own.
#[derive(Debug, PartialEq, Eq)]
pub struct CreateLogError(pub String);

/// The storage engine could not answer a query; the message is its own.
#[derive(Debug, PartialEq, Eq)]
pub struct RepoQueryError(pub String);

/// Storage of users.
pub trait AuthorRepository: Clone + Send + Sync + 'static {
    /// Stores a new user of the requested name and returns it.
    fn create_author(&self, request: CreateAuthorRequest) -> (res: Result<User, CreateAuthorError>)
        ensures
            res matches Ok(user) ==> user@.name == request.username@,
    ;

    /// The user of that name, if there is one.
    fn get_user_by_name(&self, username: &Username) -> (found: Option<User>)
        ensures
            found matches Some(user) ==> user@.name == username@,
    ;

    /// The user under that identifier, if there is one.
    fn get_user_by_id(&self, id: UserId) -> (found: Option<User>)
        ensures
            found matches Some(user) ==> user@.id == id@,
    ;

    /// One page of the users.
    fn list_users(&self, page: Page) -> (paged: Paged<User>)
        ensures
            paged.page == page.number(),
            paged.data@.len() <= page.page_size(),
    ;
}

/// Storage of projects.
pub trait ProjectRepository: Clone + Send + Sync + 'static {
    /// Stores a new project of the requested name and owner and returns it.
    fn create_project(&self, request: CreateProjectRequest) -> (res: Result<
        Project,
        CreateProjectError,
    >)
        ensures
            res matches Ok(project) ==> {
                &&& project@.name == request.project_name@
                &&& project@.meta.author == request.owner@
                &&& project@.meta.revision == 0
                &&& project@.meta.version == 0
            },
    ;

    /// The project of that name, if there is one.
    fn get_project_by_name(&self, name: &ProjectName) -> (found: Option<Project>)
        ensures
            found matches Some(project) ==> project@.name == name@,
    ;

    /// The project under that identifier, if there is one.
    fn get_project_by_id(&self, id: ProjectId) -> (found: Option<Project>)
        ensures
            found matches Some(project) ==> project@.id == id@,
    ;

    /// The projects that a user owns.
    fn list_user_projects(&self, id: UserId) -> (projects: Vec<Project>)
        ensures
            forall|i: int|
                0 <= i < projects@.len() ==> (#[trigger] projects@[i])@.meta.author == id@,
    ;
}

/// Storage of log entries.
pub trait LogRepository: Clone + Send + Sync + 'static {
    /// Stores a new entry of the requested text and author in the log of the
    /// requested project, and returns the entry.
    fn create_log(&self, request: CreateLogRequest) -> (res: Result<Log, CreateLogError>)
        ensures
            res matches Ok(log) ==> {
                &&& log@.text == request.text@
                &&& log@.meta.author == request.author@
                &&& log@.meta.revision == 0
                &&& log@.meta.version == 0
            },
    ;

    /// One page of the log of a project.
    fn list_project_logs(&self, project: ProjectId, page: Page) -> (res: Result<
        Paged<Log>,
        RepoQueryError,
    >)
        ensures
            res matches Ok(paged) ==> {
                &&& paged.page == page.number()
                &&& paged.data@.len() <= page.page_size()
            },
    ;
}

/// What a lookup by name may answer with: the user that was found, if it
/// bears the name that was asked for, and nobody otherwise.
pub fn user_named(found: Option<User>, username: &Username) -> (kept: Option<User>)
    ensures
        kept == (match found {
            Some(user) => if user@.name == username@ {
                found
            } else {
                None
            },
            None => None,
        }),
{
    match found {
        Some(user) => if user.name().same_as(username) {
            Some(user)
        } else {
            None
        },
        None => None,
    }
}

/// What a lookup by identifier may answer with: the user that was found, if
/// it has the identifier that was asked for, and nobody otherwise.
pub fn user_with_id(found: Option<User>, id: UserId) -> (kept: Option<User>)
    ensures
        kept == (match found {
            Some(user) => if user@.id == id@ {
                found
            } else {
                None
            },
            None => None,
        }),
{
    match found {
        Some(user) => if user.id().as_u128() == id.as_u128() {
            Some(user)
        } else {
            None
        },
        None => None,
    }
}

/// What a lookup by name may answer with: the project that was found, if it
/// bears the name that was asked for, and nothing otherwise.
pub fn project_named(found: Option<Project>, name: &ProjectName) -> (kept: Option<Project>)
    ensures
        kept == (match found {
            Some(project) => if project@.name == name@ {
                found
            } else {
                None
            },
            None => None,
        }),
{
    match found {
        Some(project) => if project.name().same_as(name) {
            Some(project)
        } else {
            None
        },
        None => None,
    }
}

/// What a lookup by identifier may answer with: the project that was found,
/// if it has the identifier that was asked for, and nothing otherwise.
pub fn project_with_id(found: Option<Project>, id: ProjectId) -> (kept: Option<Project>)
    ensures
        kept == (match found {
            Some(project) => if project@.id == id@ {
                found
            } else {
                None
            },
            None => None,
        }),
{
    match found {
        Some(project) => if project.id().as_u128() == id.as_u128() {
            Some(project)
        } else {
            None
        },
        None => None,
    }
}

/// Whether a project is owned by the user of that raw identifier.
pub open spec fn is_owned_by(owner: u128) -> spec_fn(Project) -> bool {
    |project: Project| project@.meta.author == owner
}

/// What a listing of a user's projects may answer with: of the projects that
/// were found, those that the user owns, in their order.
pub fn owned_by(projects: Vec<Project>, owner: UserId) -> (kept: Vec<Project>)
    ensures
        kept@ == projects@.filter(is_owned_by(owner@)),
        forall|i: int| 0 <= i < kept@.len() ==> (#[trigger] kept@[i])@.meta.author == owner@,
{
    let ghost all = projects@;
    let mut kept: Vec<Project> = Vec::new();
    for project in found: projects
        invariant
            found.seq() == all,
            kept@ == all.take(found.index() as int).filter(is_owned_by(owner@)),
    {
        proof {
            let upto = all.take(found.index() + 1);
            assert(upto.drop_last() == all.take(found.index() as int));
            assert(upto.last() == project);
            reveal(Seq::filter);
        }
        if project.meta().author().as_u128() == owner.as_u128() {
            kept.push(project);
        }
    }
    proof {
        assert(all.take(all.len() as int) == all);
        assert forall|i: int| 0 <= i < kept@.len() implies (#[trigger] kept@[i])@.meta.author
            == owner@ by {
            all.lemma_filter_pred(is_owned_by(owner@), i);
        }
    }
    kept
}

} // verus!
