//! The service: one face for the three storage capabilities, and one error
//! type for all that can go wrong behind it.
//!
//! Every operation is a single exchange with the storage engine. The service
//! builds the request, hands it over, and passes the answer on; a failure of
//! the storage engine becomes [`LogServiceError::TechnicalError`] with the
//! engine's message. Nothing is checked before the hand-over and nothing is
//! tried twice.

use vstd::prelude::*;
use vstd::std_specs::convert::FromSpecImpl;

use crate::entity::{Log, LogView, Project, User};
use crate::id::{ProjectId, UserId};
use crate::name::{InvalidProjectName, InvalidUsername, ProjectName, Username};
use crate::pagination::{rows_at, Page, Paged};
use crate::repo::{
    AuthorRepository, CreateAuthorError, CreateAuthorRequest, CreateLogError, CreateLogRequest,
    CreateProjectError, CreateProjectRequest, LogRepository, ProjectRepository, RepoQueryError,
};

verus! {

/// What a service operation can fail with.
#[derive(Debug)]
pub enum LogServiceError {
    ProjectNotFound,
    ProjectExists,
    UserNotFound,
    UserExists,
    /// The user may not read the project.
    NoReadAccess(Username, ProjectName),
    /// The user may not write to the project.
    NoWriteAccess(Username, ProjectName),
    InvalidUsername(InvalidUsername),
    InvalidProjectName(InvalidProjectName),
    /// The storage engine failed; this is its message.
    TechnicalError(String),
}

impl From<InvalidUsername> for LogServiceError {
    fn from(value: InvalidUsername) -> (e: LogServiceError) {
        LogServiceError::InvalidUsername(value)
    }
}

impl FromSpecImpl<InvalidUsername> for LogServiceError {
    open spec fn obeys_from_spec() -> bool {
        true
    }

    open spec fn from_spec(value: InvalidUsername) -> LogServiceError {
        LogServiceError::InvalidUsername(value)
    }
}

impl From<InvalidProjectName> for LogServiceError {
    fn from(value: InvalidProjectName) -> (e: LogServiceError) {
        LogServiceError::InvalidProjectName(value)
    }
}

impl FromSpecImpl<InvalidProjectName> for LogServiceError {
    open spec fn obeys_from_spec() -> bool {
        true
    }

    open spec fn from_spec(value: InvalidProjectName) -> LogServiceError {
        LogServiceError::InvalidProjectName(value)
    }
}

impl From<CreateAuthorError> for LogServiceError {
    fn from(value: CreateAuthorError) -> (e: LogServiceError) {
        LogServiceError::TechnicalError(value.0)
    }
}

impl FromSpecImpl<CreateAuthorError> for LogServiceError {
    open spec fn obeys_from_spec() -> bool {
        true
    }

    open spec fn from_spec(value: CreateAuthorError) -> LogServiceError {
        LogServiceError::TechnicalError(value.0)
    }
}

impl From<CreateProjectError> for LogServiceError {
    fn from(value: CreateProjectError) -> (e: LogServiceError) {
        LogServiceError::TechnicalError(value.0)
    }
}

impl FromSpecImpl<CreateProjectError> for LogServiceError {
    open spec fn obeys_from_spec() -> bool {
        true
    }

    open spec fn from_spec(value: CreateProjectError) -> LogServiceError {
        LogServiceError::TechnicalError(value.0)
    }
}

impl From<CreateLogError> for LogServiceError {
    fn from(value: CreateLogError) -> (e: LogServiceError) {
        LogServiceError::TechnicalError(value.0)
    }
}

impl FromSpecImpl<CreateLogError> for LogServiceError {
    open spec fn obeys_from_spec() -> bool {
        true
    }

    open spec fn from_spec(value: CreateLogError) -> LogServiceError {
        LogServiceError::TechnicalError(value.0)
    }
}

impl From<RepoQueryError> for LogServiceError {
    fn from(value: RepoQueryError) -> (e: LogServiceError) {
        LogServiceError::TechnicalError(value.0)
    }
}

impl FromSpecImpl<RepoQueryError> for LogServiceError {
    open spec fn obeys_from_spec() -> bool {
        true
    }

    open spec fn from_spec(value: RepoQueryError) -> LogServiceError {
        LogServiceError::TechnicalError(value.0)
    }
}

/// The answer of the service to a request for a new user, given the answer
/// of the storage engine: the user, or the engine's failure as a technical
/// error with the engine's message.
pub open spec fn lifted_user(outcome: Result<User, CreateAuthorError>) -> Result<
    User,
    LogServiceError,
> {
    match outcome {
        Ok(user) => Ok(user),
        Err(e) => Err(LogServiceError::TechnicalError(e.0)),
    }
}

/// The answer of the service to a request for a new project, given the answer
/// of the storage engine.
pub open spec fn lifted_project(outcome: Result<Project, CreateProjectError>) -> Result<
    Project,
    LogServiceError,
> {
    match outcome {
        Ok(project) => Ok(project),
        Err(e) => Err(LogServiceError::TechnicalError(e.0)),
    }
}

/// The answer of the service to a request for a new log entry, given the
/// answer of the storage engine.
pub open spec fn lifted_log(outcome: Result<Log, CreateLogError>) -> Result<Log, LogServiceError> {
    match outcome {
        Ok(log) => Ok(log),
        Err(e) => Err(LogServiceError::TechnicalError(e.0)),
    }
}

/// The answer of the service to a query for a page of a log, given the answer
/// of the storage engine.
pub open spec fn lifted_logs(outcome: Result<Paged<Log>, RepoQueryError>) -> Result<
    Paged<Log>,
    LogServiceError,
> {
    match outcome {
        Ok(paged) => Ok(paged),
        Err(e) => Err(LogServiceError::TechnicalError(e.0)),
    }
}

/// Turns the storage engine's answer to a request for a new user into the
/// answer of the service.
pub fn lift_created_user(outcome: Result<User, CreateAuthorError>) -> (res: Result<
    User,
    LogServiceError,
>)
    ensures
        res == lifted_user(outcome),
{
    match outcome {
        Ok(user) => Ok(user),
        Err(e) => Err(LogServiceError::from(e)),
    }
}

/// Turns the storage engine's answer to a request for a new project into the
/// answer of the service.
pub fn lift_created_project(outcome: Result<Project, CreateProjectError>) -> (res: Result<
    Project,
    LogServiceError,
>)
    ensures
        res == lifted_project(outcome),
{
    match outcome {
        Ok(project) => Ok(project),
        Err(e) => Err(LogServiceError::from(e)),
    }
}

/// Turns the storage engine's answer to a request for a new log entry into
/// the answer of the service.
pub fn lift_created_log(outcome: Result<Log, CreateLogError>) -> (res: Result<Log, LogServiceError>)
    ensures
        res == lifted_log(outcome),
{
    match outcome {
        Ok(log) => Ok(log),
        Err(e) => Err(LogServiceError::from(e)),
    }
}

/// Turns the storage engine's answer to a query for a page of a log into the
/// answer of the service.
pub fn lift_listed_logs(outcome: Result<Paged<Log>, RepoQueryError>) -> (res: Result<
    Paged<Log>,
    LogServiceError,
>)
    ensures
        res == lifted_logs(outcome),
{
    match outcome {
        Ok(paged) => Ok(paged),
        Err(e) => Err(LogServiceError::from(e)),
    }
}

/// The operations of the log book.
pub trait LocalLogStoreService {
    /// Registers a user of the given name.
    fn new_user(&self, username: Username) -> (res: Result<User, LogServiceError>)
        ensures
            res matches Ok(user) ==> user@.name == username@,
            res matches Err(e) ==> e is TechnicalError,
    ;

    /// Creates a project of the given name, owned by `owner`.
    fn new_project(&self, name: ProjectName, owner: UserId) -> (res: Result<
        Project,
        LogServiceError,
    >)
        ensures
            res matches Ok(project) ==> {
                &&& project@.name == name@
                &&& project@.meta.author == owner@
                &&& project@.meta.revision == 0
                &&& project@.meta.version == 0
            },
            res matches Err(e) ==> e is TechnicalError,
    ;

    /// Adds an entry to the log of a project.
    fn add_log(&self, by_user: UserId, on_project: ProjectId, text: String) -> (res: Result<
        Log,
        LogServiceError,
    >)
        ensures
            res matches Ok(log) ==> {
                &&& log@.text == text@
                &&& log@.meta.author == by_user@
                &&& log@.meta.revision == 0
                &&& log@.meta.version == 0
            },
            res matches Err(e) ==> e is TechnicalError,
    ;

    /// One page of the log of a project.
    fn logs(&self, project: ProjectId, page: Page) -> (res: Result<Paged<Log>, LogServiceError>)
        ensures
            res matches Ok(paged) ==> {
                &&& paged.page == page.number()
                &&& paged.data@.len() <= page.page_size()
            },
            res matches Err(e) ==> e is TechnicalError,
    ;

    /// The projects that a user owns.
    fn projects_of(&self, user: UserId) -> (projects: Vec<Project>)
        ensures
            forall|i: int|
                0 <= i < projects@.len() ==> (#[trigger] projects@[i])@.meta.author == user@,
    ;

    /// One page of the users.
    fn list_users(&self, page: Page) -> (paged: Paged<User>)
        ensures
            paged.page == page.number(),
            paged.data@.len() <= page.page_size(),
    ;
}

/// The log book over a storage engine that offers all three capabilities.
#[derive(Debug)]
pub struct LogService<R> where R: AuthorRepository + ProjectRepository + LogRepository {
    repo: R,
}

impl<R> LogService<R> where R: AuthorRepository + ProjectRepository + LogRepository {
    /// The storage engine behind the service.
    pub closed spec fn repo(&self) -> R {
        self.repo
    }

    pub fn new(repo: R) -> (service: LogService<R>)
        ensures
            service.repo() == repo,
    {
        Self { repo }
    }
}

impl<R> Clone for LogService<R> where R: AuthorRepository + ProjectRepository + LogRepository {
    /// A service over a clone of the storage handle.
    fn clone(&self) -> (service: LogService<R>)
        ensures
            cloned(self.repo(), service.repo()),
    {
        LogService { repo: self.repo.clone() }
    }
}

impl<R> LocalLogStoreService for LogService<R> where
    R: AuthorRepository + ProjectRepository + LogRepository,
{
    /// The storage engine is asked for a user of that name, and its answer
    /// is handed on, a failure as a technical error.
    fn new_user(&self, username: Username) -> (res: Result<User, LogServiceError>)
        ensures
            exists|outcome: Result<User, CreateAuthorError>| #[trigger]
                call_ensures(
                    R::create_author,
                    (&self.repo(), (CreateAuthorRequest { username })),
                    outcome,
                ) && res == lifted_user(outcome),
    {
        let request = CreateAuthorRequest { username };
        let outcome = self.repo.create_author(request);
        let ghost answered = outcome;
        let res = lift_created_user(outcome);
        proof {
            assert(call_ensures(
                R::create_author,
                (&self.repo(), (CreateAuthorRequest { username })),
                answered,
            ));
            assert(res == lifted_user(answered));
        }
        res
    }

    /// The storage engine is asked for a project of that name and owner, and
    /// its answer is handed on, a failure as a technical error.
    fn new_project(&self, name: ProjectName, owner: UserId) -> (res: Result<
        Project,
        LogServiceError,
    >)
        ensures
            exists|outcome: Result<Project, CreateProjectError>| #[trigger]
                call_ensures(
                    R::create_project,
                    (&self.repo(), (CreateProjectRequest { owner, project_name: name })),
                    outcome,
                ) && res == lifted_project(outcome),
    {
        let request = CreateProjectRequest { owner, project_name: name };
        let outcome = self.repo.create_project(request);
        let ghost answered = outcome;
        let res = lift_created_project(outcome);
        proof {
            assert(call_ensures(
                R::create_project,
                (&self.repo(), (CreateProjectRequest { owner, project_name: name })),
                answered,
            ));
            assert(res == lifted_project(answered));
        }
        res
    }

    /// The storage engine is asked for an entry of that text and author in
    /// the log of that project, and its answer is handed on, a failure as a
    /// technical error.
    fn add_log(&self, by_user: UserId, on_project: ProjectId, text: String) -> (res: Result<
        Log,
        LogServiceError,
    >)
        ensures
            exists|outcome: Result<Log, CreateLogError>| #[trigger]
                call_ensures(
                    R::create_log,
                    (
                        &self.repo(),
                        (CreateLogRequest { author: by_user, project: on_project, text }),
                    ),
                    outcome,
                ) && res == lifted_log(outcome),
    {
        let request = CreateLogRequest { author: by_user, project: on_project, text };
        let outcome = self.repo.create_log(request);
        let ghost answered = outcome;
        let res = lift_created_log(outcome);
        proof {
            assert(call_ensures(
                R::create_log,
                (
                    &self.repo(),
                    (CreateLogRequest { author: by_user, project: on_project, text }),
                ),
                answered,
            ));
            assert(res == lifted_log(answered));
        }
        res
    }

    /// The storage engine is asked for that page of the log of that project,
    /// and its answer is handed on, a failure as a technical error.
    fn logs(&self, project: ProjectId, page: Page) -> (res: Result<Paged<Log>, LogServiceError>)
        ensures
            exists|outcome: Result<Paged<Log>, RepoQueryError>| #[trigger]
                call_ensures(R::list_project_logs, (&self.repo(), project, page), outcome) && res
                    == lifted_logs(outcome),
    {
        let outcome = self.repo.list_project_logs(project, page);
        let ghost answered = outcome;
        let res = lift_listed_logs(outcome);
        proof {
            assert(call_ensures(R::list_project_logs, (&self.repo(), project, page), answered));
            assert(res == lifted_logs(answered));
        }
        res
    }

    /// The answer is the one that the storage engine gives to
    /// [`ProjectRepository::list_user_projects`] for this user.
    fn projects_of(&self, user: UserId) -> (projects: Vec<Project>)
        ensures
            call_ensures(R::list_user_projects, (&self.repo(), user), projects),
    {
        self.repo.list_user_projects(user)
    }

    /// The answer is the one that the storage engine gives to
    /// [`AuthorRepository::list_users`] for this page.
    fn list_users(&self, page: Page) -> (paged: Paged<User>)
        ensures
            call_ensures(R::list_users, (&self.repo(), page), paged),
    {
        self.repo.list_users(page)
    }
}

/// The records of a list of log entries, in their order.
pub open spec fn records_of(logs: Seq<Log>) -> Seq<LogView> {
    logs.map_values(|log: Log| log@)
}

/// Whether a storage engine lists what it stores: whatever it answers when
/// it is asked for page `page` of the log of `project`, it answers with the
/// rows of that page out of `stored`, the entries of the log in the order in
/// which they were stored.
pub open spec fn lists_what_is_stored<R: LogRepository>(
    repo: R,
    project: ProjectId,
    page: Page,
    stored: Seq<LogView>,
) -> bool {
    forall|outcome: Result<Paged<Log>, RepoQueryError>| #[trigger]
        call_ensures(R::list_project_logs, (&repo, project, page), outcome) ==> {
            &&& outcome matches Ok(paged)
            &&& records_of(paged.data@) == rows_at(
                stored,
                page.spec_offset(),
                page.page_size() as nat,
            )
        }
}

/// Whether `listed` is an answer of [`LocalLogStoreService::logs`] of the
/// service for that project and page: an answer of the storage engine,
/// handed on.
pub open spec fn is_listing_of<R: AuthorRepository + ProjectRepository + LogRepository>(
    service: LogService<R>,
    project: ProjectId,
    page: Page,
    listed: Result<Paged<Log>, LogServiceError>,
) -> bool {
    exists|outcome: Result<Paged<Log>, RepoQueryError>| #[trigger]
        call_ensures(R::list_project_logs, (&service.repo(), project, page), outcome) && listed
            == lifted_logs(outcome)
}

/// An entry that was added to a log is found on the first page of that log,
/// as its last entry. This holds of a storage engine that lists what it
/// stores, for a log that held fewer entries than a page has rows when the
/// entry `added` was stored behind the entries `stored`: the service then
/// answers with page one, and the page holds the records of `stored` and of
/// `added`, in that order. Of a log that has never been written to, the page
/// holds the one entry. Once the first page is full, a new entry lies on a
/// later page.
pub proof fn lemma_added_entry_is_listed<R: AuthorRepository + ProjectRepository + LogRepository>(
    service: LogService<R>,
    project: ProjectId,
    page: Page,
    stored: Seq<LogView>,
    added: LogView,
    listed: Result<Paged<Log>, LogServiceError>,
)
    requires
        page.number() == 1,
        stored.len() < page.page_size(),
        lists_what_is_stored(service.repo(), project, page, stored.push(added)),
        is_listing_of(service, project, page, listed),
    ensures
        listed matches Ok(paged) && paged.page == 1 && records_of(paged.data@) == stored.push(
            added,
        ),
        listed matches Ok(paged) ==> exists|i: int|
            0 <= i < paged.data@.len() && (#[trigger] paged.data@[i])@ == added,
{
    let outcome = choose|outcome: Result<Paged<Log>, RepoQueryError>| #[trigger]
        call_ensures(R::list_project_logs, (&service.repo(), project, page), outcome) && listed
            == lifted_logs(outcome);
    let all = stored.push(added);
    assert(rows_at(all, page.spec_offset(), page.page_size() as nat) == all);
    match outcome {
        Ok(paged) => {
            assert(records_of(paged.data@).len() == paged.data@.len());
            let last = paged.data@.len() - 1;
            assert(records_of(paged.data@)[last] == paged.data@[last]@);
        },
        Err(_) => {},
    }
}

} // verus!
