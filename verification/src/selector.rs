//! Naming a user or a project on a command line: by identifier or by name.
//!
//! A text is read as an identifier where it is one, and as a name otherwise.
//! A selector that holds an identifier needs no lookup; one that holds a
//! name is resolved by the storage engine.

use vstd::prelude::*;
use vstd::string::StringExecFns;

use crate::entity::{Project, User};
use crate::id::{parsed_uuid, validated_parse, ProjectId, UserId};
use crate::name::{valid_project_name, valid_username, ProjectName, Username};
use crate::repo::{AuthorRepository, ProjectRepository};

verus! {

/// A user, named by identifier or by username. Reading a text fills exactly
/// one of the two.
#[derive(Debug)]
pub struct UserIdOrName {
    pub id: Option<UserId>,
    pub name: Option<Username>,
}

impl Clone for UserIdOrName {
    fn clone(&self) -> (selector: UserIdOrName)
        ensures
            selector.id == self.id,
            self.name is None <==> selector.name is None,
            self.name matches Some(name) ==> selector.name matches Some(copy) && copy@ == name@,
    {
        let name = match &self.name {
            Some(name) => Some(name.clone()),
            None => None,
        };
        UserIdOrName { id: self.id, name }
    }
}

impl UserIdOrName {
    /// Whether the selector holds the identifier `raw` and no name.
    pub open spec fn holds_id(self, raw: u128) -> bool {
        &&& self.name is None
        &&& self.id matches Some(id)
        &&& id@ == raw
    }

    /// Whether the selector holds the name `text` and no identifier.
    pub open spec fn holds_name(self, text: Seq<char>) -> bool {
        &&& self.id is None
        &&& self.name matches Some(name)
        &&& name@ == text
    }

    /// Reads a text as the identifier of a user or, where it is none, as a
    /// username.
    pub fn parse(s: &str) -> (res: Result<UserIdOrName, String>)
        ensures
            match validated_parse(parsed_uuid(s@)) {
                Ok(raw) => res matches Ok(selector) && selector.holds_id(raw),
                Err(_) => if valid_username(s@) {
                    res matches Ok(selector) && selector.holds_name(s@)
                } else {
                    res matches Err(message) && message@ == "not an id not a name"@
                },
            },
    {
        match UserId::parse(s) {
            Ok(id) => Ok(UserIdOrName { id: Some(id), name: None }),
            Err(_) => match Username::parse(s) {
                Ok(name) => Ok(UserIdOrName { id: None, name: Some(name) }),
                Err(_) => Err(String::from_str("not an id not a name")),
            },
        }
    }
}

impl core::str::FromStr for UserIdOrName {
    type Err = String;

    /// Reads a text as [`UserIdOrName::parse`] does.
    fn from_str(s: &str) -> (res: Result<UserIdOrName, String>)
        ensures
            match validated_parse(parsed_uuid(s@)) {
                Ok(raw) => res matches Ok(selector) && selector.holds_id(raw),
                Err(_) => if valid_username(s@) {
                    res matches Ok(selector) && selector.holds_name(s@)
                } else {
                    res matches Err(message) && message@ == "not an id not a name"@
                },
            },
    {
        UserIdOrName::parse(s)
    }
}

/// A project, named by identifier or by project name. Reading a text fills
/// exactly one of the two.
#[derive(Debug)]
pub struct ProjectIdOrName {
    pub id: Option<ProjectId>,
    pub name: Option<ProjectName>,
}

impl Clone for ProjectIdOrName {
    fn clone(&self) -> (selector: ProjectIdOrName)
        ensures
            selector.id == self.id,
            self.name is None <==> selector.name is None,
            self.name matches Some(name) ==> selector.name matches Some(copy) && copy@ == name@,
    {
        let name = match &self.name {
            Some(name) => Some(name.clone()),
            None => None,
        };
        ProjectIdOrName { id: self.id, name }
    }
}

impl ProjectIdOrName {
    /// Whether the selector holds the identifier `raw` and no name.
    pub open spec fn holds_id(self, raw: u128) -> bool {
        &&& self.name is None
        &&& self.id matches Some(id)
        &&& id@ == raw
    }

    /// Whether the selector holds the name `text` and no identifier.
    pub open spec fn holds_name(self, text: Seq<char>) -> bool {
        &&& self.id is None
        &&& self.name matches Some(name)
        &&& name@ == text
    }

    /// Reads a text as the identifier of a project or, where it is none, as a
    /// project name.
    pub fn parse(s: &str) -> (res: Result<ProjectIdOrName, String>)
        ensures
            match validated_parse(parsed_uuid(s@)) {
                Ok(raw) => res matches Ok(selector) && selector.holds_id(raw),
                Err(_) => if valid_project_name(s@) {
                    res matches Ok(selector) && selector.holds_name(s@)
                } else {
                    res matches Err(message) && message@ == "not an id nor a valid name"@
                },
            },
    {
        match ProjectId::parse(s) {
            Ok(id) => Ok(ProjectIdOrName { id: Some(id), name: None }),
            Err(_) => match ProjectName::parse(s) {
                Ok(name) => Ok(ProjectIdOrName { id: None, name: Some(name) }),
                Err(_) => Err(String::from_str("not an id nor a valid name")),
            },
        }
    }
}

impl core::str::FromStr for ProjectIdOrName {
    type Err = String;

    /// Reads a text as [`ProjectIdOrName::parse`] does.
    fn from_str(s: &str) -> (res: Result<ProjectIdOrName, String>)
        ensures
            match validated_parse(parsed_uuid(s@)) {
                Ok(raw) => res matches Ok(selector) && selector.holds_id(raw),
                Err(_) => if valid_project_name(s@) {
                    res matches Ok(selector) && selector.holds_name(s@)
                } else {
                    res matches Err(message) && message@ == "not an id nor a valid name"@
                },
            },
    {
        ProjectIdOrName::parse(s)
    }
}

/// Whether `id` is the identifier of the user that a lookup found, or none
/// where it found none.
pub open spec fn is_id_of_user(id: Option<UserId>, found: Option<User>) -> bool {
    match found {
        Some(user) => id matches Some(i) && i@ == user@.id,
        None => id is None,
    }
}

/// Whether `id` is the identifier of the project that a lookup found, or
/// none where it found none.
pub open spec fn is_id_of_project(id: Option<ProjectId>, found: Option<Project>) -> bool {
    match found {
        Some(project) => id matches Some(i) && i@ == project@.id,
        None => id is None,
    }
}

/// The identifier of the user that a lookup found, if it found one.
pub fn found_user_id(found: Option<User>) -> (id: Option<UserId>)
    ensures
        is_id_of_user(id, found),
{
    match found {
        Some(user) => Some(user.id()),
        None => None,
    }
}

/// The identifier of the project that a lookup found, if it found one.
pub fn found_project_id(found: Option<Project>) -> (id: Option<ProjectId>)
    ensures
        is_id_of_project(id, found),
{
    match found {
        Some(project) => Some(project.id()),
        None => None,
    }
}

/// The identifier of the user that a selector names: the identifier it
/// holds or, where it holds only a name, that of the user whom the storage
/// engine finds under that name. A selector that holds neither names nobody.
pub fn get_user_id<R: AuthorRepository>(selector: UserIdOrName, repo: &R) -> (found: Option<UserId>)
    ensures
        selector.id matches Some(id) ==> found == Some(id),
        selector.id is None && selector.name is None ==> found is None,
        selector.id is None && selector.name is Some ==> exists|user: Option<User>| #[trigger]
            call_ensures(R::get_user_by_name, (repo, &selector.name->0), user) && is_id_of_user(
                found,
                user,
            ),
{
    match (selector.id, selector.name) {
        (Some(id), _) => Some(id),
        (_, Some(name)) => {
            let user = repo.get_user_by_name(&name);
            let ghost answered = user;
            let found = found_user_id(user);
            proof {
                assert(call_ensures(R::get_user_by_name, (repo, &name), answered));
                assert(is_id_of_user(found, answered));
            }
            found
        },
        (_, _) => None,
    }
}

/// The identifier of the project that a selector names: the identifier it
/// holds or, where it holds only a name, that of the project that the
/// storage engine finds under that name. A selector that holds neither names
/// nothing.
pub fn get_project_id<R: ProjectRepository>(selector: ProjectIdOrName, repo: &R) -> (found: Option<
    ProjectId,
>)
    ensures
        selector.id matches Some(id) ==> found == Some(id),
        selector.id is None && selector.name is None ==> found is None,
        selector.id is None && selector.name is Some ==> exists|project: Option<Project>| #[trigger]
            call_ensures(R::get_project_by_name, (repo, &selector.name->0), project)
                && is_id_of_project(found, project),
{
    match (selector.id, selector.name) {
        (Some(id), _) => Some(id),
        (_, Some(name)) => {
            let project = repo.get_project_by_name(&name);
            let ghost answered = project;
            let found = found_project_id(project);
            proof {
                assert(call_ensures(R::get_project_by_name, (repo, &name), answered));
                assert(is_id_of_project(found, answered));
            }
            found
        },
        (_, _) => None,
    }
}

} // verus!
