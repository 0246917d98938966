//! Domain core of a project log book: identifiers, validated names,
//! entities with audit metadata, pagination, storage capabilities and the
//! service that composes them.

mod clock;
pub mod config;
pub mod entity;
pub mod id;
pub mod name;
pub mod pagination;
pub mod record;
pub mod repo;
pub mod selector;
pub mod service;

pub use config::{Config, Database};
pub use entity::{Date, Log, Metadata, Project, Revision, User, Version};
pub use id::{EntryId, ModelError, ProjectId, Timestamp, UserId};
pub use name::{InvalidProjectName, InvalidUsername, ProjectName, Username};
pub use pagination::{Page, PageArgs, Paged, Paginable, PreconditionViolation};
pub use record::{LogRow, ProjectRow, RowError, UserRow};
pub use repo::{
    AuthorRepository, CreateAuthorError, CreateAuthorRequest, CreateLogError, CreateLogRequest,
    CreateProjectError, CreateProjectRequest, LogRepository, ProjectRepository, RepoQueryError,
};
pub use selector::{ProjectIdOrName, UserIdOrName};
pub use service::{LocalLogStoreService, LogService, LogServiceError};
