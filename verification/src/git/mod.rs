//! Operations on one repository, and on many at once.

pub mod backend;
pub mod batch;
pub mod credentials;
pub mod info;
pub mod message;
pub mod repository;
pub mod status;
pub mod sync;

pub use batch::{
    commit_multiple_repositories, discard_multiple_repositories, fetch_multiple_repositories,
    get_multiple_repository_info, pull_multiple_repositories, push_multiple_repositories,
};
pub use repository::{
    commit_repository, discard_repository_changes, fetch_repository, get_repository_info,
    get_repository_status, pull_repository, push_repository, GitRepository,
};
