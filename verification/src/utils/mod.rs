//! Helpers that do not belong to one component.

pub mod path;

pub use path::{get_repo_name, normalize_path, parent_path, path_to_string};
