//! The search for repositories below a directory.

pub mod discover;
pub mod rules;
pub mod tree;

pub use discover::{scan_repositories, RepositoryScanner};
pub use rules::should_skip_dir;
