//! Management of many local git working trees: repository state, synchronisation
//! with a remote, and a bounded, safety-gated search for repositories.

pub mod error;
pub mod git;
pub mod models;
pub mod parallel;
pub mod scanner;
pub mod text;
pub mod utils;
