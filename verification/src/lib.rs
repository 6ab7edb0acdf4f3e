//! Scaffolding of kata workspaces: the stacks and kinds of exercise on offer,
//! the numbering of day folders, the files each stack starts from, the session
//! that remembers the last workspace, and the editor's list of linked projects.
//!
//! Nothing here touches the file system or starts a program. Each function
//! takes what was found on disk as plain values and returns what is to be
//! written or run.

pub mod bootstrap;
pub mod error;
pub mod generator;
pub mod input;
pub mod json;
pub mod languages;
pub mod paths;
pub mod runner;
pub mod scaffold;
pub mod session;
pub mod settings;
pub mod stack;
pub mod text;
pub mod workspace;

pub use bootstrap::init;
pub use error::KataError;
pub use generator::{generate_kata, Generation};
pub use runner::{resolve, run_tests, TestRun};
pub use session::Session;
pub use settings::link_rust_analyzer;
pub use stack::{Kata, KataInput, Language};
